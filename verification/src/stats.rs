//! Per-player record keeping for the leaderboard.
//!
//! The storage layer above this crate persists one `PlayerStats` per player
//! and serializes the read-update-write of the two players a battle touches;
//! this module supplies the pure transition it must apply. A player never
//! seen before starts from `PlayerStats::initial()`.

use vstd::prelude::*;

use crate::rating::{
    calculate_new_elo,
    new_loser_elo_spec,
    new_winner_elo_spec,
    DEFAULT_ELO,
    MAX_RATING_INPUT,
    MIN_ELO,
};

verus! {

/// One player's persisted record: rating, win/loss counters, and cumulative
/// USD value won (8 decimals).
#[derive(Clone, Copy, PartialEq, Eq, Structural, Debug)]
pub struct PlayerStats {
    /// Current ELO-style rating.
    pub elo: u128,
    /// Battles won.
    pub wins: u128,
    /// Battles lost.
    pub losses: u128,
    /// Battles fought, won or lost.
    pub total_battles: u128,
    /// Cumulative USD value won, 8 decimals.
    pub total_value_won: u128,
}

impl PlayerStats {
    /// The record of a player seen for the first time: the default rating and
    /// zeroed counters.
    pub fn initial() -> (stats: PlayerStats)
        ensures
            stats == (PlayerStats {
                elo: DEFAULT_ELO,
                wins: 0,
                losses: 0,
                total_battles: 0,
                total_value_won: 0,
            }),
    {
        PlayerStats { elo: DEFAULT_ELO, wins: 0, losses: 0, total_battles: 0, total_value_won: 0 }
    }
}

/// A player's record as read back: the stored one if the player has battled
/// before, else the initial record with the default rating.
pub fn stats_or_default(stored: Option<PlayerStats>) -> (stats: PlayerStats)
    ensures
        match stored {
            Some(s) => stats == s,
            None => stats == (PlayerStats {
                elo: DEFAULT_ELO,
                wins: 0,
                losses: 0,
                total_battles: 0,
                total_value_won: 0,
            }),
        },
{
    match stored {
        Some(s) => s,
        None => PlayerStats::initial(),
    }
}

/// Record one battle outcome: rate the pair with `calculate_new_elo`, count
/// the win and the loss, and credit the battle's USD value to the winner.
/// Returns the two updated records, winner first.
pub fn record_result(
    winner_stats: PlayerStats,
    loser_stats: PlayerStats,
    battle_value_usd: u128,
) -> (updated: (PlayerStats, PlayerStats))
    requires
        winner_stats.elo <= MAX_RATING_INPUT,
        loser_stats.elo <= MAX_RATING_INPUT,
        winner_stats.wins < u128::MAX,
        winner_stats.total_battles < u128::MAX,
        winner_stats.total_value_won + battle_value_usd <= u128::MAX,
        loser_stats.losses < u128::MAX,
        loser_stats.total_battles < u128::MAX,
    ensures
        updated.0.elo == new_winner_elo_spec(winner_stats.elo as int, loser_stats.elo as int),
        updated.1.elo == new_loser_elo_spec(winner_stats.elo as int, loser_stats.elo as int),
        updated.0.elo > winner_stats.elo,
        updated.1.elo >= MIN_ELO,
        updated.0.wins == winner_stats.wins + 1,
        updated.0.losses == winner_stats.losses,
        updated.0.total_battles == winner_stats.total_battles + 1,
        updated.0.total_value_won == winner_stats.total_value_won + battle_value_usd,
        updated.1.wins == loser_stats.wins,
        updated.1.losses == loser_stats.losses + 1,
        updated.1.total_battles == loser_stats.total_battles + 1,
        updated.1.total_value_won == loser_stats.total_value_won,
{
    let (new_winner_elo, new_loser_elo) = calculate_new_elo(winner_stats.elo, loser_stats.elo);
    let updated_winner = PlayerStats {
        elo: new_winner_elo,
        wins: winner_stats.wins + 1,
        losses: winner_stats.losses,
        total_battles: winner_stats.total_battles + 1,
        total_value_won: winner_stats.total_value_won + battle_value_usd,
    };
    let updated_loser = PlayerStats {
        elo: new_loser_elo,
        wins: loser_stats.wins,
        losses: loser_stats.losses + 1,
        total_battles: loser_stats.total_battles + 1,
        total_value_won: loser_stats.total_value_won,
    };
    (updated_winner, updated_loser)
}

} // verus!
