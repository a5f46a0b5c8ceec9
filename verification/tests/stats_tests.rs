use battle_scoring::rating::calculate_new_elo;
use battle_scoring::scoring::{normalize_cross_dex, range_score, rewards, TIGHT_RANGE_BONUS};
use battle_scoring::stats::{record_result, stats_or_default, PlayerStats};

// ============ Player Record Tests ============

#[test]
fn test_initial_stats_defaults() {
    let stats = PlayerStats::initial();
    assert_eq!(stats.elo, 1000);
    assert_eq!(stats.wins, 0);
    assert_eq!(stats.losses, 0);
    assert_eq!(stats.total_battles, 0);
    assert_eq!(stats.total_value_won, 0);
}

#[test]
fn test_stats_or_default_unseen_player() {
    let stats = stats_or_default(None);
    assert_eq!(stats, PlayerStats::initial());
}

#[test]
fn test_stats_or_default_stored_record() {
    let stored = PlayerStats {
        elo: 1234,
        wins: 5,
        losses: 2,
        total_battles: 7,
        total_value_won: 900_000_000,
    };
    assert_eq!(stats_or_default(Some(stored)), stored);
}

#[test]
fn test_record_result_first_battle() {
    let (w, l) = record_result(PlayerStats::initial(), PlayerStats::initial(), 500_000_000);
    assert_eq!(w.elo, 1016);
    assert_eq!(w.wins, 1);
    assert_eq!(w.losses, 0);
    assert_eq!(w.total_battles, 1);
    assert_eq!(w.total_value_won, 500_000_000);
    assert_eq!(l.elo, 984);
    assert_eq!(l.wins, 0);
    assert_eq!(l.losses, 1);
    assert_eq!(l.total_battles, 1);
    assert_eq!(l.total_value_won, 0);
}

#[test]
fn test_record_result_accumulates_counters() {
    let veteran = PlayerStats {
        elo: 1100,
        wins: 3,
        losses: 4,
        total_battles: 7,
        total_value_won: 1_000_000_000,
    };
    let rival = PlayerStats {
        elo: 900,
        wins: 4,
        losses: 3,
        total_battles: 7,
        total_value_won: 2_000_000_000,
    };
    let (w, l) = record_result(veteran, rival, 250_000_000);
    let (expected_w_elo, expected_l_elo) = calculate_new_elo(1100, 900);
    assert_eq!(w.elo, expected_w_elo);
    assert_eq!(l.elo, expected_l_elo);
    assert_eq!(w.wins, 4);
    assert_eq!(w.total_battles, 8);
    assert_eq!(w.total_value_won, 1_250_000_000);
    assert_eq!(l.losses, 4);
    assert_eq!(l.total_battles, 8);
    assert_eq!(l.total_value_won, 2_000_000_000);
}

// ============ Scoring Edge Cases ============

#[test]
fn test_range_score_max_bonus_uplift_truncates() {
    // Odd base exercises the truncating division of the bonus uplift:
    // base = 7e18/13, uplifted by exactly base/5.
    let no_bonus = range_score(7, 13, 100);
    let max_bonus = range_score(7, 13, 0);
    assert_eq!(no_bonus, 538_461_538_461_538_461);
    assert_eq!(max_bonus, 646_153_846_153_846_153);
    assert_eq!(max_bonus, no_bonus + no_bonus * TIGHT_RANGE_BONUS / 1_000_000_000_000_000_000);
}

#[test]
fn test_range_score_over_full_time() {
    // More time in range than total is not rejected; the ratio just exceeds 1.
    let score = range_score(7200, 3600, 200);
    assert_eq!(score, 2_000_000_000_000_000_000);
}

#[test]
fn test_rewards_just_below_full_bps() {
    let (w, r) = rewards(10000, 9999);
    assert_eq!(r, 9999);
    assert_eq!(w, 1);
    assert_eq!(w + r, 10000);
}

#[test]
fn test_rewards_over_full_bps_saturates() {
    let (w, r) = rewards(777, 12345);
    assert_eq!(w, 0);
    assert_eq!(r, 777);
}

#[test]
fn test_normalize_first_unknown_dex_id() {
    // Identifier 2 is the first one past the weight table.
    assert_eq!(normalize_cross_dex(123_456_789, 2), 123_456_789);
}

// ============ Rating Edge Cases ============

#[test]
fn test_elo_floor_boundary_paths() {
    // A loser exactly at loss + floor pins to the floor through the explicit
    // branch; one point above it subtracts and lands one above the floor.
    let (w_at, l_at) = calculate_new_elo(116, 116);
    assert_eq!(w_at, 132);
    assert_eq!(l_at, 100);
    let (w_above, l_above) = calculate_new_elo(117, 117);
    assert_eq!(w_above, 133);
    assert_eq!(l_above, 101);
}

#[test]
fn test_elo_loser_below_floor_is_lifted() {
    // A stored rating under the floor comes back at exactly the floor.
    let (_, new_l) = calculate_new_elo(1000, 50);
    assert_eq!(new_l, 100);
}

#[test]
fn test_elo_underdog_gain_exceeds_equal_gain_values() {
    // 400-point underdog: expected 250/1000, gain 32 * 750 / 1000 = 24.
    let (new_w, _) = calculate_new_elo(800, 1200);
    assert_eq!(new_w - 800, 24);
    // 400-point favorite: expected 750/1000, gain 32 * 250 / 1000 = 8.
    let (new_f, _) = calculate_new_elo(1200, 800);
    assert_eq!(new_f - 1200, 8);
}
