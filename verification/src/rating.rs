//! ELO-style rating updates after a recorded battle outcome.
//!
//! The expected-score curve is a clamped piecewise-linear surrogate for the
//! logistic formula, chosen so the whole update runs in exact integer
//! arithmetic: at equal ratings the winner is expected to score 500/1000, and
//! the expectation grows linearly with the rating gap until it saturates at
//! 1000/1000. The surrogate, its clamp points, and the truncating divisions
//! are part of the contract: results must be bit-exact, not merely close to
//! the logistic curve.

use vstd::prelude::*;

verus! {

/// Starting rating for players never seen before.
pub const DEFAULT_ELO: u128 = 1000;

/// How much a single battle can move a rating.
pub const K_FACTOR: u128 = 32;

/// Scale for integer expected-score math: expectations live in `[0, 1000]`.
pub const ELO_SCALE: u128 = 1000;

/// Rating gap at which the linear surrogate puts the expected score around
/// 0.91 (400 in standard ELO); the surrogate spreads the whole `[0, 1]`
/// expectation band over four times this gap.
pub const ELO_SPREAD: u128 = 400;

/// No rating ever drops below this floor.
pub const MIN_ELO: u128 = 100;

/// Ratings at or below this bound keep every product in the update inside
/// `u128`.
pub const MAX_RATING_INPUT: u128 = u128::MAX / ELO_SCALE;

/// Expected score of the winner, scaled by `ELO_SCALE` and clamped to
/// `[0, ELO_SCALE]`: `500 + diff * 1000 / 1600` for a favorite,
/// `500 - diff * 1000 / 1600` for an underdog, with the gap `diff` measured
/// from the loser's rating.
pub open spec fn expected_winner_spec(winner_elo: int, loser_elo: int) -> int {
    let half_scale = (ELO_SCALE as int) / 2;
    let spread4 = 4 * (ELO_SPREAD as int);
    if winner_elo >= loser_elo {
        let bonus = (winner_elo - loser_elo) * (ELO_SCALE as int) / spread4;
        if half_scale + bonus > ELO_SCALE {
            ELO_SCALE as int
        } else {
            half_scale + bonus
        }
    } else {
        let penalty = (loser_elo - winner_elo) * (ELO_SCALE as int) / spread4;
        if penalty >= half_scale {
            0
        } else {
            half_scale - penalty
        }
    }
}

/// The raw rating movement of a battle, before the winner's floor rule:
/// `K * (SCALE - expected_winner) / SCALE`. The same value measures the
/// winner's gain (actual score 1 against the expectation) and the loser's
/// loss (actual score 0 against the complementary expectation).
pub open spec fn rating_delta_spec(winner_elo: int, loser_elo: int) -> int {
    (K_FACTOR as int) * ((ELO_SCALE as int) - expected_winner_spec(winner_elo, loser_elo)) / (
    ELO_SCALE as int)
}

/// The winner's gain: the raw delta, forced up to 1 when it truncates to
/// zero — a win must always pay at least one point, even for an overwhelming
/// favorite.
pub open spec fn winner_gain_spec(winner_elo: int, loser_elo: int) -> int {
    if rating_delta_spec(winner_elo, loser_elo) == 0 {
        1
    } else {
        rating_delta_spec(winner_elo, loser_elo)
    }
}

/// The winner's new rating: unbounded above.
pub open spec fn new_winner_elo_spec(winner_elo: int, loser_elo: int) -> int {
    winner_elo + winner_gain_spec(winner_elo, loser_elo)
}

/// The loser's new rating, floored at `MIN_ELO`. The floor test is the exact
/// branch the engine runs — subtract only when `loser_elo` strictly exceeds
/// `loss + MIN_ELO`, else pin to the floor — and is kept as two paths rather
/// than simplified to a `max`, so that a loser sitting exactly at
/// `loss + MIN_ELO` floors through the explicit branch.
pub open spec fn new_loser_elo_spec(winner_elo: int, loser_elo: int) -> int {
    let loser_loss = rating_delta_spec(winner_elo, loser_elo);
    if loser_elo > loser_loss + MIN_ELO {
        loser_elo - loser_loss
    } else {
        MIN_ELO as int
    }
}

/// Update two ratings after a battle: `(new_winner_elo, new_loser_elo)`.
///
/// The winner's rating strictly increases on every call, by at most
/// `K_FACTOR`; the loser's never lands below `MIN_ELO` (a loser already under
/// the floor is lifted onto it), and never rises.
pub fn calculate_new_elo(winner_elo: u128, loser_elo: u128) -> (ratings: (u128, u128))
    requires
        winner_elo <= MAX_RATING_INPUT,
        loser_elo <= MAX_RATING_INPUT,
    ensures
        ratings.0 == new_winner_elo_spec(winner_elo as int, loser_elo as int),
        ratings.1 == new_loser_elo_spec(winner_elo as int, loser_elo as int),
        ratings.0 > winner_elo,
        ratings.0 <= winner_elo + K_FACTOR,
        ratings.1 >= MIN_ELO,
        ratings.1 <= loser_elo || ratings.1 == MIN_ELO,
{
    proof {
        lemma_delta_bounded(winner_elo as int, loser_elo as int);
    }
    let k = K_FACTOR;
    let scale = ELO_SCALE;
    let half_scale = scale / 2;
    let spread4 = 4 * ELO_SPREAD;

    let expected_winner = if winner_elo >= loser_elo {
        let diff = winner_elo - loser_elo;
        let bonus = (diff * scale) / spread4;
        let result = half_scale + bonus;
        if result > scale {
            scale
        } else {
            result
        }
    } else {
        let diff = loser_elo - winner_elo;
        let penalty = (diff * scale) / spread4;
        if penalty >= half_scale {
            0
        } else {
            half_scale - penalty
        }
    };

    let winner_gain = (k * (scale - expected_winner)) / scale;

    let expected_loser = scale - expected_winner;
    let loser_loss = (k * expected_loser) / scale;

    let winner_gain = if winner_gain == 0 {
        1
    } else {
        winner_gain
    };

    let new_winner_elo = winner_elo + winner_gain;

    let new_loser_elo = if loser_elo > loser_loss + MIN_ELO {
        loser_elo - loser_loss
    } else {
        MIN_ELO
    };

    (new_winner_elo, new_loser_elo)
}

/// Away from the floor, a battle is near zero-sum: the loser's loss equals
/// the winner's gain except when the gain truncates to zero and is forced to
/// one, so the two differ by at most one point.
pub proof fn lemma_near_zero_sum(winner_elo: int, loser_elo: int)
    ensures
        winner_gain_spec(winner_elo, loser_elo) - rating_delta_spec(winner_elo, loser_elo) <= 1,
        winner_gain_spec(winner_elo, loser_elo) >= rating_delta_spec(winner_elo, loser_elo),
{
}

/// The expected score never leaves `[0, ELO_SCALE]`, so the raw delta never
/// leaves `[0, K_FACTOR]` and a single battle moves a rating by at most
/// `K_FACTOR` in either direction.
pub proof fn lemma_delta_bounded(winner_elo: int, loser_elo: int)
    ensures
        0 <= expected_winner_spec(winner_elo, loser_elo) <= ELO_SCALE,
        0 <= rating_delta_spec(winner_elo, loser_elo) <= K_FACTOR,
        1 <= winner_gain_spec(winner_elo, loser_elo) <= K_FACTOR,
{
    let spread4 = 4 * (ELO_SPREAD as int);
    if winner_elo >= loser_elo {
        vstd::arithmetic::div_mod::lemma_div_pos_is_pos(
            (winner_elo - loser_elo) * (ELO_SCALE as int),
            spread4,
        );
    } else {
        vstd::arithmetic::div_mod::lemma_div_pos_is_pos(
            (loser_elo - winner_elo) * (ELO_SCALE as int),
            spread4,
        );
    }
}

/// A larger rating gap in the winner's favor never pays the winner more: the
/// expected score grows with the gap, so the gain shrinks (down to the forced
/// minimum of one). Read with the gap negated, the same fact says an underdog
/// never gains less than a favorite.
pub proof fn lemma_gain_nonincreasing_in_gap(
    winner_close: int,
    loser_close: int,
    winner_far: int,
    loser_far: int,
)
    requires
        winner_close - loser_close <= winner_far - loser_far,
    ensures
        expected_winner_spec(winner_close, loser_close) <= expected_winner_spec(
            winner_far,
            loser_far,
        ),
        rating_delta_spec(winner_close, loser_close) >= rating_delta_spec(winner_far, loser_far),
        winner_gain_spec(winner_close, loser_close) >= winner_gain_spec(winner_far, loser_far),
{
    let spread4 = 4 * (ELO_SPREAD as int);
    let gap_close = winner_close - loser_close;
    let gap_far = winner_far - loser_far;
    lemma_delta_bounded(winner_close, loser_close);
    lemma_delta_bounded(winner_far, loser_far);
    assert(expected_winner_spec(winner_close, loser_close) <= expected_winner_spec(
        winner_far,
        loser_far,
    )) by {
        if gap_close >= 0 {
            vstd::arithmetic::div_mod::lemma_div_is_ordered(
                gap_close * (ELO_SCALE as int),
                gap_far * (ELO_SCALE as int),
                spread4,
            );
        } else if gap_far < 0 {
            vstd::arithmetic::div_mod::lemma_div_is_ordered(
                (-gap_far) * (ELO_SCALE as int),
                (-gap_close) * (ELO_SCALE as int),
                spread4,
            );
        }
    }
    vstd::arithmetic::div_mod::lemma_div_is_ordered(
        (K_FACTOR as int) * ((ELO_SCALE as int) - expected_winner_spec(winner_far, loser_far)),
        (K_FACTOR as int) * ((ELO_SCALE as int) - expected_winner_spec(winner_close, loser_close)),
        ELO_SCALE as int,
    );
}

} // verus!

