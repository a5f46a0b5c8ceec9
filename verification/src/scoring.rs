//! Scoring of liquidity positions and reward distribution.
//!
//! All functions here are total on their documented domain: degenerate inputs
//! (a zero total time, a zero position value) yield a zero score rather than
//! an error. The only precondition each function carries is the width bound
//! that keeps every intermediate product inside `u128`; the caller bounds its
//! magnitudes (USD amounts, durations in seconds, tick distances) so that the
//! bound holds.

use vstd::prelude::*;

verus! {

/// Fixed-point scale for normalized scores: `10^18`.
pub const SCORE_DECIMALS: u128 = 1_000_000_000_000_000_000;

/// Maximum basis points (100%).
pub const MAX_BPS: u128 = 10_000;

/// Tick distances below this threshold earn a tightness bonus.
pub const TIGHT_RANGE_THRESHOLD: u128 = 100;

/// Maximum tightness bonus: 20% of `SCORE_DECIMALS`.
pub const TIGHT_RANGE_BONUS: u128 = 200_000_000_000_000_000;

/// Fraction of time in range, scaled to the fixed-point decimal:
/// `in_range_time * 10^18 / total_time`, truncating toward zero.
pub open spec fn base_score_spec(in_range_time: int, total_time: int) -> int
    recommends
        total_time > 0,
{
    in_range_time * (SCORE_DECIMALS as int) / total_time
}

/// Tightness bonus fraction for a tick distance, linearly interpolated from
/// `TIGHT_RANGE_BONUS` at distance zero down to zero at the threshold.
pub open spec fn tick_bonus_spec(tick_distance: int) -> int {
    if 0 <= tick_distance < TIGHT_RANGE_THRESHOLD {
        (TIGHT_RANGE_BONUS as int) * ((TIGHT_RANGE_THRESHOLD as int) - tick_distance) / (TIGHT_RANGE_THRESHOLD as int)
    } else {
        0
    }
}

/// Range score: the base score uplifted multiplicatively by the tightness
/// bonus, `base + base * bonus / 10^18`; zero when there is no data.
pub open spec fn range_score_spec(in_range_time: int, total_time: int, tick_distance: int) -> int {
    if total_time <= 0 {
        0
    } else {
        let base = base_score_spec(in_range_time, total_time);
        base + base * tick_bonus_spec(tick_distance) / (SCORE_DECIMALS as int)
    }
}

/// The width bound for `range_score`: every intermediate product and the
/// final sum fit in `u128`.
pub open spec fn range_score_fits(in_range_time: int, total_time: int, tick_distance: int) -> bool {
    total_time > 0 ==> {
        &&& in_range_time * (SCORE_DECIMALS as int) <= u128::MAX
        &&& base_score_spec(in_range_time, total_time) * tick_bonus_spec(tick_distance)
            <= u128::MAX
        &&& range_score_spec(in_range_time, total_time, tick_distance) <= u128::MAX
    }
}

/// A position in range for at most its whole lifetime has a base score of at
/// most one fixed-point unit, a bonus of at most the maximum, and a range
/// score of at most `1.2 * 10^18`.
pub proof fn lemma_range_score_bounds(in_range_time: int, total_time: int, tick_distance: int)
    requires
        0 < total_time,
        0 <= in_range_time <= total_time,
    ensures
        0 <= base_score_spec(in_range_time, total_time) <= SCORE_DECIMALS,
        0 <= tick_bonus_spec(tick_distance) <= TIGHT_RANGE_BONUS,
        0 <= range_score_spec(in_range_time, total_time, tick_distance) <= SCORE_DECIMALS
            + TIGHT_RANGE_BONUS,
{
    let base = base_score_spec(in_range_time, total_time);
    let bonus = tick_bonus_spec(tick_distance);
    vstd::arithmetic::div_mod::lemma_div_pos_is_pos(
        in_range_time * (SCORE_DECIMALS as int),
        total_time,
    );
    assert(base <= SCORE_DECIMALS) by {
        vstd::arithmetic::mul::lemma_mul_inequality(
            in_range_time,
            total_time,
            SCORE_DECIMALS as int,
        );
        vstd::arithmetic::div_mod::lemma_div_is_ordered(
            in_range_time * (SCORE_DECIMALS as int),
            total_time * (SCORE_DECIMALS as int),
            total_time,
        );
        vstd::arithmetic::div_mod::lemma_div_multiples_vanish(SCORE_DECIMALS as int, total_time);
        vstd::arithmetic::mul::lemma_mul_is_commutative(total_time, SCORE_DECIMALS as int);
    }
    if 0 <= tick_distance < TIGHT_RANGE_THRESHOLD {
        vstd::arithmetic::div_mod::lemma_div_pos_is_pos(
            (TIGHT_RANGE_BONUS as int) * ((TIGHT_RANGE_THRESHOLD as int) - tick_distance),
            TIGHT_RANGE_THRESHOLD as int,
        );
    }
    assert(base * bonus <= SCORE_DECIMALS * TIGHT_RANGE_BONUS) by {
        vstd::arithmetic::mul::lemma_mul_upper_bound(
            base,
            SCORE_DECIMALS as int,
            bonus,
            TIGHT_RANGE_BONUS as int,
        );
    }
    vstd::arithmetic::mul::lemma_mul_nonnegative(base, bonus);
    vstd::arithmetic::div_mod::lemma_div_pos_is_pos(base * bonus, SCORE_DECIMALS as int);
    vstd::arithmetic::div_mod::lemma_div_is_ordered(
        base * bonus,
        (SCORE_DECIMALS as int) * (TIGHT_RANGE_BONUS as int),
        SCORE_DECIMALS as int,
    );
    vstd::arithmetic::div_mod::lemma_div_multiples_vanish(
        TIGHT_RANGE_BONUS as int,
        SCORE_DECIMALS as int,
    );
}

/// A position in range for at most its whole lifetime, whose times fit the
/// scale, satisfies the width bound of `range_score`.
pub proof fn lemma_range_score_fits_for_position(
    in_range_time: int,
    total_time: int,
    tick_distance: int,
)
    requires
        0 <= in_range_time <= total_time,
        in_range_time * (SCORE_DECIMALS as int) <= u128::MAX,
    ensures
        range_score_fits(in_range_time, total_time, tick_distance),
{
    if total_time > 0 {
        lemma_range_score_bounds(in_range_time, total_time, tick_distance);
        vstd::arithmetic::mul::lemma_mul_upper_bound(
            base_score_spec(in_range_time, total_time),
            SCORE_DECIMALS as int,
            tick_bonus_spec(tick_distance),
            TIGHT_RANGE_BONUS as int,
        );
    }
}

/// Score a position by the fraction of time it spent in range, with a bonus
/// for tight ranges: `(in_range_time / total_time) * 10^18`, then uplifted by
/// up to 20% as the tick distance approaches zero. A zero `total_time` means
/// "no data" and scores zero.
pub fn range_score(in_range_time: u128, total_time: u128, tick_distance: u128) -> (score: u128)
    requires
        range_score_fits(in_range_time as int, total_time as int, tick_distance as int),
    ensures
        score == range_score_spec(in_range_time as int, total_time as int, tick_distance as int),
        total_time == 0 ==> score == 0,
        tick_distance >= TIGHT_RANGE_THRESHOLD ==> score == if total_time == 0 {
            0int
        } else {
            base_score_spec(in_range_time as int, total_time as int)
        },
        in_range_time <= total_time ==> score <= SCORE_DECIMALS + TIGHT_RANGE_BONUS,
{
    if total_time == 0 {
        return 0;
    }
    proof {
        if in_range_time <= total_time {
            lemma_range_score_bounds(
                in_range_time as int,
                total_time as int,
                tick_distance as int,
            );
        }
    }

    let base_score = (in_range_time * SCORE_DECIMALS) / total_time;

    let bonus = if tick_distance < TIGHT_RANGE_THRESHOLD {
        (TIGHT_RANGE_BONUS * (TIGHT_RANGE_THRESHOLD - tick_distance)) / TIGHT_RANGE_THRESHOLD
    } else {
        0
    };

    base_score + (base_score * bonus) / SCORE_DECIMALS
}

/// Fee yield per unit value per unit time, scaled to the fixed-point decimal:
/// `fees * 10^18 / (value * duration)`, truncating; zero on a degenerate
/// position (zero value or zero duration).
pub open spec fn fee_score_spec(fees_usd: int, lp_value_usd: int, duration: int) -> int {
    if lp_value_usd <= 0 || duration <= 0 {
        0
    } else {
        fees_usd * (SCORE_DECIMALS as int) / (lp_value_usd * duration)
    }
}

/// The width bound for `fee_score`: both products fit in `u128`.
pub open spec fn fee_score_fits(fees_usd: int, lp_value_usd: int, duration: int) -> bool {
    lp_value_usd > 0 && duration > 0 ==> {
        &&& fees_usd * (SCORE_DECIMALS as int) <= u128::MAX
        &&& lp_value_usd * duration <= u128::MAX
    }
}

/// Score a position by fee yield rate: `fees_usd * 10^18 / (lp_value_usd *
/// duration)`. A zero position value or duration means "no data" and scores
/// zero.
pub fn fee_score(fees_usd: u128, lp_value_usd: u128, duration: u128) -> (score: u128)
    requires
        fee_score_fits(fees_usd as int, lp_value_usd as int, duration as int),
    ensures
        score == fee_score_spec(fees_usd as int, lp_value_usd as int, duration as int),
        lp_value_usd == 0 || duration == 0 ==> score == 0,
{
    if lp_value_usd == 0 || duration == 0 {
        return 0;
    }
    assert(lp_value_usd as int * duration as int >= 1) by (nonlinear_arith)
        requires
            lp_value_usd >= 1,
            duration >= 1,
    ;
    (fees_usd * SCORE_DECIMALS) / (lp_value_usd * duration)
}

/// Identifier of player A in a battle.
pub const PLAYER_A: u8 = 1;

/// Identifier of player B in a battle.
pub const PLAYER_B: u8 = 2;

/// Pick the winner of two scores: player A on `score_a >= score_b` (ties and
/// the all-zero battle deliberately resolve to A), player B otherwise.
pub fn winner(score_a: u128, score_b: u128) -> (w: u8)
    ensures
        w == PLAYER_A <==> score_a >= score_b,
        w == PLAYER_A || w == PLAYER_B,
{
    if score_a >= score_b {
        PLAYER_A
    } else {
        PLAYER_B
    }
}

/// The resolver's cut of a reward pool: `total * bps / 10000`, truncating;
/// the whole pool once `resolver_bps` reaches 100% (saturating, not an
/// error).
pub open spec fn resolver_amount_spec(total_fees: int, resolver_bps: int) -> int {
    if resolver_bps >= MAX_BPS {
        total_fees
    } else {
        total_fees * resolver_bps / (MAX_BPS as int)
    }
}

/// Split a reward pool into `(winner_amount, resolver_amount)` by the
/// resolver's basis points. The two shares always sum to the whole pool.
pub fn rewards(total_fees: u128, resolver_bps: u128) -> (amounts: (u128, u128))
    requires
        resolver_bps < MAX_BPS ==> total_fees as int * resolver_bps as int <= u128::MAX,
    ensures
        amounts.1 == resolver_amount_spec(total_fees as int, resolver_bps as int),
        amounts.0 + amounts.1 == total_fees,
        resolver_bps >= MAX_BPS ==> amounts.0 == 0 && amounts.1 == total_fees,
{
    if resolver_bps >= MAX_BPS {
        return (0, total_fees);
    }
    proof {
        vstd::arithmetic::mul::lemma_mul_inequality(
            resolver_bps as int,
            MAX_BPS as int,
            total_fees as int,
        );
        vstd::arithmetic::div_mod::lemma_div_is_ordered(
            total_fees as int * resolver_bps as int,
            total_fees as int * MAX_BPS as int,
            MAX_BPS as int,
        );
        vstd::arithmetic::div_mod::lemma_div_by_multiple(total_fees as int, MAX_BPS as int);
    }
    let resolver_amount = (total_fees * resolver_bps) / MAX_BPS;
    let winner_amount = total_fees - resolver_amount;
    (winner_amount, resolver_amount)
}

/// Weight applied to the score of the exchange this identifier names, in
/// basis points (10000 is neutral). Identifiers outside the table default to
/// the neutral weight: unknown venues are never penalized or boosted.
pub const UNISWAP_V4_WEIGHT_BPS: u128 = 10_000;

/// Weight for the second tabled exchange, in basis points.
pub const CAMELOT_V3_WEIGHT_BPS: u128 = 10_000;

/// The weight table: identifier 0 and 1 have tabled weights, every other
/// identifier gets the neutral weight.
pub open spec fn dex_weight_spec(dex_type: u8) -> int {
    if dex_type == 0 {
        UNISWAP_V4_WEIGHT_BPS as int
    } else if dex_type == 1 {
        CAMELOT_V3_WEIGHT_BPS as int
    } else {
        MAX_BPS as int
    }
}

/// A raw score rescaled by the exchange's weight: `raw * weight / 10000`,
/// truncating.
pub open spec fn normalize_spec(raw_score: int, dex_type: u8) -> int {
    raw_score * dex_weight_spec(dex_type) / (MAX_BPS as int)
}

/// Rescale a raw score by the per-exchange weight, to correct for systematic
/// differences between venues. An identifier outside the weight table leaves
/// the score untouched.
pub fn normalize_cross_dex(raw_score: u128, dex_type: u8) -> (normalized: u128)
    requires
        raw_score <= u128::MAX / MAX_BPS,
    ensures
        normalized == normalize_spec(raw_score as int, dex_type),
        dex_type >= 2 ==> normalized == raw_score,
{
    let weight = if dex_type == 0 {
        UNISWAP_V4_WEIGHT_BPS
    } else if dex_type == 1 {
        CAMELOT_V3_WEIGHT_BPS
    } else {
        MAX_BPS
    };
    proof {
        vstd::arithmetic::div_mod::lemma_div_by_multiple(raw_score as int, MAX_BPS as int);
    }
    (raw_score * weight) / MAX_BPS
}

/// More time in range never lowers a range score, for a fixed total time and
/// tick distance.
pub proof fn lemma_range_score_monotonic_in_time(
    in_range_time_low: int,
    in_range_time_high: int,
    total_time: int,
    tick_distance: int,
)
    requires
        0 <= in_range_time_low <= in_range_time_high,
        total_time > 0,
    ensures
        range_score_spec(in_range_time_low, total_time, tick_distance) <= range_score_spec(
            in_range_time_high,
            total_time,
            tick_distance,
        ),
{
    let base_low = base_score_spec(in_range_time_low, total_time);
    let base_high = base_score_spec(in_range_time_high, total_time);
    let bonus = tick_bonus_spec(tick_distance);
    vstd::arithmetic::div_mod::lemma_div_is_ordered(
        in_range_time_low * (SCORE_DECIMALS as int),
        in_range_time_high * (SCORE_DECIMALS as int),
        total_time,
    );
    assert(bonus >= 0) by {
        if 0 <= tick_distance < TIGHT_RANGE_THRESHOLD {
            vstd::arithmetic::div_mod::lemma_div_pos_is_pos(
                (TIGHT_RANGE_BONUS as int) * ((TIGHT_RANGE_THRESHOLD as int) - tick_distance),
                TIGHT_RANGE_THRESHOLD as int,
            );
        }
    }
    vstd::arithmetic::mul::lemma_mul_inequality(base_low, base_high, bonus);
    vstd::arithmetic::mul::lemma_mul_is_commutative(base_low, bonus);
    vstd::arithmetic::mul::lemma_mul_is_commutative(base_high, bonus);
    vstd::arithmetic::div_mod::lemma_div_is_ordered(
        base_low * bonus,
        base_high * bonus,
        SCORE_DECIMALS as int,
    );
}

/// A tighter range (smaller tick distance) never lowers a range score, for a
/// fixed time split.
pub proof fn lemma_range_score_nonincreasing_in_tick(
    in_range_time: int,
    total_time: int,
    tick_distance_low: int,
    tick_distance_high: int,
)
    requires
        in_range_time >= 0,
        total_time > 0,
        0 <= tick_distance_low <= tick_distance_high,
    ensures
        range_score_spec(in_range_time, total_time, tick_distance_low) >= range_score_spec(
            in_range_time,
            total_time,
            tick_distance_high,
        ),
{
    let base = base_score_spec(in_range_time, total_time);
    let bonus_low = tick_bonus_spec(tick_distance_low);
    let bonus_high = tick_bonus_spec(tick_distance_high);
    vstd::arithmetic::div_mod::lemma_div_pos_is_pos(
        in_range_time * (SCORE_DECIMALS as int),
        total_time,
    );
    assert(bonus_low >= bonus_high) by {
        if 0 <= tick_distance_low < TIGHT_RANGE_THRESHOLD {
            let gap_low = (TIGHT_RANGE_THRESHOLD as int) - tick_distance_low;
            let gap_high = if tick_distance_high < TIGHT_RANGE_THRESHOLD {
                (TIGHT_RANGE_THRESHOLD as int) - tick_distance_high
            } else {
                0
            };
            vstd::arithmetic::div_mod::lemma_div_is_ordered(
                (TIGHT_RANGE_BONUS as int) * gap_high,
                (TIGHT_RANGE_BONUS as int) * gap_low,
                TIGHT_RANGE_THRESHOLD as int,
            );
            vstd::arithmetic::div_mod::lemma_div_pos_is_pos(
                (TIGHT_RANGE_BONUS as int) * gap_low,
                TIGHT_RANGE_THRESHOLD as int,
            );
        }
    }
    vstd::arithmetic::mul::lemma_mul_inequality(bonus_high, bonus_low, base);
    vstd::arithmetic::mul::lemma_mul_is_commutative(base, bonus_low);
    vstd::arithmetic::mul::lemma_mul_is_commutative(base, bonus_high);
    vstd::arithmetic::div_mod::lemma_div_is_ordered(
        base * bonus_high,
        base * bonus_low,
        SCORE_DECIMALS as int,
    );
}

/// Higher fees never lower a fee score, for a fixed position value and
/// duration.
pub proof fn lemma_fee_score_monotonic_in_fees(
    fees_low: int,
    fees_high: int,
    lp_value_usd: int,
    duration: int,
)
    requires
        0 <= fees_low <= fees_high,
    ensures
        fee_score_spec(fees_low, lp_value_usd, duration) <= fee_score_spec(
            fees_high,
            lp_value_usd,
            duration,
        ),
{
    if lp_value_usd > 0 && duration > 0 {
        vstd::arithmetic::mul::lemma_mul_strictly_positive(lp_value_usd, duration);
        vstd::arithmetic::div_mod::lemma_div_is_ordered(
            fees_low * (SCORE_DECIMALS as int),
            fees_high * (SCORE_DECIMALS as int),
            lp_value_usd * duration,
        );
    }
}

/// A larger position never raises a fee score, for fixed fees and duration:
/// the same fees spread over more value yield at most the same rate.
pub proof fn lemma_fee_score_nonincreasing_in_value(
    fees_usd: int,
    value_low: int,
    value_high: int,
    duration: int,
)
    requires
        fees_usd >= 0,
        0 < value_low <= value_high,
        duration > 0,
    ensures
        fee_score_spec(fees_usd, value_low, duration) >= fee_score_spec(
            fees_usd,
            value_high,
            duration,
        ),
{
    vstd::arithmetic::mul::lemma_mul_strictly_positive(value_low, duration);
    vstd::arithmetic::mul::lemma_mul_inequality(value_low, value_high, duration);
    vstd::arithmetic::div_mod::lemma_div_is_ordered_by_denominator(
        fees_usd * (SCORE_DECIMALS as int),
        value_low * duration,
        value_high * duration,
    );
}

/// A position in range for the whole battle, with no tightness bonus, scores
/// exactly the full fixed-point unit `10^18`.
pub proof fn lemma_full_time_no_bonus(total_time: int, tick_distance: int)
    requires
        total_time > 0,
        tick_distance >= TIGHT_RANGE_THRESHOLD,
    ensures
        range_score_spec(total_time, total_time, tick_distance) == SCORE_DECIMALS,
{
    vstd::arithmetic::div_mod::lemma_div_by_multiple(SCORE_DECIMALS as int, total_time);
    vstd::arithmetic::mul::lemma_mul_is_commutative(SCORE_DECIMALS as int, total_time);
}

/// A tick distance of zero uplifts the no-bonus score by exactly the maximum
/// bonus fraction: `score(irt, tt, 0) == base + base * TIGHT_RANGE_BONUS /
/// 10^18`, where `base` is the score at or above the threshold.
pub proof fn lemma_tightest_range_uplift(in_range_time: int, total_time: int)
    requires
        total_time > 0,
    ensures
        range_score_spec(in_range_time, total_time, 0) == range_score_spec(
            in_range_time,
            total_time,
            TIGHT_RANGE_THRESHOLD as int,
        ) + range_score_spec(in_range_time, total_time, TIGHT_RANGE_THRESHOLD as int) * (
        TIGHT_RANGE_BONUS as int) / (SCORE_DECIMALS as int),
{
    let base = base_score_spec(in_range_time, total_time);
    assert(tick_bonus_spec(TIGHT_RANGE_THRESHOLD as int) == 0);
    assert(tick_bonus_spec(0) == TIGHT_RANGE_BONUS);
    assert(range_score_spec(in_range_time, total_time, TIGHT_RANGE_THRESHOLD as int) == base);
}

} // verus!

