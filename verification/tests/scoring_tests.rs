use battle_scoring::scoring::{
    fee_score, normalize_cross_dex, range_score, rewards, winner, TIGHT_RANGE_BONUS,
    TIGHT_RANGE_THRESHOLD,
};

const E18: u128 = 1_000_000_000_000_000_000;

// ============ Range Score Tests ============

#[test]
fn test_range_score_full_time_no_bonus() {
    let score = range_score(
        3600, 3600, 200, // beyond threshold
    );
    assert_eq!(score, E18);
}

#[test]
fn test_range_score_half_time() {
    let score = range_score(1800, 3600, 200);
    assert_eq!(score, E18 / 2);
}

#[test]
fn test_range_score_zero_total_time() {
    let score = range_score(1000, 0, 0);
    assert_eq!(score, 0);
}

#[test]
fn test_range_score_zero_in_range() {
    let score = range_score(0, 3600, 50);
    assert_eq!(score, 0);
}

#[test]
fn test_range_score_tight_range_max_bonus() {
    // tick_distance = 0 → max bonus (20%)
    let score = range_score(3600, 3600, 0);
    let expected = E18 + TIGHT_RANGE_BONUS;
    assert_eq!(score, expected);
}

#[test]
fn test_range_score_tight_range_half_bonus() {
    // tick_distance = 50 → half of max bonus
    let score = range_score(3600, 3600, 50);
    let half_bonus = TIGHT_RANGE_BONUS / 2;
    let expected = E18 + half_bonus;
    assert_eq!(score, expected);
}

#[test]
fn test_range_score_at_threshold_no_bonus() {
    let score = range_score(3600, 3600, TIGHT_RANGE_THRESHOLD);
    assert_eq!(score, E18);
}

#[test]
fn test_range_score_partial_time_with_bonus() {
    // 50% in range, max bonus
    let score = range_score(1800, 3600, 0);
    let base = E18 / 2;
    let bonus = TIGHT_RANGE_BONUS / 2;
    let expected = base + bonus;
    assert_eq!(score, expected);
}

// ============ Fee Score Tests ============

#[test]
fn test_fee_score_basic() {
    let score = fee_score(
        10 * 100_000_000,   // $10
        1000 * 100_000_000, // $1000
        3600,
    );
    let expected = E18 / 360_000;
    assert_eq!(score, expected);
}

#[test]
fn test_fee_score_zero_fees() {
    assert_eq!(fee_score(0, 1000, 3600), 0);
}

#[test]
fn test_fee_score_zero_lp_value() {
    assert_eq!(fee_score(100, 0, 3600), 0);
}

#[test]
fn test_fee_score_zero_duration() {
    assert_eq!(fee_score(100, 1000, 0), 0);
}

#[test]
fn test_fee_score_higher_fees_higher_score() {
    let low = fee_score(10, 1000, 3600);
    let high = fee_score(100, 1000, 3600);
    assert!(high > low);
}

#[test]
fn test_fee_score_larger_position_lower_rate() {
    let small = fee_score(100, 1000, 3600);
    let large = fee_score(100, 2000, 3600);
    assert!(small > large);
}

// ============ Determine Winner Tests ============

#[test]
fn test_winner_a_higher() {
    assert_eq!(winner(100, 50), 1);
}

#[test]
fn test_winner_b_higher() {
    assert_eq!(winner(50, 100), 2);
}

#[test]
fn test_winner_tie_goes_to_a() {
    assert_eq!(winner(100, 100), 1);
}

#[test]
fn test_winner_both_zero() {
    assert_eq!(winner(0, 0), 1);
}

// ============ Calculate Rewards Tests ============

#[test]
fn test_rewards_standard_1_percent() {
    let (w, r) = rewards(10000, 100);
    assert_eq!(r, 100);
    assert_eq!(w, 9900);
}

#[test]
fn test_rewards_10_percent() {
    let (w, r) = rewards(10000, 1000);
    assert_eq!(r, 1000);
    assert_eq!(w, 9000);
}

#[test]
fn test_rewards_zero_fees() {
    let (w, r) = rewards(0, 100);
    assert_eq!(w, 0);
    assert_eq!(r, 0);
}

#[test]
fn test_rewards_zero_resolver_bps() {
    let (w, r) = rewards(10000, 0);
    assert_eq!(w, 10000);
    assert_eq!(r, 0);
}

#[test]
fn test_rewards_full_bps() {
    let (w, r) = rewards(10000, 10000);
    assert_eq!(w, 0);
    assert_eq!(r, 10000);
}

#[test]
fn test_rewards_conservation() {
    let total: u128 = 123_456_789;
    let (w, r) = rewards(total, 100);
    assert_eq!(w + r, total);
}

// ============ Cross-DEX Normalization Tests ============

#[test]
fn test_normalize_equal_weights() {
    // Both DEXes at 10000 BPS (1.0x) → no change
    let score: u128 = 1_000_000;
    assert_eq!(normalize_cross_dex(score, 0), score); // V4
    assert_eq!(normalize_cross_dex(score, 1), score); // Camelot
}

#[test]
fn test_normalize_zero_score() {
    assert_eq!(normalize_cross_dex(0, 0), 0);
    assert_eq!(normalize_cross_dex(0, 1), 0);
}

#[test]
fn test_normalize_unknown_dex() {
    // Unknown DEX type gets 1.0x (no adjustment)
    let score: u128 = 5000;
    assert_eq!(normalize_cross_dex(score, 255), score);
}
