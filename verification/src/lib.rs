//! Integer-only scoring and rating engine for two-party liquidity battles.
//!
//! Every quantity is an unsigned fixed-width integer; ratios are carried as
//! fixed-point values scaled by `10^18`, with truncating division, so results
//! are bit-exact and platform independent. The crate computes range and fee
//! scores for liquidity positions, picks a winner, splits a reward pool by
//! basis points, normalizes scores across exchanges, and updates ELO-style
//! ratings after a battle. It holds no mutable state of its own: the stateful
//! layer around it supplies the measurements and persists the results.

pub mod rating;
pub mod scoring;
pub mod stats;
