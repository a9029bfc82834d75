//! The scoring rules: adjustment gates, coefficient lookup and placement scores.

pub mod calculator;
pub mod coefficients;
pub mod placement_score;
