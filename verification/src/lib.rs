//! World Athletics points: the event taxonomy, the placement-score tables and
//! the rules that decide which adjustments and bonuses a performance receives.
//!
//! Everything in this crate works on integers, strings and enumerations.
//! Callers keep the floating-point arithmetic of a score on their side and take
//! from here the decisions that surround it.

pub mod models;
pub mod scoring_logic;
