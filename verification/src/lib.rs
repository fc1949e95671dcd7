//! An arithmetic practice engine: rulesets, question generation by bounded
//! rejection sampling, answer checking, and a session that collects rewards.

pub mod decimal;
pub mod error;
pub mod game_state;
pub mod generator;
pub mod laws;
pub mod operator;
pub mod question;
pub mod random;
pub mod reward;
pub mod ruleset;
pub mod session;
