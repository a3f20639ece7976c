//! Engine for a three-player "King"-family trick-taking card game.
//!
//! The library covers the rules core: the card and deck model, the fixed
//! contract schedule, trick resolution under trump and suit-following
//! constraints, contract-specific scoring, and the per-round state machine.
//! Reading player input and printing belong to the surrounding application.

pub mod board;
pub mod card;
pub mod game;
pub mod player;
pub mod schedule;
