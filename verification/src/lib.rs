//! Cubie-level model of a 3x3x3 twisty puzzle.
//!
//! A `Cubie` value records, for each physical corner and edge slot, which
//! piece occupies it and how that piece is twisted or flipped. Five face
//! quarter-turn generators (`U`, `D`, `R`, `L`, `B`) and their inverses
//! mutate the state in place; `is_solved` tests for the canonical solved
//! configuration. The `laws` module proves the algebraic properties the
//! operators preserve.

pub mod cube;
pub mod laws;
