//! Core of a themeable desktop calculator: a display/state machine driven by
//! discrete input events, an arithmetic-expression evaluator that delegates
//! infix parsing and evaluation to the `meval` crate, and an exact
//! integer-scaled model of the RGB color themes.

pub mod channel;
pub mod eval;
pub mod formula;
pub mod state;
pub mod theme;
