//! A falling-block puzzle engine: the piece catalog, the play field with its
//! collision, line-clear and scoring rules, and the per-tick round logic.
pub mod field;
pub mod round;
pub mod shapes;
