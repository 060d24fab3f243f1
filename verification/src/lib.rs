//! Move selection for a snake on a bounded grid.
//!
//! Given one snapshot of a turn (the board, the acting snake and every snake
//! alive), the library computes the directions that do not lead to immediate
//! death and answers with one of them.

pub mod direction;
pub mod info;
pub mod models;
pub mod random;
pub mod rules;
pub mod selector;
pub mod validation;
