//! An interpreter for "pool", a two-dimensional stack language: a program is
//! a grid of characters that an instruction pointer walks, one cell per step.

pub mod grid;
pub mod laws;
pub mod machine;
pub mod opcode;
pub mod output;
pub mod vector;
pub mod viewer;
