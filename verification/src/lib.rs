//! Conway's Game of Life on a toroidal grid.
//!
//! The mathematical model of a grid is a rectangular `Seq<Seq<bool>>`; the
//! module [`field`] defines the rule and the generation step on it.
//! [`grid::GameOfLife`] is the executable grid, specified against that model,
//! and [`render`] projects it to pixels and to text. [`control`] holds the
//! decisions of an interactive session and [`report`] the wording of error
//! reports. [`theorems`] and [`patterns`] state what holds of every field.

pub mod control;
pub mod field;
pub mod grid;
pub mod patterns;
pub mod render;
pub mod report;
pub mod theorems;
pub mod torus;
