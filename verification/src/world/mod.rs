//! The world a character moves in.

pub mod two_dimensional;
