//! A named user: validated construction from text, from an environment
//! variable's value and from a line of console input.
pub mod text;
pub mod user;
