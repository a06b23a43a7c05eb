//! G-code text.

pub mod parser;
