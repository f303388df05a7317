//! A single-tape Turing machine interpreter with a tape that grows on demand
//! in both directions.

pub mod rules;
pub mod machine;
pub mod laws;
