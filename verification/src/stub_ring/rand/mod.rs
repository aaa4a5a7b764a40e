//! Sources of randomness.

#[allow(non_snake_case)]
pub mod SystemRandom;
