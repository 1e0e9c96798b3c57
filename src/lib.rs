//! Translation of text into Shyriiwook: each ASCII letter becomes a fixed
//! phoneme sequence, keeping the letter's case on the first character, and
//! every other character passes through unchanged.

pub mod casing;
pub mod laws;
pub mod phonemes;
mod text;
pub mod translator;

pub use casing::capitalize;
pub use phonemes::find_translation;
pub use translator::translate;
