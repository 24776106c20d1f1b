//! Text primitives over sequences of characters: searching, splitting,
//! trimming, and decimal numbers.

pub mod chars;
pub mod number;
pub mod search;
pub mod split;
