//! Unsigned integers of any size: their byte encoding, the arithmetic the
//! protocol needs, and the facts about powers and remainders behind it.

pub mod encoding;
pub mod modular;
pub mod number;
