//! Compact, allocation-free identifiers: short ASCII names (lowercase
//! letters, digits and underscores, 1 to 24 characters, no leading
//! underscore) packed into a single positive integer.

pub mod alphabet;
pub mod codec;
pub mod name;
pub mod op_codes;
pub mod operations;
pub mod radix;

pub use crate::name::{DecodedName, Error, Name};
