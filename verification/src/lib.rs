//! Generates fallible conversions from a tagged-union declaration to the
//! inner type of each of its variants.
//!
//! The input is the source text of an `enum` whose variants each wrap exactly
//! one unnamed payload. The generator validates that shape, extracts one
//! (tag, inner type) pair per variant, synthesizes one `TryFrom` conversion
//! per pair, and re-emits the declaration followed by the conversions. The
//! whole transformation is a pure function of the input text; malformed input
//! is reported through a structured error instead of a panic.

pub mod decl;
pub mod parse;
pub mod emit;
pub mod generate;
pub mod unwrap;
