//! The wire encoding of envelopes, commands and responses: compact JSON in
//! which a union is written as its variant's name, alone for a variant without
//! fields and as the single key of an object otherwise.
//!
//! There is one way to write a value, and the readers take that way alone:
//! no white space between the parts, the fields in the order of their type,
//! a number without leading zeros, and in a string the short escape where
//! there is one, `\u00XX` in lower case for the other control characters and
//! every other character as it is. A payload that says the same in another
//! way (a space after a colon, the keys of an object in another order, a
//! letter written as a `\u` escape) is the JSON of no value here and is
//! classified as of unknown format.

pub mod classify;
pub mod decode;
pub mod encode;
pub mod laws;
pub mod read;
pub mod record;
pub mod shape;
pub mod text;
