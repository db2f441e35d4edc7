//! Fallible conversion of native path values to text.
//!
//! A path, or a fragment of one, is a run of bytes that need not be UTF-8.
//! `try_to_str` gives such a value as text where its bytes are well-formed
//! UTF-8, borrowed from the value itself, and an [`InvalidUtf8Error`] with
//! the value's lossy rendering where they are not. Nothing is repaired and
//! nothing is normalised: a value converts whole or not at all.
//!
//! - [`convert`]: the two traits, their contracts and their impls
//! - [`error`]: the error and its message
//! - [`laws`]: what holds of every conversion
//! - [`native`]: what is taken from the standard library on trust

pub mod convert;
pub mod error;
pub mod laws;
pub mod native;

pub use convert::{OptionPathStrExt, PathStrExt};
pub use error::InvalidUtf8Error;
