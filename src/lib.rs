//! An error wrapper that adds a description to one particular error value.
//!
//! A [`Described`] pairs a human-readable description with the error it
//! describes. The wrapped error is kept unchanged and with its own type, so a
//! caller that knows that type reads it back through [`Described::original`]
//! without any runtime type check.

pub mod described;

pub use described::{built, describe, describing, separator, Described, DescribedView};
