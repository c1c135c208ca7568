//! Semantic-convention group records and the rules that decide whether a
//! record is acceptable.

pub mod attribute;
pub mod error;
pub mod group;
pub mod rules;
pub mod stability;
pub mod theorems;

pub use crate::error::Error;
