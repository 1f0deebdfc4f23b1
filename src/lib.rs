//! Control-flow helpers: extract a success value from anything that can stand for
//! "value or failure", or leave by a caller-chosen way; and map a value that fits a
//! shape to an optional result.

pub mod bind;
pub mod if_matches;
pub mod into_result;

pub use into_result::IntoResult;
