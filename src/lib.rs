//! One error type for terminal operations: failures of OS calls, of buffered
//! I/O and of text decoding are all normalised into [`error::Error`].
pub mod error;

pub use error::{Cause, Error};
