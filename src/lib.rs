//! Typed client core for an experiment-tracking service: the data model, the
//! buffered run writer's state machine, batch chunking and parameter flattening.
use vstd::prelude::*;

pub mod batch;
pub mod client;
pub mod data;
pub mod error;
pub mod paging;
pub mod time;
pub mod utils;
pub mod writer;

pub use error::ClientError;

verus! {

/// Result of the library's fallible operations.
pub type Result<T, E = ClientError> = core::result::Result<T, E>;

} // verus!
