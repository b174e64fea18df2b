//! What the service's operations answer.

pub mod response;
