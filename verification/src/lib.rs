//! The profile endpoints of a Matrix client-server API: the decisions that
//! each endpoint takes once its request has been read, with their contracts.
//!
//! Reading requests, talking to the database and writing responses is left
//! to the server that embeds these endpoints.

pub mod error;
pub mod profile;
pub mod laws;
