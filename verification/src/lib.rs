//! Representation of the HTTP request-target: the four forms a request's
//! start line may use to identify its destination, and the decoding of an
//! absolute-path target's query string into key/value pairs.

pub mod form;
pub mod uri;
