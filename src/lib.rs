//! Control client for a server's REST-like control API: decides the shape of
//! one API request, and resolves path queries against the API's schema.

pub mod request;
pub mod schema;
pub mod text;
