//! The request and response model of the content-generation service, and
//! what is asked of it.

pub mod content;
pub mod model;
pub mod request;
pub mod schema;
