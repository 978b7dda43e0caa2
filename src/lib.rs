//! Agent control protocol: a line-delimited JSON request/response channel
//! through which a controller drives the display mode of an application.

pub mod color;
pub mod json;
pub mod protocol;
pub mod server;
pub mod client;
pub mod session;
pub mod intent;
