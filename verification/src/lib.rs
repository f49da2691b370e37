//! Request planning and reply handling for a small JSON REST client.

pub mod client;
pub mod error;
pub mod header;
pub mod json;
pub mod method;
pub mod reply;
pub mod request;

pub use client::RestClient;
pub use error::{Error, RestResult};
pub use method::Method;
pub use reply::{Outcome, Reply};
pub use request::Request;
