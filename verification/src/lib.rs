//! A client for the WebPurify moderation service that sends nothing itself.
//!
//! [`client`] and [`smart_screen`] build the requests of the three remote
//! methods and read the replies; the transport between the two is the
//! caller's. Every function here carries a contract that Verus proves.

pub mod client;
pub mod error;
pub mod form;
pub mod json;
pub mod request;
pub mod response;
pub mod smart_screen;
pub mod text;

pub use error::DeserializeError;
pub use error::RequestError;
pub use error::ResponseError;
