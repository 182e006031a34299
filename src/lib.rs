//! Client-side HTTP request pipeline: request lifecycle with body framing,
//! header collection, HTTP/2 response reconstruction, and a closed
//! message abstraction with checked downcasts.

pub mod bytes;
pub mod numeral;
pub mod method;
pub mod header;
pub mod error;
pub mod target;
pub mod request;
pub mod http2;
pub mod message;
