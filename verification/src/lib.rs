//! Streaming decoder for BMP (BGP Monitoring Protocol, RFC 7854) messages.
//!
//! A router's monitoring session is a byte stream; [`BmpDecoder`] turns it,
//! piece by piece, into messages. The caller adds the bytes that have come in
//! to a buffer and calls [`BmpDecoder::decode`] until it asks for more, or
//! [`stream::decode_all`] once. A Route Monitoring message is handed out as a
//! [`decoder::PendingUpdate`]: the caller has the BGP parser read the UPDATE
//! message in it and hands the answer to [`decoder::PendingUpdate::complete`].
//!
//! What every function returns is stated over the bytes that it was given,
//! and proved; [`stream`] holds what follows for a whole stream.

pub mod addr;
pub mod bgp;
pub mod capabilities;
pub mod decoder;
pub mod error;
pub mod store;
pub mod stream;
pub mod text;
pub mod types;
pub mod wire;

pub use decoder::BmpDecoder;
pub use error::Error;
