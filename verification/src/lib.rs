//! A minimal SSH 2.0 client core: wire codec, message set, binary packet
//! framing, key exchange, user authentication and one session channel.
//!
//! The library performs no I/O.  Every function maps bytes and state to bytes
//! and state; a caller owns the socket and moves the bytes.

pub mod channelrequest;
pub mod cipher;
pub mod connection;
pub mod crypto;
pub mod error;
pub mod hmac;
pub mod kex;
pub mod keygen;
pub mod messages;
pub mod mpint;
pub mod namelist;
pub mod packets;
pub mod parsedump;
pub mod run;
pub mod userauth;

pub use error::{Error, IoKind};
pub use messages::MessageType;
