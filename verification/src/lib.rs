//! A minimal DNS message listener library.
//!
//! The heart of the library is the header codec: a bit-exact, pure
//! decoder from the raw bytes of a received datagram to a structured
//! representation of the fixed 12-octet DNS message header, with
//! enumerated opcode and response-code fields that fall back to an
//! explicit unknown variant. On top of it sits the per-datagram intake
//! decision that a receive loop follows.

pub mod header;
pub mod intake;
