//! A verified codec for IPv4 and ICMP datagrams.
//!
//! The library decodes raw bytes into structured IPv4 headers and ICMP
//! messages, re-encodes them bit-exactly, computes and checks RFC 1071
//! Internet checksums, and builds the Echo Reply answering an inbound Echo
//! Request. Every decode states exactly which buffers it accepts and proves
//! that re-encoding its result reproduces the consumed bytes; the checksum
//! engine proves the self-verification law that receivers rely on.
//!
//! Reading from and writing to a network interface is left to the caller,
//! which hands the codec plain byte buffers.

pub mod echo;
pub mod icmp;
pub mod ipv4;
pub mod util;

pub use util::checksum_16;
pub use util::Serialize;
