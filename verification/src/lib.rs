//! Descriptor-ownership transfer over a local socket pair: the byte-level
//! encoding, validation and decoding of the single ancillary "rights" record
//! that carries an open file descriptor from one endpoint to its peer.
//!
//! The operating-system calls that move the message (creating the pair,
//! sending, receiving) live outside this library; what is verified here is
//! the exact binary layout of the ancillary record and the ordered sequence
//! of checks a receiver performs before trusting the embedded descriptor.

pub mod bytes;
pub mod codec;
pub mod error;
pub mod layout;
