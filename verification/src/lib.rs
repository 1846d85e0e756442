//! A verified reader for the line-framed "smart" transfer protocol.
//!
//! The stream arrives as framed packet lines: payload lines and three
//! zero-length terminal markers (flush, delimiter, response-end).  The
//! low-level framing codec is `gix_packetline`'s decoder, used here as a
//! black box through a trusted wrapper with an exact contract.  On top of
//! it this crate builds, fully verified:
//!
//! * a pull source turning a byte buffer into typed lines ([`decode`]),
//! * a side-band demultiplexer that routes progress and error text away
//!   from payload data, with one-line look-ahead, termination tracking
//!   and protocol-version-aware reset ([`reader`]),
//! * the reader contract usable behind an indirection boundary
//!   ([`bufread`]),
//! * the laws of the reader — stop stability, version-dependent
//!   termination, idempotent look-ahead, ordered progress routing —
//!   proved once over the abstract transitions ([`laws`]).

pub mod line;
pub mod decode;
pub mod reader;
pub mod bufread;
pub mod laws;
