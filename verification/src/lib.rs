//! A user-space implementation of one side of a TCP connection.
//!
//! The crate terminates passive-open connections started by a peer: it answers
//! the peer's SYN, drives the three-way handshake to completion, and then
//! performs a server-initiated graceful close.  The connection state machine,
//! the RFC 793 segment-acceptance test with 32-bit wraparound, and the
//! construction of every outbound segment are verified; the byte layout and
//! checksum of a segment are delegated to the `etherparse` codec, and all
//! network I/O is left to the caller.

pub mod seqnum;
pub mod tcp;
