//! Verified core of a parent/child IPC ping-pong benchmark.
//!
//! A parent process spawns a child, bootstraps a bidirectional channel over
//! shared memory (or an OS channel), and then measures round trips of a
//! synchronous ping-pong exchange.  This crate holds everything of that
//! protocol that is plain computation: the length-prefixed framing codec over
//! a shared region, the write-signal discipline, the handshake state machine
//! with its registry of children, the message grammar and validation rules,
//! and the benchmark loop's bookkeeping.  The operating-system edges (process
//! spawning, memory mapping, blocking waits, wire encoding of structured
//! payloads) live outside, in unverified adapters that hand plain values in
//! and out.

pub mod codec;
pub mod errors;
pub mod handshake;
pub mod harness;
pub mod ids;
pub mod messages;
pub mod pingpong;
pub mod rawstring;
pub mod signal;
pub mod stream;
