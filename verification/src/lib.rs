//! Control core of a networked audio playback server.
//!
//! The crate holds the decisions of the server as plain state machines: the
//! OSC front-end turns datagrams into control messages and replies, the
//! orchestrator keeps the table of active playback sessions, and the decoder
//! worker feeds ring buffers under back-pressure. Sockets, threads, the audio
//! engine and the decoder stay with the embedding program, which performs the
//! commands the machines hand out.

pub mod config;
pub mod message;
pub mod path;
pub mod wire;
pub mod osc;
pub mod session;
pub mod ctxt;
pub mod worker;
pub mod laws;
