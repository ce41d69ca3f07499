//! Driving a Chromium-family browser over its remote-debugging wire protocol.
//!
//! The crate covers the transport and process layer of such a driver: framing
//! and parsing protocol messages, correlating call/response pairs, routing
//! events to per-session consumers, building the launch command line, scanning
//! the browser's diagnostic output for the debug endpoint, and the bounded
//! polling used to wait for asynchronous outcomes.  The operating-system work
//! itself (spawning, pipes, sockets, threads) lives outside the library and
//! drives these verified state machines.

pub mod discovery;
pub mod errors;
pub mod framing;
pub mod keyboard;
pub mod keys;
pub mod launch_options;
pub mod mouse;
pub mod pipes;
pub mod process;
pub mod protocol;
pub mod strfind;
pub mod tab;
pub mod transport;
pub mod wait;
pub mod wire;
