//! A verified core for a server-sent-events relay.
//!
//! The library owns the protocol-sensitive logic of the relay: buffering
//! upstream bytes into lines, recognizing `data: <payload>` frames and the
//! `[DONE]` sentinel, decoding payloads into upstream events, and driving the
//! session state machine that turns upstream events into outward events.
//! The surrounding HTTP plumbing lives outside the library and only moves
//! plain values in and out.

pub mod frame;
pub mod lines;
pub mod request;
pub mod session;
pub mod templates;
