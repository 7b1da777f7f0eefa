//! Message-bridging core of an OSC-to-radio bridge.
//!
//! Control messages arrive as OSC datagrams, are dispatched into compact
//! binary command frames, carried through bounded framed queues to a radio
//! bridge with bounded retry on delivery failure, and telemetry frames coming
//! back from the radio are translated into OSC replies.

pub mod bridge;
pub mod osc;
pub mod queue;
pub mod receiver;
pub mod sender;
pub mod wire;
