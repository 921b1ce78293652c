//! Bridges momentary push-button switches to bistable lights over a
//! publish/subscribe message bus.  Each button press increments a counter
//! that is republished on a counter topic; every genuinely new counter
//! value must become one toggle command for the paired light.
//!
//! This crate holds the decision logic of that bridge: the per-switch
//! toggle state machine, the dispatch of decoded inbound publications to
//! the switch registry, the subscription-handshake step, and the
//! validation of raw configuration values.  The transport client, signal
//! handling and file reading live outside it and hand plain values in.

pub mod config;
pub mod dispatch;
pub mod session;
pub mod switch;
