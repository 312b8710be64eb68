//! Verified core of a DCC (Digital Command Control) track controller.
//!
//! The library holds the logic that turns live locomotive command state into
//! a continuously transmitted pulse stream: clamped command state, the packet
//! producer, the single-slot handoff between producer and consumer, the pulse
//! consumer with its idle fallback, and the shared resource cells.
pub mod command;
pub mod encoder;
pub mod fault;
pub mod handoff;
pub mod input;
pub mod pulse;
pub mod registry;
pub mod producer;
pub mod consumer;
