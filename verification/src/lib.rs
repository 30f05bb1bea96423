//! Core of a serial-console relay: one serial device fanned out to many
//! network clients, a funnel merging client writes back to the device, and a
//! line-framing codec that turns the raw byte stream into bounded text
//! records for an event-stream surface.

pub mod bus;
pub mod config;
pub mod event;
pub mod funnel;
pub mod link;
pub mod options;
pub mod session;
