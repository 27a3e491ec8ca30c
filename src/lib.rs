//! Verified core of a bridge between a battery device on a Modbus serial link
//! and an MQTT message bus.
//!
//! The library holds the decisions: the connectivity flag kept by the
//! heartbeat, the classification of frames read by the listener, the queue of
//! device events, the battery telemetry document and its JSON text, and the
//! MQTT connection state machine. Serial and network I/O stay with the caller.

pub mod link;
pub mod frame;
pub mod requests;
pub mod constants;
pub mod services;
pub mod document;
pub mod battery_info;
pub mod bridge;
