//! Verified core of a learning controller for domestic water heaters.
//!
//! The library holds the decisions of the controller: which heating intent a
//! tick produces, how a stream of temperature samples becomes hot-water use
//! events, which hour of the week an instant falls into, when the usage
//! histogram decays, and which commands reach the hardware. Instants are
//! nanoseconds since the Unix epoch (UTC), held as `i128`.

pub mod system;
pub mod time;
pub mod shared_state;
pub mod pattern;
pub mod decision;
pub mod detector;
pub mod control;
pub mod capability;
pub mod config;
pub mod api;
pub mod mqtt;
pub mod geyserwala;
pub mod cli;
