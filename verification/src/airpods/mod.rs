//! Headsets in general, and AirPods in particular.

pub mod device;
pub mod handshake;
pub mod protocol;
