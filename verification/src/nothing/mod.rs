//! Nothing and CMF headsets.

pub mod device;
pub mod protocol;
pub mod recognition;
