//! Bluetooth adapters, addresses and channels.

pub mod address;
pub mod manager;
pub mod rfcomm;
