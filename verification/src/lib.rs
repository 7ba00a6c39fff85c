//! The decision core of a desktop service for wireless headsets.
//!
//! The library holds what the service knows about its headsets and what it
//! decides: the wire format of the Nothing/CMF control channel, the state of a
//! connected device, the battery history, and the connection manager. It does
//! no input or output of its own. Time, socket traffic and database rows come
//! in as plain values, and the work to be done goes out as plain values.

pub mod airpods;
pub mod battery_study;
pub mod bluetooth;
pub mod dispatch;
pub mod error;
pub mod event;
pub mod nothing;
pub mod ringbuf;
pub mod text;
