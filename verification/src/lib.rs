//! The concurrency and protocol core of a user-space network stack: a watched
//! value that wakes the tasks waiting on it, and the address-resolution engine
//! built on top of it.
//!
//! Time is virtual throughout: an instant is a count of nanoseconds since the
//! origin of a clock that the caller steps, and a duration is a count of
//! nanoseconds. The engine sends and receives nothing itself; it hands the
//! caller the frames to transmit and takes the frames that arrived.

pub mod collections;
pub mod fail;
pub mod options;
pub mod protocols;
