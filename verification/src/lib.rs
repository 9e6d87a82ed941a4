//! A small network-reachability logger: a prober's Up/Down results run
//! through a status tracker, transition messages accumulate in a shared
//! byte buffer, and the buffer is flushed to an append-only log file
//! either when a byte threshold is crossed or on user request.

pub mod buffer;
pub mod paths;
pub mod status;
pub mod tracker;
pub mod ui;
pub mod worker;
