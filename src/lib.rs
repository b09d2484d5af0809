//! Decision logic of a watcher that re-encodes legacy video files into HEVC.
//!
//! The library decides; the program around it performs file-system and
//! process work and hands the results back as plain values.

pub mod paths;
pub mod probe;
pub mod filters;
pub mod transcoder;
pub mod work_queue;
pub mod watcher;
pub mod scanner;
