//! Decision logic of a terminal file downloader: how a size probe selects the
//! transfer mode, how progress is counted and drawn, and how failed attempts
//! are retried, exhausted or cancelled.
//!
//! Nothing here touches the network, the file system or the clock. The
//! program around this library performs those effects and reports what
//! happened as plain values; every function here is verified.

pub mod cancel;
pub mod cli;
pub mod orchestrator;
pub mod probe;
pub mod render;
pub mod run;
pub mod snapshot;
pub mod transfer;
pub mod wave;
