//! A buffered line logger.
//!
//! Lines are collected in small per-participant buffers, handed over in
//! batches to a shared queue inside an epoch window, and written out when the
//! shared push counter reaches a multiple of the threshold or when a flush is
//! asked for. Written lines are appended to a caller-supplied sink.

pub mod epoch;
pub mod model;
pub mod system;
pub mod queue;
pub mod internal;
pub mod logger;
pub mod facade;

pub use crate::internal::{Global, Local};
pub use crate::logger::{Handle, Logger};
pub use crate::facade::{flush, log};
pub use crate::model::{Sink, MAX_GLOBAL_LINES, MAX_LOCAL_LINES};
pub use crate::queue::Queue;
