//! An adaptive-rate draining queue: a FIFO whose drain interval adapts each
//! cycle to the trend of its own backlog, together with the state machine
//! of the driver that drains it, the ingest-side job extraction, and a
//! small click counter.

pub mod counter;
pub mod driver;
pub mod history;
pub mod ingest;
pub mod queue;
