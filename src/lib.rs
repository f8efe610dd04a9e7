//! A fixed-size worker pool, described as a verified hand-off protocol.
//!
//! The library holds the decisions of the pool: the unbounded FIFO queue
//! between the dispatcher and its workers, the worker state machine, and the
//! dispatcher's lifecycle (creation, submission, teardown). Running jobs on
//! real threads is left to the caller, which performs the actions that these
//! functions return.
pub mod delivery;
pub mod pool;
pub mod queue;
pub mod worker;
