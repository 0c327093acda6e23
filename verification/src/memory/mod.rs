//! A backend that keeps everything in memory: the books and the pools as vectors in
//! their order, and the last traded price beside them.
pub mod engine;
pub mod order_queue;
pub mod queue;
pub mod repository;
pub mod store;
