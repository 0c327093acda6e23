//! What the engine asks of the storage behind it: a book of resting limit orders for
//! each side, a pool of pending stop orders above the market and one below it, and the
//! cell that holds the last traded price.
pub mod limit_order;
pub mod market_price;
pub mod pending_stop_order;
pub mod queue;
