//! The orders as the order book takes them, and the id of an order as a number.
pub mod order;
pub mod order_id;
