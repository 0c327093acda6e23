//! The values that orders are made of, the orders themselves, and the requests that
//! bring them to the engine.
pub mod asset;
pub mod asset_pair;
pub mod clock;
pub mod identity;
pub mod order;
pub mod order_id;
pub mod order_request;
pub mod order_side;
pub mod order_type;
pub mod price;
pub mod quantity;
pub mod time_in_force;
pub mod total_order;
pub mod trailing_delta;
