//! A price-time priority matching engine for one asset pair.
//!
//! The engine takes order requests one at a time and answers each with the events it
//! caused. It keeps a bid book, an ask book, two pools of pending stop orders and the
//! last traded price, all of them behind repositories that work inside a transaction
//! of the caller.
pub mod matching_engine;
pub mod memory;
pub mod model;
pub mod models;
pub mod order_book;
pub mod order_queue;
pub mod repository;

pub use crate::model::asset::Asset;
pub use crate::model::asset_pair::AssetPair;
pub use crate::model::clock::{Clock, StandingClock};
pub use crate::model::identity::Identity;
pub use crate::model::order::{LimitOrder, MarketOrder, StopLimitOrder, StopOrder};
pub use crate::model::order_id::OrderId;
pub use crate::model::order_request::{
    AmendOrderRequest, CancelOrderRequest, LimitOrderRequest, MarketOrderRequest, OrderRequest,
    StopLimitOrderRequest, StopOrderRequest,
};
pub use crate::model::order_side::OrderSide;
pub use crate::model::order_type::OrderType;
pub use crate::model::price::Price;
pub use crate::model::quantity::Quantity;
pub use crate::model::time_in_force::TimeInForce;
pub use crate::model::total_order::{below, is_below, is_same, same, TotalOrder};
pub use crate::model::trailing_delta::{BasisPoints, TrailingDelta};
pub use crate::matching_engine::output::{
    MatchingEngineEvent, MatchingEngineFailure, MatchingEngineOutput,
};
pub use crate::repository::limit_order::LimitOrderRepository;
pub use crate::repository::market_price::MarketPriceRepository;
pub use crate::repository::pending_stop_order::{PendingStopOrder, PendingStopOrderRepository};
pub use crate::matching_engine::venue::Venue;
pub use crate::matching_engine::{MatchingEngine, OrderProcessingResult};
pub use crate::memory::engine::MemoryEngine;
pub use crate::memory::repository::{
    MemoryAskBook, MemoryBidBook, MemoryHighPool, MemoryLowPool, MemoryMarketPrice, NoError,
};
pub use crate::memory::store::MemoryStore;
pub use crate::memory::order_queue::MemoryOrderQueue;
pub use crate::models::order::Order;
pub use crate::order_book::failure::OrderBookFailure;
pub use crate::order_book::output::OrderBookOutput;
pub use crate::order_book::OrderBook;
pub use crate::order_queue::OrderQueue;
