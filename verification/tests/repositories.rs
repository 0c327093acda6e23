use matching_engine::{
    AssetPair, LimitOrder, LimitOrderRepository, MarketOrder, MarketPriceRepository,
    MatchingEngineEvent, MatchingEngineFailure, MatchingEngineOutput, MemoryAskBook,
    MemoryBidBook, MemoryHighPool, MemoryLowPool, MemoryMarketPrice, MemoryStore, OrderSide,
    OrderType, PendingStopOrder, PendingStopOrderRepository, StopLimitOrder, StopOrder,
    TimeInForce, TrailingDelta,
};

type Store = MemoryStore<u64, u8, u64, u64>;

fn pair() -> AssetPair<u8> {
    AssetPair::new(1, 2)
}

fn order(id: u64, side: OrderSide, price: u64, quantity: u64) -> LimitOrder<u64, u8, u64, u64> {
    LimitOrder::new(id, pair(), side, TimeInForce::GoodTillCancelled, price, quantity, 0)
}

fn stop(id: u64, stop_price: u64) -> PendingStopOrder<u64, u8, u64, u64> {
    PendingStopOrder::StopOrder(StopOrder::new(id, pair(), OrderSide::Bid, stop_price, 1, 0))
}

fn ids(list: &Vec<PendingStopOrder<u64, u8, u64, u64>>) -> Vec<u64> {
    list.iter().map(|p| p.id()).collect()
}

#[test]
fn orders_are_made_of_what_they_are_given() {
    let limit = order(1, OrderSide::Bid, 100, 5);
    assert_eq!(limit.id, 1);
    assert_eq!(limit.asset_pair, pair());
    assert_eq!(limit.side, OrderSide::Bid);
    assert_eq!(limit.time_in_force, TimeInForce::GoodTillCancelled);
    assert_eq!((limit.price, limit.quantity, limit.timestamp_ms), (100, 5, 0));
    let less = limit.sub_quantity(2);
    assert_eq!(less, LimitOrder { quantity: 3, ..limit });
    let market: MarketOrder<u64, u8, u64> = MarketOrder::new(2, pair(), OrderSide::Ask, 9, 4);
    assert_eq!(market.sub_quantity(9), MarketOrder { quantity: 0, ..market });
    let stop = StopOrder::new(3u64, pair(), OrderSide::Ask, 95u64, 2u64, 1);
    assert_eq!(
        stop.issue_market_order(6),
        MarketOrder { id: 3, asset_pair: pair(), side: OrderSide::Ask, quantity: 2, timestamp_ms: 6 }
    );
    let stop_limit = StopLimitOrder::new(4u64, pair(), OrderSide::Bid, 105u64, TimeInForce::FillOrKill, 106u64, 2u64, 1);
    assert_eq!(
        stop_limit.issue_limit_order(7),
        LimitOrder {
            id: 4,
            asset_pair: pair(),
            side: OrderSide::Bid,
            time_in_force: TimeInForce::FillOrKill,
            price: 106,
            quantity: 2,
            timestamp_ms: 7,
        }
    );
    assert_eq!(TrailingDelta::new(25).basis_points(), 25);
}

#[test]
fn output_collects_in_order() {
    let mut out: MatchingEngineOutput<u64, u64, u64> = MatchingEngineOutput::new(Some(5));
    assert_eq!(out.market_price, Some(5));
    assert!(out.events.is_empty());
    out.push(Err(MatchingEngineFailure::NoMatch(1)));
    out.push(Ok(MatchingEngineEvent::Accepted { id: 2, order_type: OrderType::Limit, timestamp_ms: 3 }));
    out.set_market_price(9);
    assert_eq!(out.market_price, Some(9));
    assert_eq!(
        out.events,
        vec![
            Err(MatchingEngineFailure::NoMatch(1)),
            Ok(MatchingEngineEvent::Accepted { id: 2, order_type: OrderType::Limit, timestamp_ms: 3 }),
        ]
    );
}

#[test]
fn bid_book_serves_the_highest_price_first() {
    let book = MemoryBidBook::new();
    let mut tx = Store::new();
    assert_eq!(book.next(&mut tx), Ok(None));
    book.create(&mut tx, &order(1, OrderSide::Bid, 100, 1)).unwrap();
    book.create(&mut tx, &order(2, OrderSide::Bid, 102, 1)).unwrap();
    book.create(&mut tx, &order(3, OrderSide::Bid, 102, 1)).unwrap();
    book.create(&mut tx, &order(4, OrderSide::Bid, 101, 1)).unwrap();
    let resting: Vec<u64> = tx.bids().iter().map(|o| o.id).collect();
    assert_eq!(resting, vec![2, 3, 4, 1]);
    assert_eq!(book.next(&mut tx), Ok(Some(order(2, OrderSide::Bid, 102, 1))));
    assert!(tx.asks().is_empty());
}

#[test]
fn ask_book_serves_the_lowest_price_first() {
    let book = MemoryAskBook::new();
    let mut tx = Store::new();
    book.create(&mut tx, &order(1, OrderSide::Ask, 100, 1)).unwrap();
    book.create(&mut tx, &order(2, OrderSide::Ask, 102, 1)).unwrap();
    book.create(&mut tx, &order(3, OrderSide::Ask, 99, 1)).unwrap();
    book.create(&mut tx, &order(4, OrderSide::Ask, 100, 1)).unwrap();
    let resting: Vec<u64> = tx.asks().iter().map(|o| o.id).collect();
    assert_eq!(resting, vec![3, 1, 4, 2]);
    assert_eq!(book.next(&mut tx), Ok(Some(order(3, OrderSide::Ask, 99, 1))));
}

#[test]
fn book_finds_exactly_what_it_holds() {
    let book = MemoryAskBook::new();
    let mut tx = Store::new();
    book.create(&mut tx, &order(1, OrderSide::Ask, 100, 1)).unwrap();
    book.create(&mut tx, &order(2, OrderSide::Ask, 102, 1)).unwrap();
    assert_eq!(book.get_by_order_id(&mut tx, &1), Ok(Some(order(1, OrderSide::Ask, 100, 1))));
    assert_eq!(book.get_by_order_id(&mut tx, &2), Ok(Some(order(2, OrderSide::Ask, 102, 1))));
    assert_eq!(book.get_by_order_id(&mut tx, &3), Ok(None));
    assert_eq!(book.delete_by_order_id(&mut tx, &1), Ok(true));
    assert_eq!(book.get_by_order_id(&mut tx, &1), Ok(None));
    assert_eq!(book.delete_by_order_id(&mut tx, &1), Ok(false));
    assert_eq!(book.get_by_order_id(&mut tx, &2), Ok(Some(order(2, OrderSide::Ask, 102, 1))));
    book.update(&mut tx, &order(2, OrderSide::Ask, 102, 8)).unwrap();
    assert_eq!(book.get_by_order_id(&mut tx, &2), Ok(Some(order(2, OrderSide::Ask, 102, 8))));
}

#[test]
fn update_keeps_the_place_at_the_same_price_only() {
    let book = MemoryBidBook::new();
    let mut tx = Store::new();
    book.create(&mut tx, &order(1, OrderSide::Bid, 100, 1)).unwrap();
    book.create(&mut tx, &order(2, OrderSide::Bid, 100, 1)).unwrap();
    book.create(&mut tx, &order(3, OrderSide::Bid, 99, 1)).unwrap();
    book.update(&mut tx, &order(1, OrderSide::Bid, 100, 4)).unwrap();
    let resting: Vec<(u64, u64)> = tx.bids().iter().map(|o| (o.id, o.quantity)).collect();
    assert_eq!(resting, vec![(1, 4), (2, 1), (3, 1)]);
    book.update(&mut tx, &order(3, OrderSide::Bid, 100, 1)).unwrap();
    let resting: Vec<u64> = tx.bids().iter().map(|o| o.id).collect();
    assert_eq!(resting, vec![1, 2, 3]);
    book.update(&mut tx, &order(1, OrderSide::Bid, 99, 4)).unwrap();
    let resting: Vec<u64> = tx.bids().iter().map(|o| o.id).collect();
    assert_eq!(resting, vec![2, 3, 1]);
}

#[test]
fn high_pool_hands_out_what_the_market_has_reached() {
    let pool = MemoryHighPool::new();
    let mut tx = Store::new();
    pool.create(&mut tx, &stop(1, 105)).unwrap();
    pool.create(&mut tx, &stop(2, 103)).unwrap();
    pool.create(&mut tx, &stop(3, 110)).unwrap();
    pool.create(&mut tx, &stop(4, 103)).unwrap();
    assert_eq!(ids(tx.high_pending_stop_orders()), vec![2, 4, 1, 3]);
    assert_eq!(ids(&pool.get_list_by_market_price(&mut tx, &102, 100).unwrap()), Vec::<u64>::new());
    assert_eq!(ids(&pool.get_list_by_market_price(&mut tx, &103, 100).unwrap()), vec![2, 4]);
    assert_eq!(ids(&pool.get_list_by_market_price(&mut tx, &109, 100).unwrap()), vec![2, 4, 1]);
    assert_eq!(ids(&pool.get_list_by_market_price(&mut tx, &200, 100).unwrap()), vec![2, 4, 1, 3]);
    assert_eq!(ids(&pool.get_list_by_market_price(&mut tx, &200, 3).unwrap()), vec![2, 4, 1]);
    assert_eq!(ids(&pool.get_list_by_market_price(&mut tx, &200, 0).unwrap()), Vec::<u64>::new());
    assert_eq!(ids(&pool.get_list_by_market_price(&mut tx, &200, -1).unwrap()), Vec::<u64>::new());
    assert_eq!(ids(tx.high_pending_stop_orders()), vec![2, 4, 1, 3]);
}

#[test]
fn low_pool_hands_out_what_the_market_has_reached() {
    let pool = MemoryLowPool::new();
    let mut tx = Store::new();
    pool.create(&mut tx, &stop(1, 95)).unwrap();
    pool.create(&mut tx, &stop(2, 97)).unwrap();
    pool.create(&mut tx, &stop(3, 90)).unwrap();
    pool.create(&mut tx, &stop(4, 97)).unwrap();
    assert_eq!(ids(tx.low_pending_stop_orders()), vec![2, 4, 1, 3]);
    assert_eq!(ids(&pool.get_list_by_market_price(&mut tx, &98, 100).unwrap()), Vec::<u64>::new());
    assert_eq!(ids(&pool.get_list_by_market_price(&mut tx, &97, 100).unwrap()), vec![2, 4]);
    assert_eq!(ids(&pool.get_list_by_market_price(&mut tx, &91, 100).unwrap()), vec![2, 4, 1]);
    assert_eq!(ids(&pool.get_list_by_market_price(&mut tx, &1, 2).unwrap()), vec![2, 4]);
}

#[test]
fn pool_updates_gets_and_deletes() {
    let pool = MemoryHighPool::new();
    let mut tx = Store::new();
    pool.create(&mut tx, &stop(1, 105)).unwrap();
    pool.create(&mut tx, &stop(2, 103)).unwrap();
    assert_eq!(pool.get_by_order_id(&mut tx, &1), Ok(Some(stop(1, 105))));
    assert_eq!(pool.get_by_order_id(&mut tx, &7), Ok(None));
    pool.update(&mut tx, &stop(1, 101)).unwrap();
    assert_eq!(ids(tx.high_pending_stop_orders()), vec![1, 2]);
    assert_eq!(pool.delete(&mut tx, &stop(2, 103)), Ok(true));
    assert_eq!(pool.delete(&mut tx, &stop(2, 103)), Ok(false));
    assert_eq!(pool.delete_by_order_id(&mut tx, &1), Ok(true));
    assert_eq!(pool.delete_by_order_id(&mut tx, &1), Ok(false));
    assert!(tx.high_pending_stop_orders().is_empty());
    assert!(tx.low_pending_stop_orders().is_empty());
}

#[test]
fn price_cell_keeps_the_last_price() {
    let cell: MemoryMarketPrice<u64, u8, u64, u64> = MemoryMarketPrice::new();
    let mut tx = Store::new();
    assert_eq!(cell.get(&mut tx), Ok(None));
    cell.update(&mut tx, &100).unwrap();
    assert_eq!(cell.get(&mut tx), Ok(Some(100)));
    cell.update(&mut tx, &99).unwrap();
    assert_eq!(tx.market_price(), Some(99));
}
