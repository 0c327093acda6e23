use matching_engine::{
    AssetPair, Identity, LimitOrder, MatchingEngine, MatchingEngineEvent, MatchingEngineFailure,
    MatchingEngineOutput, MemoryEngine, MemoryStore, OrderRequest, OrderSide, OrderType,
    PendingStopOrder, TimeInForce,
};

#[derive(Debug, Clone, Copy, PartialEq, Eq)]
enum Coin {
    Btc,
    Usd,
}

impl Identity for Coin {
    fn same_as(&self, other: &Self) -> bool {
        self == other
    }
}

type Engine = MemoryEngine<u64, Coin, u64, u64>;
type Store = MemoryStore<u64, Coin, u64, u64>;
type Output = MatchingEngineOutput<u64, u64, u64>;
type Event = MatchingEngineEvent<u64, u64, u64>;
type Failure = MatchingEngineFailure<u64>;

const GTC: TimeInForce = TimeInForce::GoodTillCancelled;

fn pair() -> AssetPair<Coin> {
    AssetPair::new(Coin::Btc, Coin::Usd)
}

fn limit(id: u64, side: OrderSide, price: u64, quantity: u64) -> OrderRequest<u64, Coin, u64, u64> {
    OrderRequest::new_limit(id, pair(), side, GTC, price, quantity)
}

fn run(
    engine: &mut Engine,
    tx: &mut Store,
    market_price: Option<u64>,
    request: OrderRequest<u64, Coin, u64, u64>,
) -> Output {
    engine.process_order_request(tx, market_price, request).unwrap()
}

fn resting(book: &Vec<LimitOrder<u64, Coin, u64, u64>>) -> Vec<(u64, u64, u64)> {
    book.iter().map(|o| (o.id, o.price, o.quantity)).collect()
}

fn filled(id: u64, side: OrderSide, order_type: OrderType, price: u64, quantity: u64, at: u64) -> Result<Event, Failure> {
    Ok(Event::Filled { id, side, order_type, price, quantity, timestamp_ms: at })
}

fn partially(id: u64, side: OrderSide, order_type: OrderType, price: u64, quantity: u64, at: u64) -> Result<Event, Failure> {
    Ok(Event::PartiallyFilled { id, side, order_type, price, quantity, timestamp_ms: at })
}

fn accepted(id: u64, order_type: OrderType, at: u64) -> Result<Event, Failure> {
    Ok(Event::Accepted { id, order_type, timestamp_ms: at })
}

#[test]
fn cross_with_better_price() {
    let mut engine = Engine::new(pair());
    let mut tx = Store::new();
    run(&mut engine, &mut tx, None, limit(1, OrderSide::Ask, 100, 5));
    engine.set_time(7);
    let out = run(&mut engine, &mut tx, None, limit(2, OrderSide::Bid, 110, 5));
    assert_eq!(
        out.events,
        vec![
            accepted(2, OrderType::Limit, 7),
            filled(2, OrderSide::Bid, OrderType::Limit, 100, 5, 7),
            filled(1, OrderSide::Ask, OrderType::Limit, 100, 5, 7),
        ]
    );
    assert_eq!(out.market_price, Some(100));
    assert_eq!(tx.market_price(), Some(100));
    assert!(tx.bids().is_empty());
    assert!(tx.asks().is_empty());
}

#[test]
fn partial_fill_leaves_maker_resting() {
    let mut engine = Engine::new(pair());
    let mut tx = Store::new();
    run(&mut engine, &mut tx, None, limit(1, OrderSide::Ask, 100, 10));
    let out = run(&mut engine, &mut tx, None, limit(2, OrderSide::Bid, 100, 4));
    assert_eq!(
        out.events,
        vec![
            accepted(2, OrderType::Limit, 0),
            filled(2, OrderSide::Bid, OrderType::Limit, 100, 4, 0),
            partially(1, OrderSide::Ask, OrderType::Limit, 100, 4, 0),
        ]
    );
    assert_eq!(resting(tx.asks()), vec![(1, 100, 6)]);
    assert!(tx.bids().is_empty());
    assert_eq!(out.market_price, Some(100));
}

#[test]
fn no_overlap_rests() {
    let mut engine = Engine::new(pair());
    let mut tx = Store::new();
    run(&mut engine, &mut tx, None, limit(1, OrderSide::Ask, 110, 5));
    let out = run(&mut engine, &mut tx, None, limit(2, OrderSide::Bid, 100, 5));
    assert_eq!(out.events, vec![accepted(2, OrderType::Limit, 0)]);
    assert_eq!(resting(tx.bids()), vec![(2, 100, 5)]);
    assert_eq!(resting(tx.asks()), vec![(1, 110, 5)]);
    assert_eq!(out.market_price, None);
    assert_eq!(tx.market_price(), None);
}

#[test]
fn stop_placement_and_trigger() {
    let mut engine = Engine::new(pair());
    let mut tx = Store::new();
    let out = run(
        &mut engine,
        &mut tx,
        Some(100),
        OrderRequest::new_stop(10, pair(), OrderSide::Bid, 105, 1),
    );
    assert_eq!(out.events, vec![accepted(10, OrderType::Stop, 0)]);
    assert_eq!(tx.high_pending_stop_orders().len(), 1);
    assert!(tx.low_pending_stop_orders().is_empty());
    assert!(matches!(
        tx.high_pending_stop_orders()[0],
        PendingStopOrder::StopOrder(order) if order.id == 10 && order.stop_price == 105
    ));

    run(&mut engine, &mut tx, Some(100), limit(1, OrderSide::Ask, 105, 1));
    engine.set_time(3);
    let out = run(&mut engine, &mut tx, Some(100), limit(2, OrderSide::Bid, 105, 1));
    assert_eq!(
        out.events,
        vec![
            accepted(2, OrderType::Limit, 3),
            filled(2, OrderSide::Bid, OrderType::Limit, 105, 1, 3),
            filled(1, OrderSide::Ask, OrderType::Limit, 105, 1, 3),
            Ok(Event::StopOrderIssueMarketOrder { id: 10, timestamp_ms: 3 }),
            Err(Failure::NoMatch(10)),
        ]
    );
    assert_eq!(out.market_price, Some(105));
    assert_eq!(tx.market_price(), Some(105));
    assert!(tx.high_pending_stop_orders().is_empty());
}

#[test]
fn triggered_stop_trades_with_what_is_left() {
    let mut engine = Engine::new(pair());
    let mut tx = Store::new();
    run(&mut engine, &mut tx, Some(100), OrderRequest::new_stop(10, pair(), OrderSide::Bid, 105, 2));
    run(&mut engine, &mut tx, Some(100), limit(1, OrderSide::Ask, 105, 1));
    run(&mut engine, &mut tx, Some(100), limit(3, OrderSide::Ask, 107, 5));
    let out = run(&mut engine, &mut tx, Some(100), limit(2, OrderSide::Bid, 105, 1));
    assert_eq!(
        out.events,
        vec![
            accepted(2, OrderType::Limit, 0),
            filled(2, OrderSide::Bid, OrderType::Limit, 105, 1, 0),
            filled(1, OrderSide::Ask, OrderType::Limit, 105, 1, 0),
            Ok(Event::StopOrderIssueMarketOrder { id: 10, timestamp_ms: 0 }),
            filled(10, OrderSide::Bid, OrderType::Market, 107, 2, 0),
            partially(3, OrderSide::Ask, OrderType::Limit, 107, 2, 0),
        ]
    );
    assert_eq!(out.market_price, Some(107));
    assert_eq!(resting(tx.asks()), vec![(3, 107, 3)]);
    assert!(tx.high_pending_stop_orders().is_empty());
}

#[test]
fn amend_missing_order() {
    let mut engine = Engine::new(pair());
    let mut tx = Store::new();
    let out = run(
        &mut engine,
        &mut tx,
        None,
        OrderRequest::new_amend(7, pair(), 8, OrderType::Limit, OrderSide::Bid, 100, 1),
    );
    assert_eq!(
        out.events,
        vec![Err(Failure::OrderNotFound { order_id: 7, target_order_id: 8 })]
    );
    assert!(tx.bids().is_empty());
}

#[test]
fn cancel_succeeds() {
    let mut engine = Engine::new(pair());
    let mut tx = Store::new();
    run(&mut engine, &mut tx, None, limit(1, OrderSide::Bid, 100, 5));
    engine.set_time(9);
    let out = run(
        &mut engine,
        &mut tx,
        None,
        OrderRequest::new_cancel(2, pair(), 1, OrderType::Limit, OrderSide::Bid),
    );
    assert_eq!(
        out.events,
        vec![Ok(Event::Cancelled { id: 2, target_id: 1, timestamp_ms: 9 })]
    );
    assert!(tx.bids().is_empty());
}

#[test]
fn cancel_missing_order() {
    let mut engine = Engine::new(pair());
    let mut tx = Store::new();
    run(&mut engine, &mut tx, None, limit(1, OrderSide::Bid, 100, 5));
    let out = run(
        &mut engine,
        &mut tx,
        None,
        OrderRequest::new_cancel(2, pair(), 1, OrderType::Limit, OrderSide::Ask),
    );
    assert_eq!(
        out.events,
        vec![Err(Failure::OrderNotFound { order_id: 2, target_order_id: 1 })]
    );
    assert_eq!(resting(tx.bids()), vec![(1, 100, 5)]);
}

#[test]
fn rest_then_cancel_is_a_round_trip() {
    let mut engine = Engine::new(pair());
    let mut tx = Store::new();
    run(&mut engine, &mut tx, None, limit(1, OrderSide::Bid, 100, 5));
    run(&mut engine, &mut tx, None, limit(2, OrderSide::Bid, 99, 5));
    run(&mut engine, &mut tx, None, limit(3, OrderSide::Ask, 105, 5));
    let before = tx.clone();
    run(&mut engine, &mut tx, None, limit(4, OrderSide::Bid, 100, 3));
    assert_eq!(resting(tx.bids()), vec![(1, 100, 5), (4, 100, 3), (2, 99, 5)]);
    run(
        &mut engine,
        &mut tx,
        None,
        OrderRequest::new_cancel(5, pair(), 4, OrderType::Limit, OrderSide::Bid),
    );
    assert_eq!(tx.bids(), before.bids());
    assert_eq!(tx.asks(), before.asks());
    assert_eq!(tx.market_price(), before.market_price());
}

#[test]
fn first_come_first_served_at_one_price() {
    let mut engine = Engine::new(pair());
    let mut tx = Store::new();
    run(&mut engine, &mut tx, None, limit(1, OrderSide::Ask, 100, 2));
    run(&mut engine, &mut tx, None, limit(2, OrderSide::Ask, 100, 2));
    let out = run(&mut engine, &mut tx, None, limit(3, OrderSide::Bid, 100, 3));
    assert_eq!(
        out.events,
        vec![
            accepted(3, OrderType::Limit, 0),
            partially(3, OrderSide::Bid, OrderType::Limit, 100, 2, 0),
            filled(1, OrderSide::Ask, OrderType::Limit, 100, 2, 0),
            filled(3, OrderSide::Bid, OrderType::Limit, 100, 1, 0),
            partially(2, OrderSide::Ask, OrderType::Limit, 100, 1, 0),
        ]
    );
    assert_eq!(resting(tx.asks()), vec![(2, 100, 1)]);
}

#[test]
fn best_price_first() {
    let mut engine = Engine::new(pair());
    let mut tx = Store::new();
    run(&mut engine, &mut tx, None, limit(1, OrderSide::Bid, 98, 1));
    run(&mut engine, &mut tx, None, limit(2, OrderSide::Bid, 100, 1));
    run(&mut engine, &mut tx, None, limit(3, OrderSide::Bid, 99, 1));
    assert_eq!(resting(tx.bids()), vec![(2, 100, 1), (3, 99, 1), (1, 98, 1)]);
    let out = run(
        &mut engine,
        &mut tx,
        None,
        OrderRequest::new_market(4, pair(), OrderSide::Ask, 3),
    );
    assert_eq!(
        out.events,
        vec![
            accepted(4, OrderType::Market, 0),
            partially(4, OrderSide::Ask, OrderType::Market, 100, 1, 0),
            filled(2, OrderSide::Bid, OrderType::Limit, 100, 1, 0),
            partially(4, OrderSide::Ask, OrderType::Market, 99, 1, 0),
            filled(3, OrderSide::Bid, OrderType::Limit, 99, 1, 0),
            filled(4, OrderSide::Ask, OrderType::Market, 98, 1, 0),
            filled(1, OrderSide::Bid, OrderType::Limit, 98, 1, 0),
        ]
    );
    assert_eq!(out.market_price, Some(98));
    assert!(tx.bids().is_empty());

    run(&mut engine, &mut tx, None, limit(5, OrderSide::Ask, 103, 1));
    run(&mut engine, &mut tx, None, limit(6, OrderSide::Ask, 101, 1));
    run(&mut engine, &mut tx, None, limit(7, OrderSide::Ask, 102, 1));
    assert_eq!(resting(tx.asks()), vec![(6, 101, 1), (7, 102, 1), (5, 103, 1)]);
}

#[test]
fn market_order_on_an_empty_book_finds_no_match() {
    let mut engine = Engine::new(pair());
    let mut tx = Store::new();
    let out = run(
        &mut engine,
        &mut tx,
        None,
        OrderRequest::new_market(1, pair(), OrderSide::Bid, 3),
    );
    assert_eq!(
        out.events,
        vec![accepted(1, OrderType::Market, 0), Err(Failure::NoMatch(1))]
    );
    assert_eq!(out.market_price, None);
}

#[test]
fn market_order_larger_than_the_book_reports_what_is_left() {
    let mut engine = Engine::new(pair());
    let mut tx = Store::new();
    run(&mut engine, &mut tx, None, limit(1, OrderSide::Ask, 100, 2));
    let out = run(
        &mut engine,
        &mut tx,
        None,
        OrderRequest::new_market(2, pair(), OrderSide::Bid, 5),
    );
    assert_eq!(
        out.events,
        vec![
            accepted(2, OrderType::Market, 0),
            partially(2, OrderSide::Bid, OrderType::Market, 100, 2, 0),
            filled(1, OrderSide::Ask, OrderType::Limit, 100, 2, 0),
            Err(Failure::NoMatch(2)),
        ]
    );
    assert_eq!(out.market_price, Some(100));
}

#[test]
fn limit_order_rests_with_what_is_left() {
    let mut engine = Engine::new(pair());
    let mut tx = Store::new();
    run(&mut engine, &mut tx, None, limit(1, OrderSide::Bid, 100, 2));
    run(&mut engine, &mut tx, None, limit(2, OrderSide::Bid, 99, 2));
    let out = run(&mut engine, &mut tx, None, limit(3, OrderSide::Ask, 100, 5));
    assert_eq!(
        out.events,
        vec![
            accepted(3, OrderType::Limit, 0),
            partially(3, OrderSide::Ask, OrderType::Limit, 100, 2, 0),
            filled(1, OrderSide::Bid, OrderType::Limit, 100, 2, 0),
        ]
    );
    assert_eq!(resting(tx.asks()), vec![(3, 100, 3)]);
    assert_eq!(resting(tx.bids()), vec![(2, 99, 2)]);
}

#[test]
fn amend_at_the_same_price_keeps_the_place() {
    let mut engine = Engine::new(pair());
    let mut tx = Store::new();
    run(&mut engine, &mut tx, None, limit(1, OrderSide::Bid, 100, 5));
    run(&mut engine, &mut tx, None, limit(2, OrderSide::Bid, 100, 5));
    engine.set_time(4);
    let out = run(
        &mut engine,
        &mut tx,
        None,
        OrderRequest::new_amend(3, pair(), 1, OrderType::Limit, OrderSide::Bid, 100, 9),
    );
    assert_eq!(
        out.events,
        vec![Ok(Event::Amended { id: 3, target_id: 1, price: 100, quantity: 9, timestamp_ms: 4 })]
    );
    assert_eq!(resting(tx.bids()), vec![(1, 100, 9), (2, 100, 5)]);
    assert_eq!(tx.bids()[0].timestamp_ms, 4);
}

#[test]
fn amend_to_another_price_goes_to_the_end_of_that_price() {
    let mut engine = Engine::new(pair());
    let mut tx = Store::new();
    run(&mut engine, &mut tx, None, limit(1, OrderSide::Bid, 100, 5));
    run(&mut engine, &mut tx, None, limit(2, OrderSide::Bid, 101, 5));
    run(&mut engine, &mut tx, None, limit(3, OrderSide::Bid, 99, 5));
    run(
        &mut engine,
        &mut tx,
        None,
        OrderRequest::new_amend(4, pair(), 3, OrderType::Limit, OrderSide::Bid, 101, 5),
    );
    assert_eq!(resting(tx.bids()), vec![(2, 101, 5), (3, 101, 5), (1, 100, 5)]);
}

#[test]
fn amend_does_not_match_again() {
    let mut engine = Engine::new(pair());
    let mut tx = Store::new();
    run(&mut engine, &mut tx, None, limit(1, OrderSide::Bid, 100, 5));
    run(&mut engine, &mut tx, None, limit(2, OrderSide::Ask, 105, 5));
    let out = run(
        &mut engine,
        &mut tx,
        None,
        OrderRequest::new_amend(3, pair(), 1, OrderType::Limit, OrderSide::Bid, 106, 5),
    );
    assert_eq!(out.events.len(), 1);
    assert_eq!(out.market_price, None);
    assert_eq!(resting(tx.bids()), vec![(1, 106, 5)]);
    assert_eq!(resting(tx.asks()), vec![(2, 105, 5)]);
}

#[test]
fn amend_and_cancel_of_a_stop_order_do_nothing() {
    let mut engine = Engine::new(pair());
    let mut tx = Store::new();
    run(&mut engine, &mut tx, Some(100), OrderRequest::new_stop(1, pair(), OrderSide::Bid, 105, 1));
    let out = run(
        &mut engine,
        &mut tx,
        Some(100),
        OrderRequest::new_amend(2, pair(), 1, OrderType::Stop, OrderSide::Bid, 106, 5),
    );
    assert!(out.events.is_empty());
    let out = run(
        &mut engine,
        &mut tx,
        Some(100),
        OrderRequest::new_cancel(3, pair(), 1, OrderType::StopLimit, OrderSide::Bid),
    );
    assert!(out.events.is_empty());
    assert_eq!(tx.high_pending_stop_orders().len(), 1);
}

#[test]
fn stop_order_without_a_market_price_is_turned_away() {
    let mut engine = Engine::new(pair());
    let mut tx = Store::new();
    let out = run(
        &mut engine,
        &mut tx,
        None,
        OrderRequest::new_stop(1, pair(), OrderSide::Bid, 105, 1),
    );
    assert_eq!(
        out.events,
        vec![
            accepted(1, OrderType::Stop, 0),
            Err(Failure::MissingMarketPriceForStopOrder(1)),
        ]
    );
    let out = run(
        &mut engine,
        &mut tx,
        None,
        OrderRequest::new_stop_limit(2, pair(), OrderSide::Bid, 105, GTC, 106, 1),
    );
    assert_eq!(
        out.events,
        vec![
            accepted(2, OrderType::StopLimit, 0),
            Err(Failure::MissingMarketPriceForStopOrder(2)),
        ]
    );
    assert!(tx.high_pending_stop_orders().is_empty());
    assert!(tx.low_pending_stop_orders().is_empty());
}

#[test]
fn stop_order_below_the_market_waits_in_the_low_pool() {
    let mut engine = Engine::new(pair());
    let mut tx = Store::new();
    run(&mut engine, &mut tx, Some(100), OrderRequest::new_stop(1, pair(), OrderSide::Ask, 95, 1));
    run(
        &mut engine,
        &mut tx,
        Some(100),
        OrderRequest::new_stop_limit(2, pair(), OrderSide::Ask, 97, GTC, 96, 1),
    );
    run(&mut engine, &mut tx, Some(100), OrderRequest::new_stop(3, pair(), OrderSide::Ask, 95, 1));
    let ids: Vec<u64> = tx.low_pending_stop_orders().iter().map(|p| p.id()).collect();
    assert_eq!(ids, vec![2, 1, 3]);
    assert!(tx.high_pending_stop_orders().is_empty());
    let out = run(&mut engine, &mut tx, Some(100), OrderRequest::new_stop(4, pair(), OrderSide::Bid, 103, 1));
    assert_eq!(out.events, vec![accepted(4, OrderType::Stop, 0)]);
    run(&mut engine, &mut tx, Some(100), OrderRequest::new_stop(5, pair(), OrderSide::Bid, 101, 1));
    let ids: Vec<u64> = tx.high_pending_stop_orders().iter().map(|p| p.id()).collect();
    assert_eq!(ids, vec![5, 4]);
}

#[test]
fn stop_order_at_the_market_is_issued_at_once() {
    let mut engine = Engine::new(pair());
    let mut tx = Store::new();
    run(&mut engine, &mut tx, None, limit(1, OrderSide::Ask, 101, 5));
    let out = run(
        &mut engine,
        &mut tx,
        Some(100),
        OrderRequest::new_stop(2, pair(), OrderSide::Bid, 100, 2),
    );
    assert_eq!(
        out.events,
        vec![
            accepted(2, OrderType::Stop, 0),
            Ok(Event::StopOrderIssueMarketOrder { id: 2, timestamp_ms: 0 }),
            filled(2, OrderSide::Bid, OrderType::Market, 101, 2, 0),
            partially(1, OrderSide::Ask, OrderType::Limit, 101, 2, 0),
        ]
    );
    assert_eq!(out.market_price, Some(101));
    let out = run(
        &mut engine,
        &mut tx,
        None,
        OrderRequest::new_stop_limit(3, pair(), OrderSide::Bid, 101, GTC, 100, 2),
    );
    assert_eq!(
        out.events,
        vec![
            accepted(3, OrderType::StopLimit, 0),
            Ok(Event::StopLimitOrderIssueLimitOrder { id: 3, timestamp_ms: 0 }),
        ]
    );
    assert_eq!(resting(tx.bids()), vec![(3, 100, 2)]);
}

#[test]
fn a_price_that_falls_triggers_the_low_pool() {
    let mut engine = Engine::new(pair());
    let mut tx = Store::new();
    run(&mut engine, &mut tx, Some(100), OrderRequest::new_stop(1, pair(), OrderSide::Ask, 95, 1));
    run(
        &mut engine,
        &mut tx,
        Some(100),
        OrderRequest::new_stop_limit(2, pair(), OrderSide::Ask, 97, GTC, 99, 1),
    );
    run(&mut engine, &mut tx, Some(100), OrderRequest::new_stop(3, pair(), OrderSide::Ask, 90, 1));
    run(&mut engine, &mut tx, Some(100), limit(4, OrderSide::Bid, 95, 1));
    let out = run(&mut engine, &mut tx, Some(100), limit(5, OrderSide::Ask, 95, 1));
    assert_eq!(
        out.events,
        vec![
            accepted(5, OrderType::Limit, 0),
            filled(5, OrderSide::Ask, OrderType::Limit, 95, 1, 0),
            filled(4, OrderSide::Bid, OrderType::Limit, 95, 1, 0),
            Ok(Event::StopLimitOrderIssueLimitOrder { id: 2, timestamp_ms: 0 }),
            Ok(Event::StopOrderIssueMarketOrder { id: 1, timestamp_ms: 0 }),
            Err(Failure::NoMatch(1)),
        ]
    );
    assert_eq!(resting(tx.asks()), vec![(2, 99, 1)]);
    let ids: Vec<u64> = tx.low_pending_stop_orders().iter().map(|p| p.id()).collect();
    assert_eq!(ids, vec![3]);
    assert_eq!(tx.market_price(), Some(95));
}

#[test]
fn a_triggered_order_that_moves_the_price_triggers_more() {
    let mut engine = Engine::new(pair());
    let mut tx = Store::new();
    // two stop buys wait above the market; the first one lifts the price to the second
    run(&mut engine, &mut tx, Some(100), OrderRequest::new_stop(1, pair(), OrderSide::Bid, 102, 1));
    run(&mut engine, &mut tx, Some(100), OrderRequest::new_stop(2, pair(), OrderSide::Bid, 110, 1));
    run(&mut engine, &mut tx, Some(100), OrderRequest::new_stop(3, pair(), OrderSide::Bid, 120, 1));
    run(&mut engine, &mut tx, Some(100), limit(4, OrderSide::Ask, 102, 1));
    run(&mut engine, &mut tx, Some(100), limit(5, OrderSide::Ask, 111, 1));
    run(&mut engine, &mut tx, Some(100), limit(6, OrderSide::Ask, 112, 5));
    let out = run(&mut engine, &mut tx, Some(100), limit(7, OrderSide::Bid, 102, 1));
    assert_eq!(
        out.events,
        vec![
            accepted(7, OrderType::Limit, 0),
            filled(7, OrderSide::Bid, OrderType::Limit, 102, 1, 0),
            filled(4, OrderSide::Ask, OrderType::Limit, 102, 1, 0),
            Ok(Event::StopOrderIssueMarketOrder { id: 1, timestamp_ms: 0 }),
            filled(1, OrderSide::Bid, OrderType::Market, 111, 1, 0),
            filled(5, OrderSide::Ask, OrderType::Limit, 111, 1, 0),
            Ok(Event::StopOrderIssueMarketOrder { id: 2, timestamp_ms: 0 }),
            filled(2, OrderSide::Bid, OrderType::Market, 112, 1, 0),
            partially(6, OrderSide::Ask, OrderType::Limit, 112, 1, 0),
        ]
    );
    assert_eq!(out.market_price, Some(112));
    let left: Vec<(u64, u64)> = tx
        .high_pending_stop_orders()
        .iter()
        .map(|p| (p.id(), p.stop_price()))
        .collect();
    assert_eq!(left, vec![(3, 120)]);
    // nothing that waits has been reached by the market
    assert!(tx.high_pending_stop_orders().iter().all(|p| p.stop_price() > 112));
    assert!(tx.low_pending_stop_orders().iter().all(|p| p.stop_price() < 112));
}

#[test]
fn more_stop_orders_than_one_batch_are_all_triggered() {
    let mut engine = Engine::new(pair());
    let mut tx = Store::new();
    for id in 0..250u64 {
        run(
            &mut engine,
            &mut tx,
            Some(100),
            OrderRequest::new_stop(1000 + id, pair(), OrderSide::Bid, 101 + id % 3, 1),
        );
    }
    assert_eq!(tx.high_pending_stop_orders().len(), 250);
    run(&mut engine, &mut tx, Some(100), limit(1, OrderSide::Ask, 103, 1));
    let out = run(&mut engine, &mut tx, Some(100), limit(2, OrderSide::Bid, 103, 1));
    assert!(tx.high_pending_stop_orders().is_empty());
    assert_eq!(out.events.len(), 3 + 2 * 250);
    let issued: Vec<u64> = out
        .events
        .iter()
        .filter_map(|e| match e {
            Ok(Event::StopOrderIssueMarketOrder { id, .. }) => Some(*id),
            _ => None,
        })
        .collect();
    assert_eq!(issued.len(), 250);
    // lowest stop price first and, at one stop price, in the order of arrival
    let mut expected: Vec<u64> = Vec::new();
    for rest in 0..3u64 {
        for id in 0..250u64 {
            if id % 3 == rest {
                expected.push(1000 + id);
            }
        }
    }
    assert_eq!(issued, expected);
}

#[test]
fn exactly_one_batch_of_stop_orders() {
    let mut engine = Engine::new(pair());
    let mut tx = Store::new();
    for id in 0..100u64 {
        run(
            &mut engine,
            &mut tx,
            Some(100),
            OrderRequest::new_stop(1000 + id, pair(), OrderSide::Bid, 101, 1),
        );
    }
    run(&mut engine, &mut tx, Some(100), OrderRequest::new_stop(5000, pair(), OrderSide::Bid, 150, 1));
    run(&mut engine, &mut tx, Some(100), limit(1, OrderSide::Ask, 103, 1));
    let out = run(&mut engine, &mut tx, Some(100), limit(2, OrderSide::Bid, 103, 1));
    assert_eq!(tx.high_pending_stop_orders().len(), 1);
    assert_eq!(out.events.len(), 3 + 2 * 100);
}

#[test]
fn every_trade_is_reported_twice_with_one_price_quantity_and_time() {
    let mut engine = Engine::new(pair());
    let mut tx = Store::new();
    run(&mut engine, &mut tx, None, limit(1, OrderSide::Ask, 100, 2));
    run(&mut engine, &mut tx, None, limit(2, OrderSide::Ask, 101, 2));
    run(&mut engine, &mut tx, None, limit(3, OrderSide::Ask, 102, 2));
    engine.set_time(11);
    let out = run(&mut engine, &mut tx, None, limit(4, OrderSide::Bid, 102, 5));
    let fills: Vec<(u64, u64, u64)> = out
        .events
        .iter()
        .filter_map(|e| match e {
            Ok(Event::Filled { price, quantity, timestamp_ms, .. }) => {
                Some((*price, *quantity, *timestamp_ms))
            }
            Ok(Event::PartiallyFilled { price, quantity, timestamp_ms, .. }) => {
                Some((*price, *quantity, *timestamp_ms))
            }
            _ => None,
        })
        .collect();
    assert_eq!(fills.len(), 6);
    for k in 0..3 {
        assert_eq!(fills[2 * k], fills[2 * k + 1]);
    }
    assert_eq!(fills[0], (100, 2, 11));
    assert_eq!(fills[2], (101, 2, 11));
    assert_eq!(fills[4], (102, 1, 11));
    // the prices of the asks that were taken rise
    assert!(fills[0].0 <= fills[2].0 && fills[2].0 <= fills[4].0);
    // the last traded price is that of the last trade
    assert_eq!(out.market_price, Some(102));
}

#[test]
fn a_given_market_price_is_not_written_down_unless_a_trade_moves_it() {
    let mut engine = Engine::new(pair());
    let mut tx = Store::new();
    let out = run(&mut engine, &mut tx, Some(100), limit(1, OrderSide::Ask, 100, 2));
    assert_eq!(out.market_price, Some(100));
    assert_eq!(tx.market_price(), None);
    let out = run(&mut engine, &mut tx, Some(100), limit(2, OrderSide::Bid, 100, 1));
    assert_eq!(out.market_price, Some(100));
    assert_eq!(tx.market_price(), None);
    let out = run(&mut engine, &mut tx, Some(99), limit(3, OrderSide::Bid, 100, 1));
    assert_eq!(out.market_price, Some(100));
    assert_eq!(tx.market_price(), Some(100));
    let out = run(&mut engine, &mut tx, None, limit(4, OrderSide::Bid, 90, 1));
    assert_eq!(out.market_price, Some(100));
}
