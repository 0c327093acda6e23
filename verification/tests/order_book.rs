use matching_engine::models::order_id::OrderId;
use matching_engine::order_queue::elements::LimitOrder;
use matching_engine::{
    AssetPair, MemoryOrderQueue, Order, OrderBook, OrderBookFailure, OrderBookOutput, OrderQueue,
    OrderSide, OrderType, StandingClock,
};

type Queue = MemoryOrderQueue<u64, u64>;
type Book = OrderBook<char, u64, u64, Queue, StandingClock>;
type Entry = Result<OrderBookOutput<u64, u64>, OrderBookFailure>;

fn pair() -> AssetPair<char> {
    AssetPair::new('B', 'U')
}

fn book(at: u64) -> Book {
    OrderBook::new(pair(), Queue::bids(), Queue::asks(), StandingClock::new(at))
}

fn id(n: u64) -> OrderId {
    OrderId::new(n)
}

fn limit(n: u64, side: OrderSide, price: u64, quantity: u64) -> Order<char, u64, u64> {
    Order::new_limit(id(n), pair(), side, price, quantity, 1)
}

fn waiting(queue: &Queue) -> Vec<(u64, u64, u64)> {
    queue.orders().iter().map(|o| (o.order_id.value(), o.price, o.quantity)).collect()
}

fn filled(n: u64, side: OrderSide, order_type: OrderType, price: u64, quantity: u64, at: u64) -> Entry {
    Ok(OrderBookOutput::Filled { id: id(n), side, order_type, price, quantity, timestamp: at })
}

fn partially(n: u64, side: OrderSide, order_type: OrderType, price: u64, quantity: u64, at: u64) -> Entry {
    Ok(OrderBookOutput::PartiallyFilled { id: id(n), side, order_type, price, quantity, timestamp: at })
}

fn accepted(n: u64, order_type: OrderType, at: u64) -> Entry {
    Ok(OrderBookOutput::Accepted { id: id(n), order_type, timestamp: at })
}

#[test]
fn order_id_is_its_number() {
    let a = OrderId::new(7);
    assert_eq!(a.value(), 7);
    assert_eq!(OrderId::from(7u64), a);
    assert_eq!(u64::from(a), 7);
    assert!(OrderId::new(3) < OrderId::new(4));
}

#[test]
fn book_orders_are_made_of_what_they_are_given() {
    let market: Order<char, u64, u64> = Order::new_market(id(1), pair(), OrderSide::Bid, 5, 9);
    assert_eq!(
        market,
        Order::Market { id: id(1), asset_pair: pair(), side: OrderSide::Bid, quantity: 5, timestamp: 9 }
    );
    assert_eq!(
        limit(2, OrderSide::Ask, 100, 5),
        Order::Limit { id: id(2), asset_pair: pair(), side: OrderSide::Ask, price: 100, quantity: 5, timestamp: 1 }
    );
    let amend: Order<char, u64, u64> =
        Order::new_amend(id(3), id(2), OrderType::Limit, OrderSide::Ask, 101, 6, 2);
    assert_eq!(
        amend,
        Order::Amend {
            id: id(3),
            target_id: id(2),
            target_order_type: OrderType::Limit,
            side: OrderSide::Ask,
            price: 101,
            quantity: 6,
            timestamp: 2,
        }
    );
    let cancel: Order<char, u64, u64> = Order::new_cancel(id(4), id(2), OrderType::Limit, OrderSide::Ask);
    assert_eq!(
        cancel,
        Order::Cancel { id: id(4), target_id: id(2), target_order_type: OrderType::Limit, side: OrderSide::Ask }
    );
}

#[test]
fn queue_serves_best_price_first_and_then_first_come() {
    let mut asks = Queue::asks();
    assert!(asks.insert(LimitOrder { order_id: id(1), price: 101, quantity: 1 }, 0));
    assert!(asks.insert(LimitOrder { order_id: id(2), price: 100, quantity: 1 }, 0));
    assert!(asks.insert(LimitOrder { order_id: id(3), price: 100, quantity: 1 }, 0));
    assert_eq!(waiting(&asks), vec![(2, 100, 1), (3, 100, 1), (1, 101, 1)]);
    let mut bids = Queue::bids();
    assert!(bids.insert(LimitOrder { order_id: id(1), price: 100, quantity: 1 }, 0));
    assert!(bids.insert(LimitOrder { order_id: id(2), price: 101, quantity: 1 }, 0));
    assert!(bids.insert(LimitOrder { order_id: id(3), price: 101, quantity: 1 }, 0));
    assert_eq!(waiting(&bids), vec![(2, 101, 1), (3, 101, 1), (1, 100, 1)]);
    assert_eq!(bids.peek(), Some(&LimitOrder { order_id: id(2), price: 101, quantity: 1 }));
    assert_eq!(bids.pop(), Some(LimitOrder { order_id: id(2), price: 101, quantity: 1 }));
    assert_eq!(waiting(&bids), vec![(3, 101, 1), (1, 100, 1)]);
}

#[test]
fn queue_turns_away_an_id_that_it_holds() {
    let mut asks = Queue::asks();
    assert!(asks.insert(LimitOrder { order_id: id(1), price: 101, quantity: 1 }, 0));
    assert!(!asks.insert(LimitOrder { order_id: id(1), price: 99, quantity: 2 }, 0));
    assert_eq!(waiting(&asks), vec![(1, 101, 1)]);
}

#[test]
fn queue_amends_removes_and_modifies() {
    let mut asks = Queue::asks();
    assert!(!asks.modify_current_order(LimitOrder { order_id: id(9), price: 1, quantity: 1 }));
    assert_eq!(asks.peek(), None);
    assert_eq!(asks.pop(), None);
    asks.insert(LimitOrder { order_id: id(1), price: 100, quantity: 1 }, 0);
    asks.insert(LimitOrder { order_id: id(2), price: 100, quantity: 1 }, 0);
    asks.insert(LimitOrder { order_id: id(3), price: 102, quantity: 1 }, 0);
    assert!(asks.amend(LimitOrder { order_id: id(1), price: 100, quantity: 7 }, 0));
    assert_eq!(waiting(&asks), vec![(1, 100, 7), (2, 100, 1), (3, 102, 1)]);
    assert!(asks.amend(LimitOrder { order_id: id(1), price: 102, quantity: 7 }, 0));
    assert_eq!(waiting(&asks), vec![(2, 100, 1), (3, 102, 1), (1, 102, 7)]);
    assert!(!asks.amend(LimitOrder { order_id: id(8), price: 102, quantity: 7 }, 0));
    assert!(asks.modify_current_order(LimitOrder { order_id: id(2), price: 100, quantity: 5 }));
    assert_eq!(waiting(&asks), vec![(2, 100, 5), (3, 102, 1), (1, 102, 7)]);
    assert!(asks.remove(id(3)));
    assert!(!asks.remove(id(3)));
    assert_eq!(waiting(&asks), vec![(2, 100, 5), (1, 102, 7)]);
}

#[test]
fn book_rests_what_does_not_cross() {
    let mut book = book(5);
    let out = book.process_order(limit(1, OrderSide::Ask, 110, 5));
    assert_eq!(out, vec![accepted(1, OrderType::Limit, 5)]);
    let out = book.process_order(limit(2, OrderSide::Bid, 100, 5));
    assert_eq!(out, vec![accepted(2, OrderType::Limit, 5)]);
    assert_eq!(waiting(book.ask_limit_queue()), vec![(1, 110, 5)]);
    assert_eq!(waiting(book.bid_limit_queue()), vec![(2, 100, 5)]);
}

#[test]
fn book_matches_at_the_price_of_the_waiting_order() {
    let mut book = book(0);
    book.process_order(limit(1, OrderSide::Ask, 100, 5));
    book.clock_mut().set(8);
    let out = book.process_order(limit(2, OrderSide::Bid, 110, 5));
    assert_eq!(
        out,
        vec![
            accepted(2, OrderType::Limit, 8),
            filled(2, OrderSide::Bid, OrderType::Limit, 100, 5, 8),
            filled(1, OrderSide::Ask, OrderType::Limit, 100, 5, 8),
        ]
    );
    assert!(book.ask_limit_queue().orders().is_empty());
    assert!(book.bid_limit_queue().orders().is_empty());
}

#[test]
fn book_fills_across_price_levels_and_rests_the_remainder() {
    let mut book = book(0);
    book.process_order(limit(1, OrderSide::Ask, 100, 2));
    book.process_order(limit(2, OrderSide::Ask, 101, 2));
    book.process_order(limit(3, OrderSide::Ask, 103, 2));
    let out = book.process_order(limit(4, OrderSide::Bid, 101, 7));
    assert_eq!(
        out,
        vec![
            accepted(4, OrderType::Limit, 0),
            partially(4, OrderSide::Bid, OrderType::Limit, 100, 2, 0),
            filled(1, OrderSide::Ask, OrderType::Limit, 100, 2, 0),
            partially(4, OrderSide::Bid, OrderType::Limit, 101, 2, 0),
            filled(2, OrderSide::Ask, OrderType::Limit, 101, 2, 0),
        ]
    );
    assert_eq!(waiting(book.bid_limit_queue()), vec![(4, 101, 3)]);
    assert_eq!(waiting(book.ask_limit_queue()), vec![(3, 103, 2)]);
}

#[test]
fn book_leaves_the_waiting_order_with_what_is_left() {
    let mut book = book(0);
    book.process_order(limit(1, OrderSide::Bid, 100, 10));
    let out = book.process_order(Order::new_market(id(2), pair(), OrderSide::Ask, 4, 0));
    assert_eq!(
        out,
        vec![
            accepted(2, OrderType::Market, 0),
            filled(2, OrderSide::Ask, OrderType::Market, 100, 4, 0),
            partially(1, OrderSide::Bid, OrderType::Limit, 100, 4, 0),
        ]
    );
    assert_eq!(waiting(book.bid_limit_queue()), vec![(1, 100, 6)]);
}

#[test]
fn book_reports_a_market_order_that_finds_nothing() {
    let mut book = book(0);
    let out = book.process_order(Order::new_market(id(1), pair(), OrderSide::Bid, 4, 0));
    assert_eq!(
        out,
        vec![accepted(1, OrderType::Market, 0), Err(OrderBookFailure::NoMatch(id(1)))]
    );
    book.process_order(limit(2, OrderSide::Ask, 100, 1));
    let out = book.process_order(Order::new_market(id(3), pair(), OrderSide::Bid, 4, 0));
    assert_eq!(
        out,
        vec![
            accepted(3, OrderType::Market, 0),
            partially(3, OrderSide::Bid, OrderType::Market, 100, 1, 0),
            filled(2, OrderSide::Ask, OrderType::Limit, 100, 1, 0),
            Err(OrderBookFailure::NoMatch(id(3))),
        ]
    );
}

#[test]
fn book_reports_an_order_that_the_queue_turns_away() {
    let mut book = book(0);
    book.process_order(limit(1, OrderSide::Bid, 100, 10));
    let out = book.process_order(limit(1, OrderSide::Bid, 99, 10));
    assert_eq!(
        out,
        vec![
            accepted(1, OrderType::Limit, 0),
            Err(OrderBookFailure::FailedToEnqueueOrder(id(1))),
        ]
    );
    assert_eq!(waiting(book.bid_limit_queue()), vec![(1, 100, 10)]);
}

#[test]
fn book_amends_and_cancels() {
    let mut book = book(0);
    book.process_order(limit(1, OrderSide::Bid, 100, 10));
    book.clock_mut().set(3);
    let out = book.process_order(Order::new_amend(
        id(2),
        id(1),
        OrderType::Limit,
        OrderSide::Bid,
        101,
        4,
        0,
    ));
    assert_eq!(
        out,
        vec![Ok(OrderBookOutput::Amended { id: id(2), target_id: id(1), price: 101, quantity: 4, timestamp: 3 })]
    );
    assert_eq!(waiting(book.bid_limit_queue()), vec![(1, 101, 4)]);
    let out = book.process_order(Order::new_amend(
        id(3),
        id(9),
        OrderType::Limit,
        OrderSide::Bid,
        101,
        4,
        0,
    ));
    assert_eq!(
        out,
        vec![Err(OrderBookFailure::OrderNotFound { order_id: id(3), target_order_id: id(9) })]
    );
    let out = book.process_order(Order::new_cancel(id(4), id(1), OrderType::Limit, OrderSide::Bid));
    assert_eq!(
        out,
        vec![Ok(OrderBookOutput::Cancelled { id: id(4), target_id: id(1), timestamp: 3 })]
    );
    assert!(book.bid_limit_queue().orders().is_empty());
    let out = book.process_order(Order::new_cancel(id(5), id(1), OrderType::Limit, OrderSide::Bid));
    assert_eq!(
        out,
        vec![Err(OrderBookFailure::OrderNotFound { order_id: id(5), target_order_id: id(1) })]
    );
}
