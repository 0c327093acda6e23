use matching_engine::{
    is_below, is_same, AssetPair, Clock, Identity, MatchingEngine, MatchingEngineEvent,
    MemoryEngine, MemoryStore, OrderRequest, OrderSide, OrderType, Quantity, StandingClock,
    TimeInForce, TotalOrder,
};

#[derive(Debug, Clone, Copy, PartialEq, Eq)]
enum Coin {
    Btc,
    Usd,
}

impl Identity for Coin {
    fn same_as(&self, other: &Self) -> bool {
        self == other
    }
}

#[derive(Debug, Clone, Copy, PartialEq, Eq)]
struct Scaled {
    num: u64,
    scale: u32,
}

impl TotalOrder for Scaled {
    fn leq(self, other: Self) -> bool {
        self.is_at_most(&other)
    }

    fn lemma_leq_total(_a: Self, _b: Self) {}

    fn lemma_leq_transitive(_a: Self, _b: Self, _c: Self) {}

    fn is_at_most(&self, other: &Self) -> bool {
        let a = self.num as u128 * 10u128.pow(other.scale);
        let b = other.num as u128 * 10u128.pow(self.scale);
        a <= b
    }
}

#[test]
fn asset_pair_compares_both_assets() {
    let pair = AssetPair::new(Coin::Btc, Coin::Usd);
    assert!(pair.same_as(&AssetPair::new(Coin::Btc, Coin::Usd)));
    assert!(!pair.same_as(&AssetPair::new(Coin::Usd, Coin::Btc)));
}

#[test]
fn prices_of_different_scale_compare_by_value() {
    let a = Scaled { num: 10, scale: 1 };
    let b = Scaled { num: 100, scale: 2 };
    let c = Scaled { num: 101, scale: 2 };
    assert!(is_same(&a, &b));
    assert!(is_below(&a, &c));
    assert!(!is_below(&c, &b));
}

#[test]
fn side_has_an_opposite() {
    assert_eq!(OrderSide::Bid.opposite(), OrderSide::Ask);
    assert_eq!(OrderSide::Ask.opposite(), OrderSide::Bid);
}

#[test]
fn time_in_force_reads_what_it_writes() {
    assert_eq!(TimeInForce::GoodTillCancelled.as_str(), "GTC");
    assert_eq!(TimeInForce::ImmediateOrCancel.as_str(), "IOC");
    assert_eq!(TimeInForce::FillOrKill.to_text(), String::from("FOK"));
    assert_eq!("GTC".parse::<TimeInForce>(), Ok(TimeInForce::GoodTillCancelled));
    assert_eq!(TimeInForce::parse("IOC"), Ok(TimeInForce::ImmediateOrCancel));
    assert_eq!(TimeInForce::parse("FOK"), Ok(TimeInForce::FillOrKill));
    assert_eq!(
        TimeInForce::parse("GTD"),
        Err(String::from("unknown time in force value: GTD"))
    );
    assert_eq!(TimeInForce::default(), TimeInForce::GoodTillCancelled);
}

#[test]
fn prices_of_different_scale_trade_with_each_other() {
    let pair = AssetPair::new(Coin::Btc, Coin::Usd);
    let mut engine: MemoryEngine<u64, Coin, Scaled, u64> = MemoryEngine::new(pair);
    let mut tx: MemoryStore<u64, Coin, Scaled, u64> = MemoryStore::new();
    let one = Scaled { num: 10, scale: 1 };
    let also_one = Scaled { num: 100, scale: 2 };
    let gtc = TimeInForce::GoodTillCancelled;
    engine
        .process_order_request(&mut tx, Some(also_one), OrderRequest::new_limit(1, pair, OrderSide::Ask, gtc, one, 3))
        .unwrap();
    let out = engine
        .process_order_request(&mut tx, Some(also_one), OrderRequest::new_limit(2, pair, OrderSide::Bid, gtc, also_one, 3))
        .unwrap();
    assert_eq!(
        out.events,
        vec![
            Ok(MatchingEngineEvent::Accepted { id: 2, order_type: OrderType::Limit, timestamp_ms: 0 }),
            Ok(MatchingEngineEvent::Filled {
                id: 2,
                side: OrderSide::Bid,
                order_type: OrderType::Limit,
                price: one,
                quantity: 3,
                timestamp_ms: 0,
            }),
            Ok(MatchingEngineEvent::Filled {
                id: 1,
                side: OrderSide::Ask,
                order_type: OrderType::Limit,
                price: one,
                quantity: 3,
                timestamp_ms: 0,
            }),
        ]
    );
    // the trade was made at the price that the request began with, in another scale:
    // the last traded price has not moved, and nothing is written down
    assert_eq!(out.market_price, Some(one));
    assert_eq!(tx.market_price(), None);
    // a stop order at the market is issued at once, whatever the scale
    let out = engine
        .process_order_request(&mut tx, Some(one), OrderRequest::new_stop(3, pair, OrderSide::Bid, also_one, 1))
        .unwrap();
    assert_eq!(out.events.len(), 3);
    assert!(tx.high_pending_stop_orders().is_empty() && tx.low_pending_stop_orders().is_empty());
}

#[test]
fn quantities_are_taken_from_each_other() {
    assert_eq!(7u64.take(3), 4);
    assert_eq!(7u32.take(7), 0);
    assert_eq!(9u128.take(1), 8);
}

#[test]
fn a_standing_clock_reads_what_it_was_set_to() {
    let mut clock = StandingClock::new(4);
    assert_eq!(clock.now_ms(), 4);
    assert_eq!(clock.now_ms(), 4);
    clock.set(9);
    assert_eq!(clock.now_ms(), 9);
}
