use lib::log::LogBuf;
use lib::{
    Action, Actions, AlgoState, LogLevel, OpenOrder, OrderType, Status, WasmActions, MAX_ACTIONS,
};

fn live(order_id: u64) -> OpenOrder {
    OpenOrder { order_id, px_1e9: 1, qty_1e8: 1, filled_1e8: 0, side: 1, status: Status::ACKED, _pad: [0; 6] }
}

fn dead(order_id: u64) -> OpenOrder {
    OpenOrder { status: Status::DEAD, ..live(order_id) }
}

fn state_with(orders: &[OpenOrder]) -> AlgoState {
    let mut s = AlgoState::default();
    for (i, o) in orders.iter().enumerate() {
        s.orders[i] = *o;
    }
    s.order_ct = orders.len() as u8;
    s
}

fn same(a: &Action, b: &Action) -> bool {
    (a.order_id, a.px_1e9, a.qty_1e8, a.side, a.is_cancel, a.order_type, a._pad)
        == (b.order_id, b.px_1e9, b.qty_1e8, b.side, b.is_cancel, b.order_type, b._pad)
}

fn place(order_id: u64, side: i8, qty_1e8: i64, px_1e9: u64, order_type: u8) -> Action {
    Action { order_id, px_1e9, qty_1e8, side, is_cancel: 0, order_type, _pad: [0; 5] }
}

fn cancel(order_id: u64) -> Action {
    Action { order_id, px_1e9: 0, qty_1e8: 0, side: 0, is_cancel: 1, order_type: 0, _pad: [0; 5] }
}

#[test]
fn new_buffer_is_empty() {
    let a = Actions::new();
    assert_eq!(a.len(), 0);
    assert!(a.is_empty());
    assert!(!a.is_full());
    assert!(a.get(0).is_none());
    assert!(a.iter().is_empty());
    assert!(Actions::default().is_empty());
}

#[test]
fn each_placement_queues_its_action() {
    let mut a = Actions::new();
    assert!(a.buy(1, 10, 100));
    assert!(a.sell(2, 20, 200));
    assert!(a.order(3, -1, 30, 300));
    assert!(a.market_buy(4, 40));
    assert!(a.market_sell(5, 50));
    assert!(a.ioc_buy(6, 60, 600));
    assert!(a.ioc_sell(7, 70, 700));
    assert!(a.fok_buy(8, 80, 800));
    assert!(a.fok_sell(9, 90, 900));
    assert!(a.post_only_buy(10, 100, 1000));
    assert!(a.post_only_sell(11, 110, 1100));
    assert!(a.order_typed(12, 1, 120, 1200, OrderType::IOC));
    let expected = [
        place(1, 1, 10, 100, OrderType::LIMIT),
        place(2, -1, 20, 200, OrderType::LIMIT),
        place(3, -1, 30, 300, OrderType::LIMIT),
        place(4, 1, 40, 0, OrderType::MARKET),
        place(5, -1, 50, 0, OrderType::MARKET),
        place(6, 1, 60, 600, OrderType::IOC),
        place(7, -1, 70, 700, OrderType::IOC),
        place(8, 1, 80, 800, OrderType::FOK),
        place(9, -1, 90, 900, OrderType::FOK),
        place(10, 1, 100, 1000, OrderType::POST_ONLY),
        place(11, -1, 110, 1100, OrderType::POST_ONLY),
        place(12, 1, 120, 1200, OrderType::IOC),
    ];
    assert_eq!(a.len(), expected.len());
    for (i, e) in expected.iter().enumerate() {
        assert!(same(a.get(i).unwrap(), e));
        assert!(same(&a.iter()[i], e));
    }
}

#[test]
fn full_buffer_refuses_and_stays_unchanged() {
    let mut a = Actions::new();
    for i in 0..MAX_ACTIONS as u64 {
        assert!(a.buy(i, 1, 1));
    }
    assert!(a.is_full());
    assert!(!a.sell(99, 1, 1));
    assert!(!a.cancel(99));
    assert!(!a.market_buy(99, 1));
    assert_eq!(a.len(), MAX_ACTIONS);
    assert_eq!(a.get(MAX_ACTIONS - 1).unwrap().order_id, (MAX_ACTIONS - 1) as u64);
    assert!(a.get(MAX_ACTIONS).is_none());
    a.clear();
    assert!(a.is_empty());
    assert!(a.buy(1, 1, 1));
    assert_eq!(a.len(), 1);
}

#[test]
fn cancel_queues_a_cancel() {
    let mut a = Actions::new();
    assert!(a.cancel(42));
    assert!(same(a.get(0).unwrap(), &cancel(42)));
}

#[test]
fn cancel_all_cancels_live_orders_in_order() {
    let s = state_with(&[live(1), dead(2), live(3), OpenOrder { status: Status::PENDING, ..live(4) }, live(5)]);
    let mut a = Actions::new();
    a.buy(100, 1, 1);
    a.cancel_all(&s);
    assert_eq!(a.len(), 1 + s.live_order_count());
    assert!(same(a.get(1).unwrap(), &cancel(1)));
    assert!(same(a.get(2).unwrap(), &cancel(3)));
    assert!(same(a.get(3).unwrap(), &cancel(5)));
}

#[test]
fn cancel_all_stops_when_full() {
    let orders: Vec<OpenOrder> = (0..20).map(live).collect();
    let s = state_with(&orders);
    let mut a = Actions::new();
    for i in 0..10 {
        a.buy(1000 + i, 1, 1);
    }
    a.cancel_all(&s);
    assert!(a.is_full());
    for k in 0..6 {
        assert!(same(a.get(10 + k).unwrap(), &cancel(k as u64)));
    }
    let mut b = Actions::new();
    b.cancel_all(&AlgoState::default());
    assert!(b.is_empty());
}

#[test]
fn clear_at_blanks_in_place() {
    let mut a = Actions::new();
    a.buy(1, 10, 100);
    a.sell(2, 20, 200);
    a.clear_at(0);
    assert_eq!(a.len(), 2);
    assert!(same(a.get(0).unwrap(), &Action::default()));
    assert!(same(a.get(1).unwrap(), &place(2, -1, 20, 200, OrderType::LIMIT)));
    // Past the queued length nothing happens.
    a.clear_at(5);
    assert_eq!(a.len(), 2);
    assert!(same(a.get(1).unwrap(), &place(2, -1, 20, 200, OrderType::LIMIT)));
}

#[test]
fn wasm_buffer_mirrors_actions() {
    let mut w = WasmActions::new();
    assert_eq!(w.count, 0);
    assert!(w.actions.iter().all(|x| same(x, &Action::default())));
    let mut a = Actions::new();
    a.buy(1, 10, 100);
    a.cancel(7);
    w.from_actions(&a);
    assert_eq!(w.count, 2);
    assert!(same(&w.actions[0], &place(1, 1, 10, 100, OrderType::LIMIT)));
    assert!(same(&w.actions[1], &cancel(7)));
    assert!(same(&w.actions[2], &Action::default()));
    // Entries past the count keep what they held.
    a.clear();
    a.sell(9, 1, 1);
    w.from_actions(&a);
    assert_eq!(w.count, 1);
    assert!(same(&w.actions[0], &place(9, -1, 1, 1, OrderType::LIMIT)));
    assert!(same(&w.actions[1], &cancel(7)));
}

#[test]
fn log_level_codes() {
    assert_eq!(LogLevel::Trace.code(), 0);
    assert_eq!(LogLevel::Debug.code(), 1);
    assert_eq!(LogLevel::Info.code(), 2);
    assert_eq!(LogLevel::Warn.code(), 3);
    assert_eq!(LogLevel::Error.code(), 4);
}

#[test]
fn log_buffer_keeps_first_128_bytes() {
    let mut b = LogBuf::new();
    assert!(b.as_slice().is_empty());
    b.write_str("hello ");
    b.write_str("world");
    assert_eq!(b.as_slice(), b"hello world");
    let long = "x".repeat(200);
    b.write_str(&long);
    assert_eq!(b.as_slice().len(), 128);
    assert_eq!(&b.as_slice()[..11], b"hello world");
    b.write_str("more");
    assert_eq!(b.as_slice().len(), 128);
    assert!(b.as_slice()[11..].iter().all(|&c| c == b'x'));
}
