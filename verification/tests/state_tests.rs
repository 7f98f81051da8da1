use lib::{AlgoState, OpenOrder, Status, MAX_ORDERS};

fn order(order_id: u64, qty_1e8: i64, filled_1e8: i64, side: i8, status: u8) -> OpenOrder {
    OpenOrder { order_id, px_1e9: 100, qty_1e8, filled_1e8, side, status, _pad: [0; 6] }
}

fn state_with(orders: &[OpenOrder]) -> AlgoState {
    let mut s = AlgoState::default();
    for (i, o) in orders.iter().enumerate() {
        s.orders[i] = *o;
    }
    s.order_ct = orders.len() as u8;
    s
}

#[test]
fn order_status_predicates() {
    let pending = order(1, 10, 0, 1, Status::PENDING);
    let acked = order(1, 10, 0, 1, Status::ACKED);
    let partial = order(1, 10, 3, 1, Status::PARTIAL);
    let dead = order(1, 10, 10, 1, Status::DEAD);
    assert!(pending.is_pending() && !pending.is_live());
    assert!(acked.is_live() && !acked.is_pending());
    assert!(partial.is_live() && !partial.is_pending());
    assert!(!dead.is_live() && !dead.is_pending());
    assert!(!order(1, 1, 0, 1, 9).is_live());
}

#[test]
fn remaining_uses_absolute_quantities() {
    assert_eq!(order(1, 100, 30, 1, Status::PARTIAL).remaining_1e8(), 70);
    assert_eq!(order(1, -100, -30, -1, Status::PARTIAL).remaining_1e8(), 70);
    assert_eq!(order(1, -100, 30, -1, Status::PARTIAL).remaining_1e8(), 70);
    assert_eq!(order(1, 10, 15, 1, Status::PARTIAL).remaining_1e8(), -5);
    assert_eq!(order(1, i64::MAX, 0, 1, Status::ACKED).remaining_1e8(), i64::MAX);
}

#[test]
fn default_order_is_empty() {
    let o = OpenOrder::default();
    assert_eq!((o.order_id, o.px_1e9, o.qty_1e8, o.filled_1e8, o.side, o.status), (0, 0, 0, 0, 0, 0));
    assert_eq!(o._pad, [0; 6]);
    assert!(o.is_pending());
}

#[test]
fn position_predicates_partition() {
    for pos in [-5i64, 0, 5, i64::MIN, i64::MAX] {
        let mut s = AlgoState::default();
        s.position_1e8 = pos;
        let count = s.is_flat() as u8 + s.is_long() as u8 + s.is_short() as u8;
        assert_eq!(count, 1);
        assert_eq!(s.is_flat(), pos == 0);
        assert_eq!(s.is_long(), pos > 0);
        assert_eq!(s.is_short(), pos < 0);
    }
}

#[test]
fn default_state_is_flat_without_orders() {
    let s = AlgoState::default();
    assert!(s.is_flat());
    assert!(!s.has_orders());
    assert_eq!(s.live_order_count(), 0);
    assert!(s.find_order(0).is_none());
    assert_eq!(s.open_buy_qty_1e8(), 0);
    assert_eq!(s.open_sell_qty_1e8(), 0);
    assert_eq!(s.orders.len(), MAX_ORDERS);
}

#[test]
fn live_count_and_open_quantities() {
    let s = state_with(&[
        order(1, 100, 20, 1, Status::ACKED),
        order(2, -50, -10, -1, Status::PARTIAL),
        order(3, 70, 0, 1, Status::PENDING),
        order(4, -30, 0, -1, Status::ACKED),
        order(5, 40, 40, 1, Status::DEAD),
        order(6, 10, 0, 1, Status::PARTIAL),
    ]);
    assert!(s.has_orders());
    assert_eq!(s.live_order_count(), 4);
    assert_eq!(s.open_buy_qty_1e8(), 80 + 10);
    assert_eq!(s.open_sell_qty_1e8(), 40 + 30);
}

#[test]
fn orders_past_the_count_are_ignored() {
    let mut s = state_with(&[order(1, 100, 0, 1, Status::ACKED)]);
    s.orders[3] = order(9, 100, 0, 1, Status::ACKED);
    assert_eq!(s.live_order_count(), 1);
    assert!(s.find_order(9).is_none());
    assert_eq!(s.open_buy_qty_1e8(), 100);
}

#[test]
fn find_order_returns_first_match() {
    let s = state_with(&[
        order(7, 1, 0, 1, Status::ACKED),
        order(8, 2, 0, 1, Status::ACKED),
        order(8, 3, 0, 1, Status::DEAD),
    ]);
    assert_eq!(s.find_order(8).map(|o| o.qty_1e8), Some(2));
    assert_eq!(s.find_order(7).map(|o| o.qty_1e8), Some(1));
    assert!(s.find_order(9).is_none());
}

#[test]
fn pnl() {
    let mut s = AlgoState::default();
    s.realized_pnl_1e9 = 1_500_000_000;
    s.unrealized_pnl_1e9 = -2_000_000_000;
    assert_eq!(s.total_pnl_1e9(), -500_000_000);
    let p = s.get_pnl();
    assert_eq!(p.realized_1e9, 1_500_000_000);
    assert_eq!(p.unrealized_1e9, -2_000_000_000);
    assert_eq!(p.total_1e9, -500_000_000);
}

#[test]
fn default_pnl_snapshot_is_zero() {
    let p = lib::PnlSnapshot::default();
    assert_eq!((p.realized_1e9, p.unrealized_1e9, p.total_1e9), (0, 0, 0));
}

#[test]
fn find_order_with_oversized_count_finds_early_match() {
    let mut s = state_with(&[order(7, 1, 0, 1, Status::ACKED), order(8, 2, 0, 1, Status::ACKED)]);
    s.order_ct = 200;
    assert_eq!(s.find_order(8).map(|o| o.qty_1e8), Some(2));
}

#[test]
fn default_orders_have_zero_padding() {
    let s = AlgoState::default();
    assert!(s.orders.iter().all(|o| o._pad == [0; 6]));
}
