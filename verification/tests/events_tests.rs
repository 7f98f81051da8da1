use lib::time::{self, Timer};
use lib::{Fill, Reject, RejectCode};

fn fill_at(recv_ns: u64) -> Fill {
    Fill { order_id: 1, px_1e9: 1, qty_1e8: 1, recv_ns, side: 1, _pad: [0; 7] }
}

#[test]
fn fill_elapsed_time() {
    let f = fill_at(5_123_456_789);
    assert_eq!(f.since_ns(5_000_000_000), 123_456_789);
    assert_eq!(f.since_us(5_000_000_000), 123_456);
    assert_eq!(f.since_ms(5_000_000_000), 123);
    // A start after the fill saturates at zero.
    assert_eq!(f.since_ns(6_000_000_000), 0);
    assert_eq!(f.since_ms(6_000_000_000), 0);
}

#[test]
fn free_timer_functions() {
    let t0 = time::start(1_000);
    assert_eq!(t0, 1_000);
    assert_eq!(time::stop_ns(t0, 2_501_000), 2_500_000);
    assert_eq!(time::stop_us(t0, 2_501_000), 2_500);
    assert_eq!(time::stop_ms(t0, 2_501_000), 2);
    assert_eq!(time::stop_ns(t0, 999), 0);
}

#[test]
fn stateful_timer() {
    let mut t = Timer::new();
    assert_eq!(t.stop_ns(42), 42);
    t.start(1_000_000);
    assert_eq!(t.stop_ns(4_000_000), 3_000_000);
    assert_eq!(t.stop_us(4_000_000), 3_000);
    assert_eq!(t.stop_ms(4_000_000), 3);
    assert_eq!(t.stop_ns(10), 0);
    t.start(4_000_000);
    assert_eq!(t.stop_ns(4_000_000), 0);
    let d = Timer::default();
    assert_eq!(d.stop_ns(7), 7);
}

#[test]
fn timer_agrees_with_free_functions() {
    for (s, n) in [(0u64, 0u64), (5, 1_000_000_007), (1_000_000_007, 5), (3, u64::MAX)] {
        let mut t = Timer::new();
        t.start(s);
        assert_eq!(t.stop_ns(n), time::stop_ns(s, n));
        assert_eq!(t.stop_ms(n), time::stop_us(s, n) / 1000);
    }
}

#[test]
fn reject_code_names() {
    let cases = [
        (RejectCode::UNKNOWN, "UNKNOWN"),
        (RejectCode::INSUFFICIENT_BALANCE, "INSUFFICIENT_BALANCE"),
        (RejectCode::INVALID_PARAMS, "INVALID_PARAMS"),
        (RejectCode::RATE_LIMIT, "RATE_LIMIT"),
        (RejectCode::EXCHANGE_BUSY, "EXCHANGE_BUSY"),
        (RejectCode::NETWORK, "NETWORK"),
        (RejectCode::AUTH, "AUTH"),
        (RejectCode::RISK, "RISK_CHECK_FAILED"),
        (RejectCode::POSITION_LIMIT, "POSITION_LIMIT"),
        (RejectCode::KILL_SWITCH, "KILL_SWITCH"),
        (RejectCode::PRICE_DEVIATION, "PRICE_DEVIATION"),
        (RejectCode::DAILY_LOSS_LIMIT, "DAILY_LOSS_LIMIT"),
    ];
    for (code, name) in cases {
        assert_eq!(RejectCode::to_str(code), name);
    }
    for code in [7u8, 50, 99, 105, 255] {
        assert_eq!(RejectCode::to_str(code), "UNKNOWN");
    }
}

#[test]
fn reject_reason() {
    let r = Reject { order_id: 3, code: RejectCode::KILL_SWITCH, _pad: [0; 7] };
    assert_eq!(r.reason(), "KILL_SWITCH");
    let u = Reject { order_id: 3, code: 200, _pad: [0; 7] };
    assert_eq!(u.reason(), "UNKNOWN");
}
