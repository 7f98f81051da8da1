use lib::{L2Book, Level};

fn lvl(px_1e9: u64, sz_1e8: u64) -> Level {
    Level { px_1e9, sz_1e8 }
}

fn book(bids: &[(u64, u64)], asks: &[(u64, u64)]) -> L2Book {
    let mut b = L2Book::default();
    for (i, &(p, s)) in bids.iter().enumerate() {
        b.bids[i] = lvl(p, s);
    }
    for (i, &(p, s)) in asks.iter().enumerate() {
        b.asks[i] = lvl(p, s);
    }
    b.bid_ct = bids.len() as u8;
    b.ask_ct = asks.len() as u8;
    b
}

#[test]
fn level_is_valid_needs_positive_price() {
    assert!(lvl(1, 0).is_valid());
    assert!(!lvl(0, 5).is_valid());
    assert!(!Level::default().is_valid());
    assert_eq!(Level::default().sz_1e8, 0);
}

#[test]
fn default_book_is_empty() {
    let b = L2Book::default();
    assert_eq!(b.bid_ct, 0);
    assert_eq!(b.ask_ct, 0);
    assert_eq!(b.recv_ns, 0);
    assert!(b.bids.iter().all(|l| l.px_1e9 == 0 && l.sz_1e8 == 0));
    assert!(b.best_bid().is_none());
    assert!(b.best_ask().is_none());
}

#[test]
fn best_bid_and_ask() {
    let b = book(&[(100, 5), (99, 7)], &[(110, 3)]);
    assert_eq!(b.best_bid().map(|l| l.px_1e9), Some(100));
    assert_eq!(b.best_ask().map(|l| l.sz_1e8), Some(3));
    // A zero price at the top is no best level, even with a count.
    let z = book(&[(0, 5)], &[(0, 1)]);
    assert!(z.best_bid().is_none());
    assert!(z.best_ask().is_none());
    // A price without a count is ignored.
    let mut c = L2Book::default();
    c.bids[0] = lvl(100, 1);
    assert!(c.best_bid().is_none());
}

#[test]
fn mid_price() {
    let b = book(&[(100, 5)], &[(111, 3)]);
    assert_eq!(b.mid_px_1e9(), 105);
    assert_eq!(book(&[(100, 5)], &[]).mid_px_1e9(), 0);
    assert_eq!(book(&[], &[(100, 5)]).mid_px_1e9(), 0);
    let btc = book(&[(50_000_000_000_000, 1)], &[(50_001_000_000_000, 1)]);
    assert_eq!(btc.mid_px_1e9(), 50_000_500_000_000);
}

#[test]
fn spread_absolute() {
    assert_eq!(book(&[(100, 5)], &[(110, 3)]).spread_1e9(), 10);
    // Crossed books saturate at zero.
    assert_eq!(book(&[(120, 5)], &[(110, 3)]).spread_1e9(), 0);
    assert_eq!(book(&[], &[(110, 3)]).spread_1e9(), u64::MAX);
    assert_eq!(book(&[(110, 3)], &[]).spread_1e9(), u64::MAX);
}

#[test]
fn spread_in_basis_points() {
    // spread 10, mid 105: 100000 / 105 = 952
    assert_eq!(book(&[(100, 5)], &[(110, 3)]).spread_bps(), 952);
    // 1 bp on a 10_000 mid.
    assert_eq!(book(&[(9_999, 1)], &[(10_001, 1)]).spread_bps(), 2);
    assert_eq!(book(&[], &[(110, 3)]).spread_bps(), u32::MAX);
    // Two-sided but a zero mid.
    assert_eq!(book(&[(0, 1)], &[(1, 1)]).spread_bps(), u32::MAX);
    assert_eq!(book(&[(120, 5)], &[(110, 3)]).spread_bps(), 0);
}

#[test]
fn depth_counts_valid_levels_only() {
    let b = book(&[(100, 5), (99, 7), (98, 11)], &[(110, 3), (111, 4)]);
    assert_eq!(b.bid_depth_1e8(0), 0);
    assert_eq!(b.bid_depth_1e8(1), 5);
    assert_eq!(b.bid_depth_1e8(2), 12);
    assert_eq!(b.bid_depth_1e8(3), 23);
    assert_eq!(b.bid_depth_1e8(10), 23);
    assert_eq!(b.ask_depth_1e8(1), 3);
    assert_eq!(b.ask_depth_1e8(usize::MAX), 7);
    // Sizes beyond the count are not counted.
    let mut c = b;
    c.bids[5] = lvl(90, 1000);
    assert_eq!(c.bid_depth_1e8(20), 23);
}

#[test]
fn depth_is_monotone_in_levels() {
    let b = book(&[(100, 5), (99, 7), (98, 11)], &[(110, 3), (111, 4)]);
    let mut prev = 0;
    for n in 0..25 {
        let d = b.bid_depth_1e8(n);
        assert!(d >= prev);
        prev = d;
    }
}

#[test]
fn imbalance() {
    let b = book(&[(100, 5), (99, 7)], &[(110, 3)]);
    // (12 - 3) * 10000 / 15
    assert_eq!(b.imbalance_bps(5), 6000);
    // (5 - 3) * 10000 / 8
    assert_eq!(b.imbalance_bps(1), 2500);
    // Ask-heavy: rounds toward zero.
    let a = book(&[(100, 1)], &[(110, 2)]);
    assert_eq!(a.imbalance_bps(1), -3333);
    assert_eq!(book(&[], &[]).imbalance_bps(5), 0);
    assert_eq!(book(&[(100, 0)], &[(110, 0)]).imbalance_bps(5), 0);
    assert_eq!(book(&[(100, 4)], &[]).imbalance_bps(5), 10_000);
    assert_eq!(book(&[], &[(100, 4)]).imbalance_bps(5), -10_000);
    // Nearly balanced rounds to 0.
    assert_eq!(book(&[(100, 1_000_000_001)], &[(101, 1_000_000_000)]).imbalance_bps(1), 0);
}

#[test]
fn imbalance_stays_within_bounds() {
    for b_sz in [0u64, 1, 7, 100, 12345] {
        for a_sz in [0u64, 1, 3, 99, 54321] {
            let b = book(&[(100, b_sz)], &[(101, a_sz)]);
            let im = b.imbalance_bps(1);
            assert!((-10_000..=10_000).contains(&im));
            if b_sz >= a_sz {
                assert!(im >= 0);
            }
            if b_sz <= a_sz {
                assert!(im <= 0);
            }
        }
    }
}

#[test]
fn mid_between_bid_and_ask() {
    for (bid, ask) in [(1u64, 1u64), (1, 2), (100, 333), (7, 8)] {
        let m = book(&[(bid, 1)], &[(ask, 1)]).mid_px_1e9();
        assert!(bid <= m && m <= ask);
    }
}

#[test]
fn swapping_sides_negates_imbalance() {
    let cases: [(&[(u64, u64)], &[(u64, u64)]); 4] = [
        (&[(100, 5), (99, 7)], &[(110, 3)]),
        (&[(100, 1)], &[(110, 2)]),
        (&[(100, 4)], &[(101, 4)]),
        (&[], &[]),
    ];
    for (bids, asks) in cases {
        let b = book(bids, asks);
        let s = book(asks, bids);
        for levels in [0usize, 1, 2, 5] {
            assert_eq!(s.imbalance_bps(levels), -b.imbalance_bps(levels));
        }
    }
    assert_eq!(book(&[(100, 4)], &[(101, 4)]).imbalance_bps(5), 0);
}

#[test]
fn swapping_sides_negates_imbalance_for_large_totals() {
    let b = book(&[(100, (1u64 << 62) + 10)], &[(101, 1u64 << 62)]);
    let s = book(&[(101, 1u64 << 62)], &[(100, (1u64 << 62) + 10)]);
    assert_eq!(s.imbalance_bps(1), -b.imbalance_bps(1));
}
