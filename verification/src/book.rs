use vstd::prelude::*;

verus! {

/// Single price level in the order book.
#[derive(Debug, Clone, Copy)]
pub struct Level {
    /// Price times 10^9.
    pub px_1e9: u64,
    /// Size times 10^8.
    pub sz_1e8: u64,
}

impl Level {
    /// A level is valid when it carries a positive price.
    pub fn is_valid(&self) -> (r: bool)
        ensures
            r == (self.px_1e9 > 0),
    {
        self.px_1e9 > 0
    }
}

/// The empty level: zero price and zero size.
impl Default for Level {
    fn default() -> (r: Level)
        ensures
            r.px_1e9 == 0,
            r.sz_1e8 == 0,
    {
        Level { px_1e9: 0, sz_1e8: 0 }
    }
}

/// Sum of the sizes of the first `n` levels of `levels`.
pub open spec fn depth_sum(levels: Seq<Level>, n: int) -> int
    decreases n,
{
    if n <= 0 {
        0
    } else {
        depth_sum(levels, n - 1) + levels[n - 1].sz_1e8
    }
}

/// Sizes are never negative, so a longer prefix never has a smaller depth.
pub proof fn lemma_depth_sum_monotone(levels: Seq<Level>, i: int, j: int)
    requires
        i <= j,
    ensures
        depth_sum(levels, i) <= depth_sum(levels, j),
    decreases j - i,
{
    if i < j {
        lemma_depth_sum_monotone(levels, i, j - 1);
    }
}

/// Number of levels that a depth query over `levels` looks at when `ct` are valid.
pub open spec fn depth_levels(levels: usize, ct: u8) -> int {
    if levels <= ct { levels as int } else { ct as int }
}

/// Integer division rounding toward zero, as Rust's `/` on signed integers.
pub open spec fn trunc_div(x: int, d: int) -> int {
    let q: int = vstd::math::abs(x) as int / vstd::math::abs(d) as int;
    if (x < 0) != (d < 0) { -q } else { q }
}

/// Rust's signed division expressed with the Euclidean division of specs.
pub proof fn lemma_trunc_div_euclid(x: int, d: int)
    requires
        d != 0,
    ensures
        trunc_div(x, d) == (if x >= 0 { x / d } else { -((-x) / d) }),
{
    let y: int = if x >= 0 { x } else { -x };
    if d < 0 {
        assert(y / d == -(y / (-d))) by (nonlinear_arith)
            requires
                y >= 0,
                d < 0,
        ;
    }
}

/// L2 order book with up to 20 levels per side; index 0 is the best level.
#[derive(Clone, Copy)]
pub struct L2Book {
    /// Bid levels, best first.
    pub bids: [Level; 20],
    /// Ask levels, best first.
    pub asks: [Level; 20],
    /// Number of valid bid levels.
    pub bid_ct: u8,
    /// Number of valid ask levels.
    pub ask_ct: u8,
    pub symbol_id: u16,
    pub _pad: u32,
    /// Receive timestamp in nanoseconds.
    pub recv_ns: u64,
}

impl Default for L2Book {
    fn default() -> (r: L2Book)
        ensures
            forall|i: int| 0 <= i < 20 ==> r.bids@[i] == (Level { px_1e9: 0, sz_1e8: 0 }),
            forall|i: int| 0 <= i < 20 ==> r.asks@[i] == (Level { px_1e9: 0, sz_1e8: 0 }),
            r.bid_ct == 0,
            r.ask_ct == 0,
            r.symbol_id == 0,
            r._pad == 0,
            r.recv_ns == 0,
    {
        let empty = Level { px_1e9: 0, sz_1e8: 0 };
        L2Book {
            bids: [empty; 20],
            asks: [empty; 20],
            bid_ct: 0,
            ask_ct: 0,
            symbol_id: 0,
            _pad: 0,
            recv_ns: 0,
        }
    }
}

impl L2Book {
    /// Both sides have at least one valid level.
    pub open spec fn two_sided(self) -> bool {
        self.bid_ct != 0 && self.ask_ct != 0
    }

    /// Mid price, or 0 when a side is empty.
    pub open spec fn spec_mid(self) -> int {
        if !self.two_sided() {
            0
        } else {
            (self.bids@[0].px_1e9 + self.asks@[0].px_1e9) / 2
        }
    }

    /// Ask minus bid, floored at 0, or `u64::MAX` when a side is empty.
    pub open spec fn spec_spread(self) -> int {
        if !self.two_sided() {
            u64::MAX as int
        } else if self.asks@[0].px_1e9 >= self.bids@[0].px_1e9 {
            self.asks@[0].px_1e9 - self.bids@[0].px_1e9
        } else {
            0
        }
    }

    /// Cumulative bid size over the first `levels` valid levels.
    pub open spec fn spec_bid_depth(self, levels: usize) -> int {
        depth_sum(self.bids@, depth_levels(levels, self.bid_ct))
    }

    /// Cumulative ask size over the first `levels` valid levels.
    pub open spec fn spec_ask_depth(self, levels: usize) -> int {
        depth_sum(self.asks@, depth_levels(levels, self.ask_ct))
    }

    /// The mid price can be computed without overflow.
    pub open spec fn mid_fits(self) -> bool {
        self.two_sided() ==> self.bids@[0].px_1e9 + self.asks@[0].px_1e9 <= u64::MAX
    }

    /// A bid depth over `levels` stays within the array and within `u64`.
    pub open spec fn bid_depth_fits(self, levels: usize) -> bool {
        &&& depth_levels(levels, self.bid_ct) <= 20
        &&& self.spec_bid_depth(levels) <= u64::MAX
    }

    /// An ask depth over `levels` stays within the array and within `u64`.
    pub open spec fn ask_depth_fits(self, levels: usize) -> bool {
        &&& depth_levels(levels, self.ask_ct) <= 20
        &&& self.spec_ask_depth(levels) <= u64::MAX
    }

    /// Best bid, when the book has one with a positive price.
    pub fn best_bid(&self) -> (r: Option<&Level>)
        ensures
            r == (if self.bid_ct > 0 && self.bids@[0].px_1e9 > 0 {
                Some(&self.bids@[0])
            } else {
                None
            }),
    {
        if self.bid_ct > 0 && self.bids[0].px_1e9 > 0 {
            Some(&self.bids[0])
        } else {
            None
        }
    }

    /// Best ask, when the book has one with a positive price.
    pub fn best_ask(&self) -> (r: Option<&Level>)
        ensures
            r == (if self.ask_ct > 0 && self.asks@[0].px_1e9 > 0 {
                Some(&self.asks@[0])
            } else {
                None
            }),
    {
        if self.ask_ct > 0 && self.asks[0].px_1e9 > 0 {
            Some(&self.asks[0])
        } else {
            None
        }
    }

    /// Mid price (rounded down), or 0 when a side is empty.
    pub fn mid_px_1e9(&self) -> (r: u64)
        requires
            self.mid_fits(),
        ensures
            r == self.spec_mid(),
    {
        if self.bid_ct == 0 || self.ask_ct == 0 {
            return 0;
        }
        (self.bids[0].px_1e9 + self.asks[0].px_1e9) / 2
    }

    /// Spread (ask minus bid, saturating at 0), or `u64::MAX` when a side is empty.
    pub fn spread_1e9(&self) -> (r: u64)
        ensures
            r == self.spec_spread(),
    {
        if self.bid_ct == 0 || self.ask_ct == 0 {
            return u64::MAX;
        }
        self.asks[0].px_1e9.saturating_sub(self.bids[0].px_1e9)
    }

    /// Cumulative bid size over the first `levels` valid levels.
    pub fn bid_depth_1e8(&self, levels: usize) -> (r: u64)
        requires
            self.bid_depth_fits(levels),
        ensures
            r == self.spec_bid_depth(levels),
    {
        let n = if levels <= self.bid_ct as usize { levels } else { self.bid_ct as usize };
        let mut sum = 0u64;
        let mut i: usize = 0;
        while i < n
            invariant
                n == depth_levels(levels, self.bid_ct),
                n <= 20,
                i <= n,
                sum == depth_sum(self.bids@, i as int),
                depth_sum(self.bids@, n as int) <= u64::MAX,
            decreases n - i,
        {
            proof {
                lemma_depth_sum_monotone(self.bids@, i + 1, n as int);
            }
            sum = sum + self.bids[i].sz_1e8;
            i = i + 1;
        }
        sum
    }

    /// Cumulative ask size over the first `levels` valid levels.
    pub fn ask_depth_1e8(&self, levels: usize) -> (r: u64)
        requires
            self.ask_depth_fits(levels),
        ensures
            r == self.spec_ask_depth(levels),
    {
        let n = if levels <= self.ask_ct as usize { levels } else { self.ask_ct as usize };
        let mut sum = 0u64;
        let mut i: usize = 0;
        while i < n
            invariant
                n == depth_levels(levels, self.ask_ct),
                n <= 20,
                i <= n,
                sum == depth_sum(self.asks@, i as int),
                depth_sum(self.asks@, n as int) <= u64::MAX,
            decreases n - i,
        {
            proof {
                lemma_depth_sum_monotone(self.asks@, i + 1, n as int);
            }
            sum = sum + self.asks[i].sz_1e8;
            i = i + 1;
        }
        sum
    }

    /// Spread in basis points of the mid, truncated to `u32` by an `as` cast;
    /// `u32::MAX` when the mid is 0.
    pub open spec fn spec_spread_bps(self) -> u32 {
        if self.spec_mid() == 0 {
            u32::MAX
        } else {
            ((self.spec_spread() * 10000) / self.spec_mid()) as u32
        }
    }

    /// The basis-point spread can be computed without overflow.
    pub open spec fn spread_bps_fits(self) -> bool {
        &&& self.mid_fits()
        &&& self.spec_mid() != 0 ==> self.spec_spread() * 10000 <= u64::MAX
    }

    /// Spread in basis points of the mid price, or `u32::MAX` when the mid is 0.
    pub fn spread_bps(&self) -> (r: u32)
        requires
            self.spread_bps_fits(),
        ensures
            r == self.spec_spread_bps(),
            self.spec_mid() != 0 && (self.spec_spread() * 10000) / self.spec_mid() <= u32::MAX
                ==> r == (self.spec_spread() * 10000) / self.spec_mid(),
    {
        let mid = self.mid_px_1e9();
        if mid == 0 {
            return u32::MAX;
        }
        ((self.spread_1e9() * 10_000) / mid) as u32
    }

    /// Order-book imbalance over the first `levels` levels in basis points:
    /// `(bid - ask) * 10000 / (bid + ask)`, rounded toward zero, or 0 when
    /// both depths are 0. Both depths and their total are cast to `i64` by `as`,
    /// and the quotient to `i32`.
    pub open spec fn spec_imbalance(self, levels: usize) -> i32 {
        let b = self.spec_bid_depth(levels);
        let a = self.spec_ask_depth(levels);
        if b + a == 0 {
            0
        } else {
            trunc_div(((b as i64) - (a as i64)) * 10000, (b + a) as i64 as int) as i32
        }
    }

    /// The imbalance can be computed without overflow.
    pub open spec fn imbalance_fits(self, levels: usize) -> bool {
        let b = self.spec_bid_depth(levels);
        let a = self.spec_ask_depth(levels);
        &&& self.bid_depth_fits(levels)
        &&& self.ask_depth_fits(levels)
        &&& b + a <= u64::MAX
        &&& b + a != 0 ==> i64::MIN <= (b as i64) - (a as i64) <= i64::MAX
        &&& b + a != 0 ==> i64::MIN <= ((b as i64) - (a as i64)) * 10000 <= i64::MAX
    }

    /// Bid/ask depth imbalance over the first `levels` levels, in basis points.
    pub fn imbalance_bps(&self, levels: usize) -> (r: i32)
        requires
            self.imbalance_fits(levels),
        ensures
            r == self.spec_imbalance(levels),
    {
        let bid_depth = self.bid_depth_1e8(levels);
        let ask_depth = self.ask_depth_1e8(levels);
        let total = bid_depth + ask_depth;
        if total == 0 {
            return 0;
        }
        assert(total != 0 ==> total as i64 != 0) by (bit_vector);
        let num = (bid_depth as i64 - ask_depth as i64) * 10_000;
        let den = total as i64;
        let q = num / den;
        proof {
            lemma_trunc_div_euclid(num as int, den as int);
        }
        q as i32
    }
}

/// On a two-sided book that is not crossed, the mid price lies between the
/// best bid and the best ask.
pub proof fn law_mid_between_bid_and_ask(book: L2Book)
    requires
        book.two_sided(),
        book.bids@[0].px_1e9 <= book.asks@[0].px_1e9,
    ensures
        book.bids@[0].px_1e9 <= book.spec_mid() <= book.asks@[0].px_1e9,
{
}

/// Looking at more levels never makes a side shallower.
pub proof fn law_depth_monotone_in_levels(book: L2Book, fewer: usize, more: usize)
    requires
        fewer <= more,
    ensures
        book.spec_bid_depth(fewer) <= book.spec_bid_depth(more),
        book.spec_ask_depth(fewer) <= book.spec_ask_depth(more),
{
    lemma_depth_sum_monotone(book.bids@, depth_levels(fewer, book.bid_ct), depth_levels(more, book.bid_ct));
    lemma_depth_sum_monotone(book.asks@, depth_levels(fewer, book.ask_ct), depth_levels(more, book.ask_ct));
}

/// The imbalance lies between -10000 and 10000 basis points, is at least 0
/// when the bid side is at least as deep and at most 0 when the ask side is
/// at least as deep, whenever
/// the total depth fits in `i64`. (Rounding toward zero can still give 0 when
/// the two sides differ by little.) Above that the `as i64` cast of the total
/// turns the divisor negative, and neither the bound nor the signs need hold.
pub proof fn law_imbalance_bounded(book: L2Book, levels: usize)
    requires
        book.imbalance_fits(levels),
        book.spec_bid_depth(levels) + book.spec_ask_depth(levels) <= i64::MAX,
    ensures
        -10000 <= book.spec_imbalance(levels) <= 10000,
        book.spec_bid_depth(levels) >= book.spec_ask_depth(levels) ==> book.spec_imbalance(levels) >= 0,
        book.spec_bid_depth(levels) <= book.spec_ask_depth(levels) ==> book.spec_imbalance(levels) <= 0,
        book.spec_bid_depth(levels) == book.spec_ask_depth(levels) ==> book.spec_imbalance(levels) == 0,
{
    let b = book.spec_bid_depth(levels);
    let a = book.spec_ask_depth(levels);
    lemma_depth_sum_monotone(book.bids@, 0, depth_levels(levels, book.bid_ct));
    lemma_depth_sum_monotone(book.asks@, 0, depth_levels(levels, book.ask_ct));
    if b + a != 0 {
        let t = b + a;
        let n = (b - a) * 10000;
        assert(b as i64 == b);
        assert(a as i64 == a);
        assert(t as i64 == t);
        lemma_imbalance_quotient_bounded(b, a);
        assert(trunc_div(n, t) as i32 == trunc_div(n, t));
    }
}

/// The imbalance quotient of two depths lies between -10000 and 10000 and
/// has the sign of their difference (or is 0).
pub proof fn lemma_imbalance_quotient_bounded(b: int, a: int)
    requires
        b >= 0,
        a >= 0,
        b + a > 0,
    ensures
        -10000 <= trunc_div((b - a) * 10000, b + a) <= 10000,
        b >= a ==> trunc_div((b - a) * 10000, b + a) >= 0,
        b <= a ==> trunc_div((b - a) * 10000, b + a) <= 0,
{
    let t = b + a;
    let n = (b - a) * 10000;
    let m: int = vstd::math::abs(n) as int;
    assert(m <= 10000 * t);
    let q = m / t;
    assert(0 <= q <= 10000) by (nonlinear_arith)
        requires
            0 <= m <= 10000 * t,
            t > 0,
            q == m / t,
    ;
}

/// The book seen from the other side: bids and asks exchanged, with their counts.
pub open spec fn swap_sides(book: L2Book) -> L2Book {
    L2Book { bids: book.asks, asks: book.bids, bid_ct: book.ask_ct, ask_ct: book.bid_ct, ..book }
}

/// Truncating to `i32` commutes with negation, except at `i32::MIN`.
proof fn lemma_neg_cast_i32(x: i64)
    by (bit_vector)
    requires
        x != i64::MIN,
        x as i32 != i32::MIN,
    ensures
        (-x) as i32 == -(x as i32),
{
}

/// A nonzero total depth stays nonzero when cast to `i64`.
proof fn lemma_nonzero_cast_i64(t: u64)
    by (bit_vector)
    requires
        t != 0,
    ensures
        t as i64 != 0,
{
}

/// Exchanging the two sides of a book negates its imbalance whenever the
/// imbalance can be computed and is not `i32::MIN` (whose negation does not
/// exist in `i32`); the swapped book's imbalance can then be computed too.
/// In particular equal depths give 0.
pub proof fn law_imbalance_swap_negates(book: L2Book, levels: usize)
    requires
        book.imbalance_fits(levels),
        book.spec_imbalance(levels) != i32::MIN,
    ensures
        swap_sides(book).imbalance_fits(levels),
        swap_sides(book).spec_imbalance(levels) == -book.spec_imbalance(levels),
{
    let sw = swap_sides(book);
    let b = book.spec_bid_depth(levels);
    let a = book.spec_ask_depth(levels);
    assert(sw.spec_bid_depth(levels) == a);
    assert(sw.spec_ask_depth(levels) == b);
    lemma_depth_sum_monotone(book.bids@, 0, depth_levels(levels, book.bid_ct));
    lemma_depth_sum_monotone(book.asks@, 0, depth_levels(levels, book.ask_ct));
    if b + a != 0 {
        let t = b + a;
        let bi = b as i64;
        let ai = a as i64;
        let n: int = (bi - ai) * 10000;
        assert(bi - ai != i64::MIN);
        assert(n != i64::MIN);
        assert((ai - bi) * 10000 == -n);
        let tu: u64 = t as u64;
        lemma_nonzero_cast_i64(tu);
        let d: int = t as i64 as int;
        assert(d == tu as i64);
        assert(d != 0);
        assert(trunc_div(-n, d) == -trunc_div(n, d));
        let q = trunc_div(n, d);
        let m: int = vstd::math::abs(n) as int;
        let e: int = vstd::math::abs(d) as int;
        assert(m / e <= m) by (nonlinear_arith)
            requires
                m >= 0,
                e >= 1,
        ;
        assert(m < 0x8000_0000_0000_0000);
        let qi: i64 = q as i64;
        assert(qi == q);
        assert(book.spec_imbalance(levels) == qi as i32);
        lemma_neg_cast_i32(qi);
        assert(sw.spec_imbalance(levels) == (-qi) as i32);
    }
}

/// A depth query over `levels` valid levels is the query over one level fewer
/// plus the size at index `levels - 1`; it is 0 over no level, and asking for
/// more levels than are valid gives the depth of all valid levels. So a
/// depth sums exactly the first `min(levels, count)` sizes.
pub proof fn law_depth_adds_one_level(book: L2Book, levels: usize)
    ensures
        book.spec_bid_depth(0) == 0,
        book.spec_ask_depth(0) == 0,
        1 <= levels <= book.bid_ct <= 20 ==> book.spec_bid_depth(levels)
            == book.spec_bid_depth((levels - 1) as usize) + book.bids@[levels - 1].sz_1e8,
        1 <= levels <= book.ask_ct <= 20 ==> book.spec_ask_depth(levels)
            == book.spec_ask_depth((levels - 1) as usize) + book.asks@[levels - 1].sz_1e8,
        levels >= book.bid_ct ==> book.spec_bid_depth(levels) == book.spec_bid_depth(book.bid_ct as usize),
        levels >= book.ask_ct ==> book.spec_ask_depth(levels) == book.spec_ask_depth(book.ask_ct as usize),
{
}

/// On a two-sided book the spread is the best ask minus the best bid, or 0
/// when the book is crossed; with an empty side it is `u64::MAX`.
pub proof fn law_spread_of_best_levels(book: L2Book)
    ensures
        book.two_sided() && book.asks@[0].px_1e9 >= book.bids@[0].px_1e9
            ==> book.spec_spread() == book.asks@[0].px_1e9 - book.bids@[0].px_1e9,
        book.two_sided() && book.asks@[0].px_1e9 < book.bids@[0].px_1e9 ==> book.spec_spread() == 0,
        !book.two_sided() ==> book.spec_spread() == u64::MAX,
        book.two_sided() ==> book.spec_mid() == (book.bids@[0].px_1e9 + book.asks@[0].px_1e9) / 2,
{
}

/// Mid price, spread and basis-point spread depend only on the counts and
/// the best prices: two books that agree on those agree on all three,
/// whatever their deeper levels and sizes hold.
pub proof fn law_spread_ignores_deeper_levels(b1: L2Book, b2: L2Book)
    requires
        b1.bid_ct == b2.bid_ct,
        b1.ask_ct == b2.ask_ct,
        b1.bids@[0].px_1e9 == b2.bids@[0].px_1e9,
        b1.asks@[0].px_1e9 == b2.asks@[0].px_1e9,
    ensures
        b1.spec_mid() == b2.spec_mid(),
        b1.spec_spread() == b2.spec_spread(),
        b1.spec_spread_bps() == b2.spec_spread_bps(),
{
}

/// When the total depth fits in `i64`, the imbalance is the depth difference
/// scaled by 10000 and divided by the total depth, rounded toward zero: it
/// is the whole number of basis points that the difference makes of the
/// total, with the sign of the difference.
pub proof fn law_imbalance_is_scaled_ratio(book: L2Book, levels: usize)
    requires
        book.imbalance_fits(levels),
        book.spec_bid_depth(levels) + book.spec_ask_depth(levels) <= i64::MAX,
        book.spec_bid_depth(levels) + book.spec_ask_depth(levels) > 0,
    ensures
        ({
            let b = book.spec_bid_depth(levels);
            let a = book.spec_ask_depth(levels);
            let r = book.spec_imbalance(levels) as int;
            &&& b >= a ==> r * (b + a) <= (b - a) * 10000 < (r + 1) * (b + a)
            &&& b < a ==> (r - 1) * (b + a) < (b - a) * 10000 <= r * (b + a)
        }),
{
    let b = book.spec_bid_depth(levels);
    let a = book.spec_ask_depth(levels);
    let t = b + a;
    lemma_depth_sum_monotone(book.bids@, 0, depth_levels(levels, book.bid_ct));
    lemma_depth_sum_monotone(book.asks@, 0, depth_levels(levels, book.ask_ct));
    assert(b as i64 == b);
    assert(a as i64 == a);
    assert(t as i64 == t);
    lemma_imbalance_quotient_bounded(b, a);
    let q = trunc_div((b - a) * 10000, t);
    assert(q as i32 == q);
    assert(book.spec_imbalance(levels) == q);
    if b >= a {
        let m = (b - a) * 10000;
        assert(q == m / t);
        assert(q * t <= m < (q + 1) * t) by (nonlinear_arith)
            requires
                m >= 0,
                t > 0,
                q == m / t,
        ;
    } else {
        let m = (a - b) * 10000;
        assert(q == -(m / t));
        let p = m / t;
        assert(p * t <= m < (p + 1) * t) by (nonlinear_arith)
            requires
                m >= 0,
                t > 0,
                p == m / t,
        ;
        assert((q - 1) * t < -m <= q * t) by (nonlinear_arith)
            requires
                p * t <= m < (p + 1) * t,
                q == -p,
        ;
    }
}

} // verus!
