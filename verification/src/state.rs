use vstd::prelude::*;

use crate::Status;

verus! {

/// Absolute value of an `i64` other than `i64::MIN`.
fn abs_i64(x: i64) -> (r: i64)
    requires
        x != i64::MIN,
    ensures
        r == vstd::math::abs(x as int),
{
    if x < 0 { -x } else { x }
}

/// Open order tracked by the server.
#[derive(Debug, Clone, Copy)]
pub struct OpenOrder {
    pub order_id: u64,
    pub px_1e9: u64,
    /// Signed quantity: positive to buy, negative to sell.
    pub qty_1e8: i64,
    /// Amount filled.
    pub filled_1e8: i64,
    /// 1 to buy, -1 to sell.
    pub side: i8,
    pub status: u8,
    pub _pad: [u8; 6],
}

/// The empty order: every field zero.
impl Default for OpenOrder {
    fn default() -> (r: OpenOrder)
        ensures
            r.order_id == 0,
            r.px_1e9 == 0,
            r.qty_1e8 == 0,
            r.filled_1e8 == 0,
            r.side == 0,
            r.status == 0,
            r._pad@ == seq![0u8; 6],
    {
        OpenOrder { order_id: 0, px_1e9: 0, qty_1e8: 0, filled_1e8: 0, side: 0, status: 0, _pad: [0u8; 6] }
    }
}

impl OpenOrder {
    /// Acknowledged or partially filled.
    pub open spec fn spec_is_live(self) -> bool {
        self.status == Status::ACKED || self.status == Status::PARTIAL
    }

    /// Quantity still to fill: `|qty| - |filled|`.
    pub open spec fn spec_remaining(self) -> int {
        vstd::math::abs(self.qty_1e8 as int) - vstd::math::abs(self.filled_1e8 as int)
    }

    /// `remaining_1e8` can be computed: neither quantity is `i64::MIN`.
    pub open spec fn remaining_fits(self) -> bool {
        self.qty_1e8 != i64::MIN && self.filled_1e8 != i64::MIN
    }

    /// The order rests at the exchange (acknowledged or partially filled).
    pub fn is_live(&self) -> (r: bool)
        ensures
            r == self.spec_is_live(),
    {
        self.status == Status::ACKED || self.status == Status::PARTIAL
    }

    /// The order was sent and awaits acknowledgement.
    pub fn is_pending(&self) -> (r: bool)
        ensures
            r == (self.status == Status::PENDING),
    {
        self.status == Status::PENDING
    }

    /// Quantity still to fill, `|qty| - |filled|`.
    pub fn remaining_1e8(&self) -> (r: i64)
        requires
            self.remaining_fits(),
        ensures
            r == self.spec_remaining(),
    {
        abs_i64(self.qty_1e8) - abs_i64(self.filled_1e8)
    }
}

/// A pending order is never live, and a live order is never pending.
pub proof fn law_live_and_pending_exclusive(o: OpenOrder)
    ensures
        !(o.spec_is_live() && o.status == Status::PENDING),
{
}

/// Maximum open orders per algo.
pub const MAX_ORDERS: usize = 32;

/// Number of live orders among the first `n` of `orders`.
pub open spec fn live_count(orders: Seq<OpenOrder>, n: int) -> int
    decreases n,
{
    if n <= 0 {
        0
    } else {
        live_count(orders, n - 1) + if orders[n - 1].spec_is_live() { 1int } else { 0int }
    }
}

/// Remaining quantity of the live orders among the first `n` of `orders`
/// whose side is buy (`side > 0`) when `buy`, sell (`side < 0`) otherwise.
pub open spec fn open_qty(orders: Seq<OpenOrder>, n: int, buy: bool) -> int
    decreases n,
{
    if n <= 0 {
        0
    } else {
        let o = orders[n - 1];
        let counted = o.spec_is_live() && (if buy { o.side > 0 } else { o.side < 0 });
        open_qty(orders, n - 1, buy) + if counted { o.spec_remaining() } else { 0int }
    }
}

/// At most `n` of the first `n` orders are live.
pub proof fn lemma_live_count_bounds(orders: Seq<OpenOrder>, n: int)
    requires
        n >= 0,
    ensures
        0 <= live_count(orders, n) <= n,
    decreases n,
{
    if n > 0 {
        lemma_live_count_bounds(orders, n - 1);
    }
}

/// Algo state: position and open orders, managed by the server.
#[derive(Clone, Copy)]
pub struct AlgoState {
    /// Net position (positive is long).
    pub position_1e8: i64,
    /// Average entry price.
    pub avg_entry_1e9: u64,
    pub realized_pnl_1e9: i64,
    pub unrealized_pnl_1e9: i64,
    pub orders: [OpenOrder; MAX_ORDERS],
    /// Number of valid entries of `orders`.
    pub order_ct: u8,
    pub _pad: [u8; 7],
}

/// PnL snapshot in fixed-point units (1e9 is $1.00).
#[derive(Debug, Clone, Copy)]
pub struct PnlSnapshot {
    pub realized_1e9: i64,
    pub unrealized_1e9: i64,
    pub total_1e9: i64,
}

/// A zero snapshot.
impl Default for PnlSnapshot {
    fn default() -> (r: PnlSnapshot)
        ensures
            r.realized_1e9 == 0,
            r.unrealized_1e9 == 0,
            r.total_1e9 == 0,
    {
        PnlSnapshot { realized_1e9: 0, unrealized_1e9: 0, total_1e9: 0 }
    }
}

/// A flat state: no position, no PnL, no orders.
impl Default for AlgoState {
    fn default() -> (r: AlgoState)
        ensures
            r.position_1e8 == 0,
            r.avg_entry_1e9 == 0,
            r.realized_pnl_1e9 == 0,
            r.unrealized_pnl_1e9 == 0,
            forall|i: int| 0 <= i < MAX_ORDERS ==> (#[trigger] r.orders@[i]).order_id == 0
                && r.orders@[i].px_1e9 == 0 && r.orders@[i].qty_1e8 == 0
                && r.orders@[i].filled_1e8 == 0 && r.orders@[i].side == 0
                && r.orders@[i].status == 0 && r.orders@[i]._pad@ == seq![0u8; 6],
            r.order_ct == 0,
            r._pad@ == seq![0u8; 7],
    {
        let empty = OpenOrder { order_id: 0, px_1e9: 0, qty_1e8: 0, filled_1e8: 0, side: 0, status: 0, _pad: [0u8; 6] };
        AlgoState {
            position_1e8: 0,
            avg_entry_1e9: 0,
            realized_pnl_1e9: 0,
            unrealized_pnl_1e9: 0,
            orders: [empty; MAX_ORDERS],
            order_ct: 0,
            _pad: [0u8; 7],
        }
    }
}

impl AlgoState {
    /// `order_ct` does not exceed the capacity of `orders`.
    pub open spec fn order_ct_fits(self) -> bool {
        self.order_ct <= MAX_ORDERS
    }

    /// The open quantity on one side can be summed in `i64`: every counted
    /// order's quantities can be taken absolutely and every partial sum fits.
    pub open spec fn open_qty_fits(self, buy: bool) -> bool {
        &&& self.order_ct_fits()
        &&& forall|i: int|
            0 <= i < self.order_ct ==> {
                let o = #[trigger] self.orders@[i];
                (o.spec_is_live() && (if buy { o.side > 0 } else { o.side < 0 })) ==> o.remaining_fits()
            }
        &&& forall|k: int|
            0 <= k <= self.order_ct ==> i64::MIN <= #[trigger] open_qty(self.orders@, k, buy) <= i64::MAX
    }

    /// Realized plus unrealized PnL fits in `i64`.
    pub open spec fn total_pnl_fits(self) -> bool {
        i64::MIN <= self.realized_pnl_1e9 + self.unrealized_pnl_1e9 <= i64::MAX
    }

    /// No position.
    pub fn is_flat(&self) -> (r: bool)
        ensures
            r == (self.position_1e8 == 0),
    {
        self.position_1e8 == 0
    }

    /// Net long.
    pub fn is_long(&self) -> (r: bool)
        ensures
            r == (self.position_1e8 > 0),
    {
        self.position_1e8 > 0
    }

    /// Net short.
    pub fn is_short(&self) -> (r: bool)
        ensures
            r == (self.position_1e8 < 0),
    {
        self.position_1e8 < 0
    }

    /// At least one order is tracked.
    pub fn has_orders(&self) -> (r: bool)
        ensures
            r == (self.order_ct > 0),
    {
        self.order_ct > 0
    }

    /// Number of live orders among the valid ones.
    pub fn live_order_count(&self) -> (r: usize)
        requires
            self.order_ct_fits(),
        ensures
            r == live_count(self.orders@, self.order_ct as int),
            r <= self.order_ct,
    {
        let n = self.order_ct as usize;
        let mut ct: usize = 0;
        let mut i: usize = 0;
        while i < n
            invariant
                n == self.order_ct,
                n <= MAX_ORDERS,
                i <= n,
                ct == live_count(self.orders@, i as int),
                ct <= i,
            decreases n - i,
        {
            if self.orders[i].is_live() {
                ct = ct + 1;
            }
            i = i + 1;
        }
        ct
    }

    /// The first valid order with id `order_id`, if any. The scan stops at
    /// the first match, so it stays within the array whenever `order_ct` fits
    /// or a match lies in the array.
    pub fn find_order(&self, order_id: u64) -> (r: Option<&OpenOrder>)
        requires
            self.order_ct_fits() || exists|i: int|
                0 <= i < MAX_ORDERS && (#[trigger] self.orders@[i]).order_id == order_id,
        ensures
            r is None <==> (forall|i: int|
                0 <= i < self.order_ct && i < MAX_ORDERS ==> (#[trigger] self.orders@[i]).order_id != order_id),
            r matches Some(o) ==> exists|i: int|
                0 <= i < self.order_ct && i < MAX_ORDERS && *o == #[trigger] self.orders@[i]
                    && o.order_id == order_id
                    && forall|j: int| 0 <= j < i ==> (#[trigger] self.orders@[j]).order_id != order_id,
    {
        let n = self.order_ct as usize;
        let mut i: usize = 0;
        while i < n
            invariant
                n == self.order_ct,
                i <= n,
                n <= MAX_ORDERS || exists|k: int|
                    0 <= k < MAX_ORDERS && (#[trigger] self.orders@[k]).order_id == order_id,
                forall|j: int| 0 <= j < i ==> (#[trigger] self.orders@[j]).order_id != order_id,
            decreases n - i,
        {
            if i >= MAX_ORDERS {
                assert(false) by {
                    let k = choose|k: int| 0 <= k < MAX_ORDERS && (#[trigger] self.orders@[k]).order_id == order_id;
                    assert(self.orders@[k].order_id != order_id);
                }
            }
            if self.orders[i].order_id == order_id {
                return Some(&self.orders[i]);
            }
            i = i + 1;
        }
        None
    }

    /// Remaining quantity of live buy orders.
    pub fn open_buy_qty_1e8(&self) -> (r: i64)
        requires
            self.open_qty_fits(true),
        ensures
            r == open_qty(self.orders@, self.order_ct as int, true),
    {
        let n = self.order_ct as usize;
        let mut sum = 0i64;
        let mut i: usize = 0;
        while i < n
            invariant
                n == self.order_ct,
                self.open_qty_fits(true),
                i <= n,
                sum == open_qty(self.orders@, i as int, true),
            decreases n - i,
        {
            let o = &self.orders[i];
            if o.is_live() && o.side > 0 {
                assert(open_qty(self.orders@, i + 1, true) == sum + o.spec_remaining());
                sum = sum + o.remaining_1e8();
            }
            i = i + 1;
        }
        sum
    }

    /// Remaining quantity of live sell orders.
    pub fn open_sell_qty_1e8(&self) -> (r: i64)
        requires
            self.open_qty_fits(false),
        ensures
            r == open_qty(self.orders@, self.order_ct as int, false),
    {
        let n = self.order_ct as usize;
        let mut sum = 0i64;
        let mut i: usize = 0;
        while i < n
            invariant
                n == self.order_ct,
                self.open_qty_fits(false),
                i <= n,
                sum == open_qty(self.orders@, i as int, false),
            decreases n - i,
        {
            let o = &self.orders[i];
            if o.is_live() && o.side < 0 {
                assert(open_qty(self.orders@, i + 1, false) == sum + o.spec_remaining());
                sum = sum + o.remaining_1e8();
            }
            i = i + 1;
        }
        sum
    }

    /// Realized plus unrealized PnL.
    pub fn total_pnl_1e9(&self) -> (r: i64)
        requires
            self.total_pnl_fits(),
        ensures
            r == self.realized_pnl_1e9 + self.unrealized_pnl_1e9,
    {
        self.realized_pnl_1e9 + self.unrealized_pnl_1e9
    }

    /// Realized, unrealized and total PnL in one value.
    pub fn get_pnl(&self) -> (r: PnlSnapshot)
        requires
            self.total_pnl_fits(),
        ensures
            r.realized_1e9 == self.realized_pnl_1e9,
            r.unrealized_1e9 == self.unrealized_pnl_1e9,
            r.total_1e9 == r.realized_1e9 + r.unrealized_1e9,
    {
        PnlSnapshot {
            realized_1e9: self.realized_pnl_1e9,
            unrealized_1e9: self.unrealized_pnl_1e9,
            total_1e9: self.total_pnl_1e9(),
        }
    }
}

/// Exactly one of flat, long and short holds of any state.
pub proof fn law_flat_long_short_partition(state: AlgoState)
    ensures
        (state.position_1e8 == 0) as int + (state.position_1e8 > 0) as int
            + (state.position_1e8 < 0) as int == 1,
{
}

/// A state without orders has no live order and no open quantity on
/// either side.
pub proof fn law_no_orders_nothing_open(state: AlgoState)
    requires
        state.order_ct == 0,
    ensures
        live_count(state.orders@, state.order_ct as int) == 0,
        open_qty(state.orders@, state.order_ct as int, true) == 0,
        open_qty(state.orders@, state.order_ct as int, false) == 0,
{
}

/// The live orders are among the valid ones: there are never more live
/// orders than `order_ct`.
pub proof fn law_live_count_at_most_order_ct(state: AlgoState)
    ensures
        0 <= live_count(state.orders@, state.order_ct as int) <= state.order_ct,
{
    lemma_live_count_bounds(state.orders@, state.order_ct as int);
}

/// Two order sequences that agree everywhere but at index `k`, where the
/// order is not live in either, have the same open quantity over any prefix.
pub proof fn lemma_open_qty_frame_non_live(o1: Seq<OpenOrder>, o2: Seq<OpenOrder>, k: int, n: int, buy: bool)
    requires
        o1.len() == o2.len(),
        0 <= k < o1.len(),
        forall|i: int| 0 <= i < o1.len() && i != k ==> o1[i] == o2[i],
        !o1[k].spec_is_live(),
        !o2[k].spec_is_live(),
        n <= o1.len(),
    ensures
        open_qty(o1, n, buy) == open_qty(o2, n, buy),
    decreases n,
{
    if n > 0 {
        lemma_open_qty_frame_non_live(o1, o2, k, n - 1, buy);
    }
}

/// Replacing a non-live order at index `k` by a live order on the counted
/// side raises the open quantity over a prefix containing `k` by exactly
/// that order's remaining quantity.
pub proof fn lemma_open_qty_adds_live(o1: Seq<OpenOrder>, o2: Seq<OpenOrder>, k: int, n: int, buy: bool)
    requires
        o1.len() == o2.len(),
        0 <= k < o1.len(),
        forall|i: int| 0 <= i < o1.len() && i != k ==> o1[i] == o2[i],
        !o1[k].spec_is_live(),
        o2[k].spec_is_live(),
        if buy { o2[k].side > 0 } else { o2[k].side < 0 },
        n <= o1.len(),
    ensures
        open_qty(o2, n, buy) == open_qty(o1, n, buy) + if k < n { o2[k].spec_remaining() } else { 0 },
    decreases n,
{
    if n > 0 {
        lemma_open_qty_adds_live(o1, o2, k, n - 1, buy);
    }
}

/// Open quantity counts live orders only: an order that is neither
/// acknowledged nor partially filled (pending, dead, or any other status)
/// contributes nothing, whatever its quantities and side; making such an
/// order a live order on the counted side adds exactly its remaining
/// quantity, and a live order on the other side adds nothing.
pub proof fn law_open_qty_counts_live_orders(s1: AlgoState, s2: AlgoState, k: int, buy: bool)
    requires
        s1.order_ct == s2.order_ct,
        s1.order_ct <= MAX_ORDERS,
        0 <= k < s1.order_ct,
        forall|i: int| 0 <= i < MAX_ORDERS && i != k ==> s1.orders@[i] == s2.orders@[i],
        !s1.orders@[k].spec_is_live(),
    ensures
        !s2.orders@[k].spec_is_live() ==> open_qty(s2.orders@, s2.order_ct as int, buy)
            == open_qty(s1.orders@, s1.order_ct as int, buy),
        s2.orders@[k].spec_is_live() && (if buy { s2.orders@[k].side > 0 } else { s2.orders@[k].side < 0 })
            ==> open_qty(s2.orders@, s2.order_ct as int, buy)
            == open_qty(s1.orders@, s1.order_ct as int, buy) + s2.orders@[k].spec_remaining(),
        s2.orders@[k].spec_is_live() && !(if buy { s2.orders@[k].side > 0 } else { s2.orders@[k].side < 0 })
            ==> open_qty(s2.orders@, s2.order_ct as int, buy)
            == open_qty(s1.orders@, s1.order_ct as int, buy),
{
    let n = s1.order_ct as int;
    if !s2.orders@[k].spec_is_live() {
        lemma_open_qty_frame_non_live(s1.orders@, s2.orders@, k, n, buy);
    } else if (if buy { s2.orders@[k].side > 0 } else { s2.orders@[k].side < 0 }) {
        lemma_open_qty_adds_live(s1.orders@, s2.orders@, k, n, buy);
    } else {
        lemma_open_qty_other_side(s1.orders@, s2.orders@, k, n, buy);
    }
}

/// Replacing a non-live order by a live order on the side not counted leaves
/// the open quantity unchanged.
pub proof fn lemma_open_qty_other_side(o1: Seq<OpenOrder>, o2: Seq<OpenOrder>, k: int, n: int, buy: bool)
    requires
        o1.len() == o2.len(),
        0 <= k < o1.len(),
        forall|i: int| 0 <= i < o1.len() && i != k ==> o1[i] == o2[i],
        !o1[k].spec_is_live(),
        !(if buy { o2[k].side > 0 } else { o2[k].side < 0 }),
        n <= o1.len(),
    ensures
        open_qty(o2, n, buy) == open_qty(o1, n, buy),
    decreases n,
{
    if n > 0 {
        lemma_open_qty_other_side(o1, o2, k, n - 1, buy);
    }
}

/// Over a prefix without live orders the open quantity is 0.
pub proof fn lemma_open_qty_zero_without_live(orders: Seq<OpenOrder>, n: int, buy: bool)
    requires
        forall|i: int| 0 <= i < n ==> !(#[trigger] orders[i]).spec_is_live(),
    ensures
        open_qty(orders, n, buy) == 0,
    decreases n,
{
    if n > 0 {
        lemma_open_qty_zero_without_live(orders, n - 1, buy);
    }
}

/// With no live order among the valid ones, nothing is open on either side,
/// whatever the quantities of the pending and dead orders.
pub proof fn law_no_live_orders_nothing_open(state: AlgoState)
    requires
        forall|i: int| 0 <= i < state.order_ct ==> !(#[trigger] state.orders@[i]).spec_is_live(),
    ensures
        open_qty(state.orders@, state.order_ct as int, true) == 0,
        open_qty(state.orders@, state.order_ct as int, false) == 0,
{
    lemma_open_qty_zero_without_live(state.orders@, state.order_ct as int, true);
    lemma_open_qty_zero_without_live(state.orders@, state.order_ct as int, false);
}

/// Two order sequences that agree everywhere but at index `k`, where the
/// first is not live, differ in live count over a prefix by whether the
/// second is live at `k` (when `k` lies in the prefix).
pub proof fn lemma_live_count_change_at(o1: Seq<OpenOrder>, o2: Seq<OpenOrder>, k: int, n: int)
    requires
        o1.len() == o2.len(),
        0 <= k < o1.len(),
        forall|i: int| 0 <= i < o1.len() && i != k ==> o1[i] == o2[i],
        !o1[k].spec_is_live(),
        n <= o1.len(),
    ensures
        live_count(o2, n) == live_count(o1, n) + if k < n && o2[k].spec_is_live() { 1int } else { 0int },
    decreases n,
{
    if n > 0 {
        lemma_live_count_change_at(o1, o2, k, n - 1);
    }
}

/// The live count counts exactly the acknowledged and partially filled
/// orders: making a non-live valid order live raises it by one, and any
/// change among non-live orders leaves it unchanged.
pub proof fn law_live_count_counts_live_orders(s1: AlgoState, s2: AlgoState, k: int)
    requires
        s1.order_ct == s2.order_ct,
        s1.order_ct <= MAX_ORDERS,
        0 <= k < s1.order_ct,
        forall|i: int| 0 <= i < MAX_ORDERS && i != k ==> s1.orders@[i] == s2.orders@[i],
        !s1.orders@[k].spec_is_live(),
    ensures
        s2.orders@[k].spec_is_live() ==> live_count(s2.orders@, s2.order_ct as int)
            == live_count(s1.orders@, s1.order_ct as int) + 1,
        !s2.orders@[k].spec_is_live() ==> live_count(s2.orders@, s2.order_ct as int)
            == live_count(s1.orders@, s1.order_ct as int),
{
    lemma_live_count_change_at(s1.orders@, s2.orders@, k, s1.order_ct as int);
}

} // verus!
