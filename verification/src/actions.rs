use vstd::prelude::*;

use crate::state::{lemma_live_count_bounds, live_count, AlgoState, MAX_ORDERS, OpenOrder};
use crate::OrderType;

verus! {

/// Order action (place or cancel).
#[derive(Debug, Clone, Copy)]
pub struct Action {
    pub order_id: u64,
    pub px_1e9: u64,
    pub qty_1e8: i64,
    /// 1 to buy, -1 to sell, 0 for a cancel.
    pub side: i8,
    pub is_cancel: u8,
    /// One of the codes of `OrderType`.
    pub order_type: u8,
    pub _pad: [u8; 5],
}

/// Max actions per callback.
pub const MAX_ACTIONS: usize = 16;

/// Five zero bytes of padding.
pub open spec fn zero_pad() -> [u8; 5] {
    vstd::array::spec_array_fill_for_copy_type::<u8, 5>(0u8)
}

/// The action that places an order.
pub open spec fn place_action(order_id: u64, side: i8, qty_1e8: i64, px_1e9: u64, order_type: u8) -> Action {
    Action { order_id, px_1e9, qty_1e8, side, is_cancel: 0, order_type, _pad: zero_pad() }
}

/// The action that cancels order `order_id`.
pub open spec fn cancel_action(order_id: u64) -> Action {
    Action { order_id, px_1e9: 0, qty_1e8: 0, side: 0, is_cancel: 1, order_type: 0, _pad: zero_pad() }
}

/// The all-zero action, a no-op.
pub open spec fn blank_action() -> Action {
    Action { order_id: 0, px_1e9: 0, qty_1e8: 0, side: 0, is_cancel: 0, order_type: 0, _pad: zero_pad() }
}

/// Cancels of the live orders among the first `n` of `orders`, in order.
pub open spec fn live_cancels(orders: Seq<OpenOrder>, n: int) -> Seq<Action>
    decreases n,
{
    if n <= 0 {
        Seq::empty()
    } else if orders[n - 1].spec_is_live() {
        live_cancels(orders, n - 1).push(cancel_action(orders[n - 1].order_id))
    } else {
        live_cancels(orders, n - 1)
    }
}

/// The first `room` elements of `s`, or all of `s` when it is shorter.
pub open spec fn at_most(s: Seq<Action>, room: int) -> Seq<Action> {
    if s.len() <= room { s } else { s.take(room) }
}

/// The blank action.
impl Default for Action {
    fn default() -> (r: Action)
        ensures
            r == blank_action(),
    {
        Action { order_id: 0, px_1e9: 0, qty_1e8: 0, side: 0, is_cancel: 0, order_type: 0, _pad: [0u8; 5] }
    }
}

/// Actions buffer: the orders and cancels to send, at most `MAX_ACTIONS`.
pub struct Actions {
    actions: [Action; MAX_ACTIONS],
    len: usize,
}

impl View for Actions {
    type V = Seq<Action>;

    /// The queued actions, oldest first.
    closed spec fn view(&self) -> Seq<Action> {
        self.actions@.take(self.len as int)
    }
}

impl Actions {
    #[verifier::type_invariant]
    spec fn within_capacity(self) -> bool {
        self.len <= MAX_ACTIONS
    }

    /// An empty buffer.
    pub fn new() -> (r: Actions)
        ensures
            r@ == Seq::<Action>::empty(),
    {
        let blank = Action { order_id: 0, px_1e9: 0, qty_1e8: 0, side: 0, is_cancel: 0, order_type: 0, _pad: [0u8; 5] };
        Actions { actions: [blank; MAX_ACTIONS], len: 0 }
    }

    /// Drop every queued action.
    pub fn clear(&mut self)
        ensures
            final(self)@ == Seq::<Action>::empty(),
    {
        self.len = 0;
    }

    /// Number of queued actions; never more than `MAX_ACTIONS`.
    pub fn len(&self) -> (r: usize)
        ensures
            r == self@.len(),
            r <= MAX_ACTIONS,
    {
        proof {
            use_type_invariant(self);
        }
        self.len
    }

    /// No action is queued.
    pub fn is_empty(&self) -> (r: bool)
        ensures
            r == (self@.len() == 0),
    {
        proof {
            use_type_invariant(self);
        }
        self.len == 0
    }

    /// The buffer holds `MAX_ACTIONS` actions; placing more fails.
    pub fn is_full(&self) -> (r: bool)
        ensures
            r == (self@.len() >= MAX_ACTIONS),
    {
        proof {
            use_type_invariant(self);
        }
        self.len >= MAX_ACTIONS
    }

    /// Queue an order of type `order_type`; false, with nothing queued, when full.
    pub fn order_typed(&mut self, order_id: u64, side: i8, qty_1e8: i64, px_1e9: u64, order_type: u8) -> (r: bool)
        ensures
            r == (old(self)@.len() < MAX_ACTIONS),
            r ==> final(self)@ == old(self)@.push(place_action(order_id, side, qty_1e8, px_1e9, order_type)),
            !r ==> final(self)@ == old(self)@,
            final(self)@.len() <= MAX_ACTIONS,
    {
        proof {
            use_type_invariant(&*self);
        }
        if self.len >= MAX_ACTIONS {
            return false;
        }
        let ghost before = self@;
        let i = self.len;
        self.actions[i] = Action { order_id, px_1e9, qty_1e8, side, is_cancel: 0, order_type, _pad: [0u8; 5] };
        self.len = i + 1;
        assert(self@ =~= before.push(place_action(order_id, side, qty_1e8, px_1e9, order_type)));
        true
    }

    /// Queue a limit buy (good till cancelled). False, with nothing queued, when full.
    pub fn buy(&mut self, order_id: u64, qty_1e8: i64, px_1e9: u64) -> (r: bool)
        ensures
            r == (old(self)@.len() < MAX_ACTIONS),
            r ==> final(self)@ == old(self)@.push(place_action(order_id, 1i8, qty_1e8, px_1e9, OrderType::LIMIT)),
            !r ==> final(self)@ == old(self)@,
            final(self)@.len() <= MAX_ACTIONS,
    {
        self.order_typed(order_id, 1, qty_1e8, px_1e9, OrderType::LIMIT)
    }

    /// Queue a limit sell (good till cancelled). False, with nothing queued, when full.
    pub fn sell(&mut self, order_id: u64, qty_1e8: i64, px_1e9: u64) -> (r: bool)
        ensures
            r == (old(self)@.len() < MAX_ACTIONS),
            r ==> final(self)@ == old(self)@.push(place_action(order_id, -1i8, qty_1e8, px_1e9, OrderType::LIMIT)),
            !r ==> final(self)@ == old(self)@,
            final(self)@.len() <= MAX_ACTIONS,
    {
        self.order_typed(order_id, -1, qty_1e8, px_1e9, OrderType::LIMIT)
    }

    /// Queue a limit order on `side` (1 to buy, -1 to sell). False, with
    /// nothing queued, when full.
    pub fn order(&mut self, order_id: u64, side: i8, qty_1e8: i64, px_1e9: u64) -> (r: bool)
        ensures
            r == (old(self)@.len() < MAX_ACTIONS),
            r ==> final(self)@ == old(self)@.push(place_action(order_id, side, qty_1e8, px_1e9, OrderType::LIMIT)),
            !r ==> final(self)@ == old(self)@,
            final(self)@.len() <= MAX_ACTIONS,
    {
        self.order_typed(order_id, side, qty_1e8, px_1e9, OrderType::LIMIT)
    }

    /// Queue a market buy (fills immediately at the best price). False, with nothing queued, when full.
    pub fn market_buy(&mut self, order_id: u64, qty_1e8: i64) -> (r: bool)
        ensures
            r == (old(self)@.len() < MAX_ACTIONS),
            r ==> final(self)@ == old(self)@.push(place_action(order_id, 1i8, qty_1e8, 0, OrderType::MARKET)),
            !r ==> final(self)@ == old(self)@,
            final(self)@.len() <= MAX_ACTIONS,
    {
        self.order_typed(order_id, 1, qty_1e8, 0, OrderType::MARKET)
    }

    /// Queue a market sell (fills immediately at the best price). False, with nothing queued, when full.
    pub fn market_sell(&mut self, order_id: u64, qty_1e8: i64) -> (r: bool)
        ensures
            r == (old(self)@.len() < MAX_ACTIONS),
            r ==> final(self)@ == old(self)@.push(place_action(order_id, -1i8, qty_1e8, 0, OrderType::MARKET)),
            !r ==> final(self)@ == old(self)@,
            final(self)@.len() <= MAX_ACTIONS,
    {
        self.order_typed(order_id, -1, qty_1e8, 0, OrderType::MARKET)
    }

    /// Queue an immediate-or-cancel buy. False, with nothing queued, when full.
    pub fn ioc_buy(&mut self, order_id: u64, qty_1e8: i64, px_1e9: u64) -> (r: bool)
        ensures
            r == (old(self)@.len() < MAX_ACTIONS),
            r ==> final(self)@ == old(self)@.push(place_action(order_id, 1i8, qty_1e8, px_1e9, OrderType::IOC)),
            !r ==> final(self)@ == old(self)@,
            final(self)@.len() <= MAX_ACTIONS,
    {
        self.order_typed(order_id, 1, qty_1e8, px_1e9, OrderType::IOC)
    }

    /// Queue an immediate-or-cancel sell. False, with nothing queued, when full.
    pub fn ioc_sell(&mut self, order_id: u64, qty_1e8: i64, px_1e9: u64) -> (r: bool)
        ensures
            r == (old(self)@.len() < MAX_ACTIONS),
            r ==> final(self)@ == old(self)@.push(place_action(order_id, -1i8, qty_1e8, px_1e9, OrderType::IOC)),
            !r ==> final(self)@ == old(self)@,
            final(self)@.len() <= MAX_ACTIONS,
    {
        self.order_typed(order_id, -1, qty_1e8, px_1e9, OrderType::IOC)
    }

    /// Queue a fill-or-kill buy. False, with nothing queued, when full.
    pub fn fok_buy(&mut self, order_id: u64, qty_1e8: i64, px_1e9: u64) -> (r: bool)
        ensures
            r == (old(self)@.len() < MAX_ACTIONS),
            r ==> final(self)@ == old(self)@.push(place_action(order_id, 1i8, qty_1e8, px_1e9, OrderType::FOK)),
            !r ==> final(self)@ == old(self)@,
            final(self)@.len() <= MAX_ACTIONS,
    {
        self.order_typed(order_id, 1, qty_1e8, px_1e9, OrderType::FOK)
    }

    /// Queue a fill-or-kill sell. False, with nothing queued, when full.
    pub fn fok_sell(&mut self, order_id: u64, qty_1e8: i64, px_1e9: u64) -> (r: bool)
        ensures
            r == (old(self)@.len() < MAX_ACTIONS),
            r ==> final(self)@ == old(self)@.push(place_action(order_id, -1i8, qty_1e8, px_1e9, OrderType::FOK)),
            !r ==> final(self)@ == old(self)@,
            final(self)@.len() <= MAX_ACTIONS,
    {
        self.order_typed(order_id, -1, qty_1e8, px_1e9, OrderType::FOK)
    }

    /// Queue a post-only buy (maker only, rejected if it would cross). False, with nothing queued, when full.
    pub fn post_only_buy(&mut self, order_id: u64, qty_1e8: i64, px_1e9: u64) -> (r: bool)
        ensures
            r == (old(self)@.len() < MAX_ACTIONS),
            r ==> final(self)@ == old(self)@.push(place_action(order_id, 1i8, qty_1e8, px_1e9, OrderType::POST_ONLY)),
            !r ==> final(self)@ == old(self)@,
            final(self)@.len() <= MAX_ACTIONS,
    {
        self.order_typed(order_id, 1, qty_1e8, px_1e9, OrderType::POST_ONLY)
    }

    /// Queue a post-only sell (maker only, rejected if it would cross). False, with nothing queued, when full.
    pub fn post_only_sell(&mut self, order_id: u64, qty_1e8: i64, px_1e9: u64) -> (r: bool)
        ensures
            r == (old(self)@.len() < MAX_ACTIONS),
            r ==> final(self)@ == old(self)@.push(place_action(order_id, -1i8, qty_1e8, px_1e9, OrderType::POST_ONLY)),
            !r ==> final(self)@ == old(self)@,
            final(self)@.len() <= MAX_ACTIONS,
    {
        self.order_typed(order_id, -1, qty_1e8, px_1e9, OrderType::POST_ONLY)
    }

    /// Queue a cancel of order `order_id`; false, with nothing queued, when full.
    pub fn cancel(&mut self, order_id: u64) -> (r: bool)
        ensures
            r == (old(self)@.len() < MAX_ACTIONS),
            r ==> final(self)@ == old(self)@.push(cancel_action(order_id)),
            !r ==> final(self)@ == old(self)@,
            final(self)@.len() <= MAX_ACTIONS,
    {
        proof {
            use_type_invariant(&*self);
        }
        if self.len >= MAX_ACTIONS {
            return false;
        }
        let ghost before = self@;
        let i = self.len;
        self.actions[i] = Action { order_id, px_1e9: 0, qty_1e8: 0, side: 0, is_cancel: 1, order_type: 0, _pad: [0u8; 5] };
        self.len = i + 1;
        assert(self@ =~= before.push(cancel_action(order_id)));
        true
    }

    /// Queue a cancel for each live order of `state`, in order, while there
    /// is room in the buffer.
    pub fn cancel_all(&mut self, state: &AlgoState)
        requires
            state.order_ct_fits(),
        ensures
            final(self)@ == old(self)@ + at_most(
                live_cancels(state.orders@, state.order_ct as int),
                MAX_ACTIONS - old(self)@.len(),
            ),
            final(self)@.len() <= MAX_ACTIONS,
    {
        proof {
            use_type_invariant(&*self);
        }
        let ghost before = self@;
        let ghost room = MAX_ACTIONS - before.len();
        let n = state.order_ct as usize;
        let mut i: usize = 0;
        assert(before + at_most(live_cancels(state.orders@, 0), room) =~= before);
        while i < n
            invariant
                n == state.order_ct,
                n <= MAX_ORDERS,
                i <= n,
                room == MAX_ACTIONS - before.len(),
                0 <= room,
                self@ == before + at_most(live_cancels(state.orders@, i as int), room),
            decreases n - i,
        {
            proof {
                use_type_invariant(&*self);
            }
            let ghost prev = live_cancels(state.orders@, i as int);
            let o = &state.orders[i];
            if o.is_live() && self.len < MAX_ACTIONS {
                self.cancel(o.order_id);
                assert(at_most(live_cancels(state.orders@, i + 1), room)
                    =~= at_most(prev, room).push(cancel_action(o.order_id)));
            } else if o.is_live() {
                assert(self@.len() == before.len() + at_most(prev, room).len());
                assert(prev.len() >= room);
                assert(at_most(live_cancels(state.orders@, i + 1), room) =~= at_most(prev, room));
            }
            i = i + 1;
        }
        proof {
            use_type_invariant(&*self);
        }
    }

    /// Blank the action at `idx` (a no-op from then on) when `idx` is queued;
    /// the risk engine uses this to neutralize rejected actions in place.
    pub fn clear_at(&mut self, idx: usize)
        ensures
            idx < old(self)@.len() ==> final(self)@ == old(self)@.update(idx as int, blank_action()),
            idx >= old(self)@.len() ==> final(self)@ == old(self)@,
            final(self)@.len() <= MAX_ACTIONS,
    {
        proof {
            use_type_invariant(&*self);
        }
        if idx < self.len {
            let ghost before = self@;
            self.actions[idx] = Action { order_id: 0, px_1e9: 0, qty_1e8: 0, side: 0, is_cancel: 0, order_type: 0, _pad: [0u8; 5] };
            assert(self@ =~= before.update(idx as int, blank_action()));
        }
    }

    /// The action at `idx`, when queued.
    pub fn get(&self, idx: usize) -> (r: Option<&Action>)
        ensures
            r == (if idx < self@.len() { Some(&self@[idx as int]) } else { None }),
    {
        proof {
            use_type_invariant(self);
        }
        if idx < self.len {
            Some(&self.actions[idx])
        } else {
            None
        }
    }

    /// The queued actions, oldest first, as a slice.
    pub fn iter(&self) -> (r: &[Action])
        ensures
            r@ == self@,
    {
        proof {
            use_type_invariant(self);
        }
        vstd::slice::slice_subrange(self.actions.as_slice(), 0, self.len)
    }
}

/// An empty buffer.
impl Default for Actions {
    fn default() -> (r: Actions)
        ensures
            r@ == Seq::<Action>::empty(),
    {
        Actions::new()
    }
}

/// Wire format of an actions buffer: a count and a fixed array.
pub struct WasmActions {
    pub count: u32,
    pub _pad: u32,
    pub actions: [Action; MAX_ACTIONS],
}

impl WasmActions {
    /// An empty wire buffer: count 0, every action blank.
    pub fn new() -> (r: WasmActions)
        ensures
            r.count == 0,
            r._pad == 0,
            forall|i: int| 0 <= i < MAX_ACTIONS ==> #[trigger] r.actions@[i] == blank_action(),
    {
        let blank = Action { order_id: 0, px_1e9: 0, qty_1e8: 0, side: 0, is_cancel: 0, order_type: 0, _pad: [0u8; 5] };
        WasmActions { count: 0, _pad: 0, actions: [blank; MAX_ACTIONS] }
    }

    /// Copy the queued actions of `actions` to the front of the wire buffer
    /// and set the count; entries past the count keep their old contents.
    pub fn from_actions(&mut self, actions: &Actions)
        ensures
            final(self).count == actions@.len(),
            final(self)._pad == old(self)._pad,
            final(self).actions@.take(actions@.len() as int) == actions@,
            final(self).actions@.skip(actions@.len() as int) == old(self).actions@.skip(actions@.len() as int),
    {
        proof {
            use_type_invariant(actions);
        }
        let n = actions.len();
        self.count = n as u32;
        let mut i: usize = 0;
        while i < n
            invariant
                n == actions@.len(),
                n == actions.len,
                n <= MAX_ACTIONS,
                i <= n,
                self.count == n,
                self._pad == old(self)._pad,
                forall|j: int| 0 <= j < i ==> #[trigger] self.actions@[j] == actions@[j],
                forall|j: int| i <= j < MAX_ACTIONS ==> #[trigger] self.actions@[j] == old(self).actions@[j],
            decreases n - i,
        {
            assert(actions@[i as int] == actions.actions@[i as int]);
            self.actions[i] = actions.actions[i];
            i = i + 1;
        }
        assert(self.actions@.take(n as int) =~= actions@);
        assert(self.actions@.skip(n as int) =~= old(self).actions@.skip(n as int));
    }
}

/// The cancels that `cancel_all` queues are one per live order: as many as
/// `live_order_count` reports.
pub proof fn lemma_live_cancels_len(orders: Seq<OpenOrder>, n: int)
    ensures
        live_cancels(orders, n).len() == if n <= 0 { 0 } else { live_count(orders, n) },
    decreases n,
{
    if n > 0 {
        lemma_live_cancels_len(orders, n - 1);
    }
}

/// Every action that `cancel_all` queues cancels a live order of the state.
pub proof fn lemma_live_cancels_cancel_live(orders: Seq<OpenOrder>, n: int, k: int)
    requires
        0 <= k < live_cancels(orders, n).len(),
    ensures
        exists|i: int|
            0 <= i < n && (#[trigger] orders[i]).spec_is_live()
                && live_cancels(orders, n)[k] == cancel_action(orders[i].order_id),
    decreases n,
{
    if n > 0 && k < live_cancels(orders, n - 1).len() {
        lemma_live_cancels_cancel_live(orders, n - 1, k);
    }
}

/// `cancel_all` queues only cancels of live orders of the state; when the
/// buffer has room for all of them it queues exactly one per live order,
/// otherwise it fills the buffer.
#[verifier::spinoff_prover]
pub proof fn law_cancel_all_cancels_live_orders(before: Seq<Action>, after: Seq<Action>, state: AlgoState)
    requires
        before.len() <= MAX_ACTIONS,
        after == before + at_most(
            live_cancels(state.orders@, state.order_ct as int),
            MAX_ACTIONS - before.len(),
        ),
    ensures
        after.subrange(0, before.len() as int) == before,
        forall|k: int|
            before.len() <= k < after.len() ==> (#[trigger] after[k]).is_cancel == 1 && exists|i: int|
                0 <= i < state.order_ct && (#[trigger] state.orders@[i]).spec_is_live()
                    && after[k] == cancel_action(state.orders@[i].order_id),
        before.len() + live_count(state.orders@, state.order_ct as int) <= MAX_ACTIONS
            ==> after.len() == before.len() + live_count(state.orders@, state.order_ct as int),
        before.len() + live_count(state.orders@, state.order_ct as int) > MAX_ACTIONS
            ==> after.len() == MAX_ACTIONS,
{
    let n = state.order_ct as int;
    let c = live_cancels(state.orders@, n);
    let room: int = MAX_ACTIONS - before.len();
    let capped = at_most(c, room);
    lemma_live_cancels_len(state.orders@, n);
    lemma_live_count_bounds(state.orders@, n);
    assert(c.len() == live_count(state.orders@, n));
    assert(capped.len() == if c.len() <= room { c.len() as int } else { room });
    assert(after.len() == before.len() + capped.len());
    assert(after.subrange(0, before.len() as int) =~= before);
    assert forall|k: int| before.len() <= k < after.len() implies (#[trigger] after[k]).is_cancel == 1
        && exists|i: int|
            0 <= i < state.order_ct && (#[trigger] state.orders@[i]).spec_is_live()
                && after[k] == cancel_action(state.orders@[i].order_id) by {
        let j = k - before.len();
        assert(0 <= j < capped.len());
        assert(j < c.len());
        assert(after[k] == capped[j]);
        assert(capped[j] == c[j]);
        lemma_live_cancels_cancel_live(state.orders@, n, j);
        let i = choose|i: int|
            0 <= i < n && (#[trigger] state.orders@[i]).spec_is_live()
                && c[j] == cancel_action(state.orders@[i].order_id);
        assert(0 <= i < state.order_ct && state.orders@[i].spec_is_live()
            && after[k] == cancel_action(state.orders@[i].order_id));
        assert(after[k].is_cancel == 1);
    }
}

/// Placing an order on a buffer that is not full keeps what was queued and
/// puts the new action at the end, where `get` finds it.
pub proof fn law_place_then_get(before: Seq<Action>, after: Seq<Action>, action: Action)
    requires
        before.len() < MAX_ACTIONS,
        after == before.push(action),
    ensures
        after.len() == before.len() + 1,
        after.len() <= MAX_ACTIONS,
        after[before.len() as int] == action,
        forall|i: int| 0 <= i < before.len() ==> after[i] == before[i],
{
}

/// A placement queues the caller's fields unchanged: after a successful
/// placement the last queued action carries exactly the given order id,
/// side, quantity, price and order type, and is not a cancel.
pub proof fn law_placement_queues_arguments(
    before: Seq<Action>,
    after: Seq<Action>,
    order_id: u64,
    side: i8,
    qty_1e8: i64,
    px_1e9: u64,
    order_type: u8,
)
    requires
        after == before.push(place_action(order_id, side, qty_1e8, px_1e9, order_type)),
    ensures
        after.len() == before.len() + 1,
        after.last().order_id == order_id,
        after.last().side == side,
        after.last().qty_1e8 == qty_1e8,
        after.last().px_1e9 == px_1e9,
        after.last().order_type == order_type,
        after.last().is_cancel == 0,
        after.last()._pad@ == seq![0u8; 5],
{
}

/// A cancel queues the order id with every other field zero and the cancel
/// flag set.
pub proof fn law_cancel_queues_order_id(before: Seq<Action>, after: Seq<Action>, order_id: u64)
    requires
        after == before.push(cancel_action(order_id)),
    ensures
        after.len() == before.len() + 1,
        after.last().order_id == order_id,
        after.last().is_cancel == 1,
        after.last().side == 0,
        after.last().qty_1e8 == 0,
        after.last().px_1e9 == 0,
        after.last().order_type == 0,
        after.last()._pad@ == seq![0u8; 5],
{
}

} // verus!
