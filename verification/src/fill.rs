use vstd::prelude::*;

verus! {

/// `later - earlier`, or 0 when `later` comes first.
pub open spec fn elapsed_ns(earlier: u64, later: u64) -> u64 {
    if later >= earlier { (later - earlier) as u64 } else { 0 }
}

/// Fill event.
#[derive(Debug, Clone, Copy)]
pub struct Fill {
    pub order_id: u64,
    pub px_1e9: u64,
    pub qty_1e8: i64,
    /// Timestamp when the fill was received.
    pub recv_ns: u64,
    pub side: i8,
    pub _pad: [u8; 7],
}

impl Fill {
    /// Nanoseconds from `start_ns` to the fill's receive time, 0 if the fill
    /// was received earlier.
    pub fn since_ns(&self, start_ns: u64) -> (r: u64)
        ensures
            r == elapsed_ns(start_ns, self.recv_ns),
    {
        self.recv_ns.saturating_sub(start_ns)
    }

    /// Whole microseconds from `start_ns` to the fill's receive time.
    pub fn since_us(&self, start_ns: u64) -> (r: u64)
        ensures
            r == elapsed_ns(start_ns, self.recv_ns) / 1000,
    {
        self.since_ns(start_ns) / 1_000
    }

    /// Whole milliseconds from `start_ns` to the fill's receive time.
    pub fn since_ms(&self, start_ns: u64) -> (r: u64)
        ensures
            r == elapsed_ns(start_ns, self.recv_ns) / 1_000_000,
    {
        self.since_ns(start_ns) / 1_000_000
    }
}

} // verus!
