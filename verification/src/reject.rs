use vstd::prelude::*;

use crate::RejectCode;

verus! {

/// Reject event.
#[derive(Debug, Clone, Copy)]
pub struct Reject {
    pub order_id: u64,
    /// One of the codes of `RejectCode`.
    pub code: u8,
    pub _pad: [u8; 7],
}

impl Reject {
    /// Human-readable description of the reject reason.
    pub fn reason(&self) -> (r: &'static str)
        ensures
            r@ == RejectCode::spec_to_str(self.code),
    {
        RejectCode::to_str(self.code)
    }
}

} // verus!
