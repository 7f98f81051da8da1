//! Order status codes.
use vstd::prelude::*;

verus! {

/// Sent, awaiting acknowledgement.
pub const PENDING: u8 = 0;

/// Acknowledged by the exchange.
pub const ACKED: u8 = 1;

/// Partially filled.
pub const PARTIAL: u8 = 2;

/// Filled, cancelled or rejected.
pub const DEAD: u8 = 3;

} // verus!
