//! Order types for execution semantics.
use vstd::prelude::*;

verus! {

/// Limit order: rests on the book until filled or cancelled (default).
pub const LIMIT: u8 = 0;

/// Market order: fills immediately at the best available price.
pub const MARKET: u8 = 1;

/// Immediate-or-cancel: fill what is available, cancel the rest.
pub const IOC: u8 = 2;

/// Fill-or-kill: fill the entire quantity or reject completely.
pub const FOK: u8 = 3;

/// Post-only: rests on the book, rejected if it would cross (maker only).
/// Venues without a native post-only reject it with `RejectCode::INVALID_PARAMS`.
pub const POST_ONLY: u8 = 4;

} // verus!
