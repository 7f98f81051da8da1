//! Reject codes from the exchange and the risk engine.
use vstd::prelude::*;

verus! {

/// Unknown error.
pub const UNKNOWN: u8 = 0;

/// Insufficient balance or funds.
pub const INSUFFICIENT_BALANCE: u8 = 1;

/// Invalid parameters (price, quantity, symbol).
pub const INVALID_PARAMS: u8 = 2;

/// Exchange rate limit hit.
pub const RATE_LIMIT: u8 = 3;

/// Exchange temporarily unavailable.
pub const EXCHANGE_BUSY: u8 = 4;

/// Network error.
pub const NETWORK: u8 = 5;

/// Authentication error (invalid API key or secret).
pub const AUTH: u8 = 6;

/// Risk check failed (internal codes from the risk engine start at 100).
pub const RISK: u8 = 100;

/// Position limit exceeded.
pub const POSITION_LIMIT: u8 = 101;

/// Kill switch triggered.
pub const KILL_SWITCH: u8 = 102;

/// Fat finger: price deviates too far from the reference (best bid or ask).
pub const PRICE_DEVIATION: u8 = 103;

/// Daily PnL loss limit breached; the algo is paused.
pub const DAILY_LOSS_LIMIT: u8 = 104;

/// Human-readable name of a reject code; unlisted codes read "UNKNOWN".
pub open spec fn spec_to_str(code: u8) -> Seq<char> {
    if code == UNKNOWN {
        "UNKNOWN"@
    } else if code == INSUFFICIENT_BALANCE {
        "INSUFFICIENT_BALANCE"@
    } else if code == INVALID_PARAMS {
        "INVALID_PARAMS"@
    } else if code == RATE_LIMIT {
        "RATE_LIMIT"@
    } else if code == EXCHANGE_BUSY {
        "EXCHANGE_BUSY"@
    } else if code == NETWORK {
        "NETWORK"@
    } else if code == AUTH {
        "AUTH"@
    } else if code == RISK {
        "RISK_CHECK_FAILED"@
    } else if code == POSITION_LIMIT {
        "POSITION_LIMIT"@
    } else if code == KILL_SWITCH {
        "KILL_SWITCH"@
    } else if code == PRICE_DEVIATION {
        "PRICE_DEVIATION"@
    } else if code == DAILY_LOSS_LIMIT {
        "DAILY_LOSS_LIMIT"@
    } else {
        "UNKNOWN"@
    }
}

/// Human-readable description of a reject code.
pub fn to_str(code: u8) -> (r: &'static str)
    ensures
        r@ == spec_to_str(code),
{
    if code == UNKNOWN {
        "UNKNOWN"
    } else if code == INSUFFICIENT_BALANCE {
        "INSUFFICIENT_BALANCE"
    } else if code == INVALID_PARAMS {
        "INVALID_PARAMS"
    } else if code == RATE_LIMIT {
        "RATE_LIMIT"
    } else if code == EXCHANGE_BUSY {
        "EXCHANGE_BUSY"
    } else if code == NETWORK {
        "NETWORK"
    } else if code == AUTH {
        "AUTH"
    } else if code == RISK {
        "RISK_CHECK_FAILED"
    } else if code == POSITION_LIMIT {
        "POSITION_LIMIT"
    } else if code == KILL_SWITCH {
        "KILL_SWITCH"
    } else if code == PRICE_DEVIATION {
        "PRICE_DEVIATION"
    } else if code == DAILY_LOSS_LIMIT {
        "DAILY_LOSS_LIMIT"
    } else {
        "UNKNOWN"
    }
}

/// Every code outside the documented ones reads like `UNKNOWN`.
pub proof fn law_unlisted_codes_read_unknown(code: u8)
    requires
        !(code <= AUTH || (RISK <= code && code <= DAILY_LOSS_LIMIT)),
    ensures
        spec_to_str(code) == spec_to_str(UNKNOWN),
{
}

} // verus!
