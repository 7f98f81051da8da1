# Verified algo SDK

Types and buffers for fixed-point trading algorithms (prices times 10^9,
quantities times 10^8), written in Verus with every operation specified.

- `src/` — the verified library: the L2 book and its derived quantities
  (`book`), open orders and algo state (`state`), fills and timers (`fill`,
  `time`), reject codes (`RejectCode`, `reject`), the bounded action buffer
  and its wire format (`actions`), the `Algo` trait (`algo`), and the
  truncating log buffer (`log`).
- `app/` — the host side: logging through the host import, the WASM export
  macro, and the floating-point PnL views.
- `tests/` — executable tests of the library.
