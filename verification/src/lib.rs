//! Fixed-point market data, order state and action buffers for trading
//! algorithms, with every operation specified and proved.
#![allow(non_snake_case)]

pub mod actions;
pub mod algo;
pub mod book;
pub mod fill;
pub mod log;
pub mod reject;
pub mod state;
pub mod OrderType;
pub mod RejectCode;
pub mod time;
pub mod Status;

pub use fill::Fill;
pub use log::LogLevel;
pub use reject::Reject;
pub use algo::Algo;
pub use actions::{Action, Actions, WasmActions, MAX_ACTIONS};
pub use book::{L2Book, Level};
pub use state::{AlgoState, OpenOrder, PnlSnapshot, MAX_ORDERS};
