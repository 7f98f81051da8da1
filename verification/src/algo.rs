use vstd::prelude::*;

use crate::actions::Actions;
use crate::book::L2Book;
use crate::fill::Fill;
use crate::reject::Reject;
use crate::state::AlgoState;

verus! {

/// Trading algorithm, implemented by strategies. Every method runs on the hot
/// path and should avoid heap allocation.
pub trait Algo: Send {
    /// Called on every book update: `book` is the L2 order book, `state` the
    /// position and open orders (server-managed), `actions` the buffer to
    /// place and cancel orders in.
    fn on_book(&mut self, book: &L2Book, state: &AlgoState, actions: &mut Actions);

    /// An order was filled.
    fn on_fill(&mut self, fill: &Fill, state: &AlgoState);

    /// An order was rejected.
    fn on_reject(&mut self, reject: &Reject);

    /// Shutdown: cancel open orders here.
    fn on_shutdown(&mut self, state: &AlgoState, actions: &mut Actions);
}

} // verus!
