//! The updates that wait for the snapshot of their symbol, one queue per
//! symbol, each in order of arrival.

use crate::objects::orderbook::{updated_all, OrderbookV1};
use crate::objects::orderbook_update::{OrderbookUpdateV1, UpdateView};
use crate::objects::symbol_table::SymbolTable;
use vstd::prelude::*;

verus! {

/// The queues of waiting updates, one per symbol.
pub struct UpdateQueues {
    waiting: SymbolTable<Vec<OrderbookUpdateV1>>,
}

/// The updates of a queue as mathematical values.
pub open spec fn views(queue: Seq<OrderbookUpdateV1>) -> Seq<UpdateView> {
    Seq::new(queue.len(), |i: int| queue[i]@)
}

/// The queues of a table as mathematical values.
pub open spec fn queue_views(queues: Map<Seq<char>, Vec<OrderbookUpdateV1>>) -> Map<
    Seq<char>,
    Seq<UpdateView>,
> {
    queues.map_values(|queue: Vec<OrderbookUpdateV1>| views(queue@))
}

/// The queues after `update` was appended to the queue of `symbol`; a
/// symbol without a queue gets one.
pub open spec fn queued(
    queues: Map<Seq<char>, Seq<UpdateView>>,
    symbol: Seq<char>,
    update: UpdateView,
) -> Map<Seq<char>, Seq<UpdateView>> {
    if queues.contains_key(symbol) {
        queues.insert(symbol, queues[symbol].push(update))
    } else {
        queues.insert(symbol, seq![update])
    }
}

/// The updates that wait for `symbol`, none where it has no queue.
pub open spec fn waiting(queues: Map<Seq<char>, Seq<UpdateView>>, symbol: Seq<char>) -> Seq<
    UpdateView,
> {
    if queues.contains_key(symbol) {
        queues[symbol]
    } else {
        Seq::empty()
    }
}

/// The queues after those of `symbol` were replayed: its queue, if it has
/// one, is empty.
pub open spec fn drained(queues: Map<Seq<char>, Seq<UpdateView>>, symbol: Seq<char>) -> Map<
    Seq<char>,
    Seq<UpdateView>,
> {
    if queues.contains_key(symbol) {
        queues.insert(symbol, Seq::empty())
    } else {
        queues
    }
}

impl UpdateQueues {
    /// The waiting updates by symbol.
    pub closed spec fn queues(&self) -> Map<Seq<char>, Seq<UpdateView>> {
        queue_views(self.waiting.entries())
    }

    pub fn new() -> (r: UpdateQueues)
        ensures
            r.queues() == Map::<Seq<char>, Seq<UpdateView>>::empty(),
    {
        let r = UpdateQueues { waiting: SymbolTable::new() };
        proof {
            assert(r.queues() =~= Map::<Seq<char>, Seq<UpdateView>>::empty());
        }
        r
    }

    /// Number of updates that wait for the symbol.
    pub fn len(&self, symbol: &str) -> (r: usize)
        ensures
            r == waiting(self.queues(), symbol@).len(),
    {
        match self.waiting.get(symbol) {
            Some(queue) => queue.len(),
            None => 0,
        }
    }

    /// Appends the update to the queue of the symbol; a symbol without a
    /// queue gets one.
    pub fn push(&mut self, symbol: &str, update: OrderbookUpdateV1)
        ensures
            final(self).queues() == queued(old(self).queues(), symbol@, update@),
    {
        proof {
            assert forall|queue: Vec<OrderbookUpdateV1>| #[trigger]
                queue_views(self.waiting.entries().insert(symbol@, queue)) == queue_views(
                    self.waiting.entries(),
                ).insert(symbol@, views(queue@)) by {
                assert(queue_views(self.waiting.entries().insert(symbol@, queue)) =~= queue_views(
                    self.waiting.entries(),
                ).insert(symbol@, views(queue@)));
            }
        }
        match self.waiting.get_mut(symbol) {
            Some(queue) => {
                let ghost was = queue@;
                queue.push(update);
                proof {
                    assert(views(queue@) =~= views(was).push(update@));
                }
            },
            None => {
                let mut queue: Vec<OrderbookUpdateV1> = Vec::new();
                queue.push(update);
                proof {
                    assert(views(queue@) =~= seq![update@]);
                }
                self.waiting.insert(symbol, queue);
            },
        }
    }

    /// Replays the updates that wait for the symbol against the book, in
    /// order of arrival, and empties the queue.
    pub fn replay_into(&mut self, symbol: &str, book: &mut OrderbookV1)
        ensures
            final(book)@ == updated_all(old(book)@, waiting(old(self).queues(), symbol@)),
            final(self).queues() == drained(old(self).queues(), symbol@),
    {
        proof {
            assert forall|queue: Vec<OrderbookUpdateV1>| #[trigger]
                queue_views(self.waiting.entries().insert(symbol@, queue)) == queue_views(
                    self.waiting.entries(),
                ).insert(symbol@, views(queue@)) by {
                assert(queue_views(self.waiting.entries().insert(symbol@, queue)) =~= queue_views(
                    self.waiting.entries(),
                ).insert(symbol@, views(queue@)));
            }
        }
        match self.waiting.get_mut(symbol) {
            Some(queue) => {
                let ghost replayed = views(queue@);
                let mut k: usize = 0;
                while k < queue.len()
                    invariant
                        k <= queue.len(),
                        replayed == views(queue@),
                        book@ == updated_all(old(book)@, replayed.take(k as int)),
                    decreases queue.len() - k,
                {
                    proof {
                        assert(replayed.take(k + 1).drop_last() =~= replayed.take(k as int));
                    }
                    book.update(&queue[k]);
                    k = k + 1;
                }
                proof {
                    assert(replayed.take(queue.len() as int) =~= replayed);
                }
                queue.clear();
                proof {
                    assert(views(queue@) =~= Seq::<UpdateView>::empty());
                }
            },
            None => {},
        }
    }
}

} // verus!
