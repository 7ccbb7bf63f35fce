//! The dispatch queue: an unbounded, ordered hand-off between the inbound
//! relay loop (its only producer) and the persistence worker (its only
//! consumer).

use std::collections::VecDeque;
use vstd::prelude::*;

verus! {

/// Mathematical state of a dispatch queue: the entries still waiting, oldest
/// first, and whether the producer may still add to them.
pub ghost struct QueueState<T> {
    pub items: Seq<T>,
    pub open: bool,
}

/// What the consumer finds when it asks for the next entry.
#[derive(Clone, Debug, PartialEq, Eq)]
pub enum Polled<T> {
    /// The oldest waiting entry, now removed from the queue.
    Item(T),
    /// Nothing is waiting, but the producer may still push.
    Empty,
    /// Nothing is waiting and the producer has finished.
    Closed,
}

impl<T> QueueState<T> {
    /// An open queue with nothing waiting.
    pub open spec fn empty() -> Self {
        QueueState { items: Seq::empty(), open: true }
    }

    /// The state after the producer offers `item`: appended at the back while
    /// the queue is open, turned away once it is closed.
    pub open spec fn push(self, item: T) -> Self {
        if self.open {
            QueueState { items: self.items.push(item), open: true }
        } else {
            self
        }
    }

    /// The state after the consumer asks for the next entry.
    pub open spec fn pop(self) -> Self {
        if self.items.len() > 0 {
            QueueState { items: self.items.drop_first(), open: self.open }
        } else {
            self
        }
    }

    /// What the consumer is handed when it asks for the next entry. A closed
    /// queue is reported as such only once nothing is left in it.
    pub open spec fn front(self) -> Polled<T> {
        if self.items.len() > 0 {
            Polled::Item(self.items.first())
        } else if self.open {
            Polled::Empty
        } else {
            Polled::Closed
        }
    }

    /// The state after the producer finishes: the waiting entries stay.
    pub open spec fn close(self) -> Self {
        QueueState { items: self.items, open: false }
    }
}

/// One operation on a dispatch queue, as its two users may issue them in any
/// interleaving.
pub ghost enum QueueOp<T> {
    /// The producer offers an entry.
    Push(T),
    /// The consumer asks for the next entry.
    Pop,
    /// The producer finishes.
    Close,
}

impl<T> QueueState<T> {
    /// The state after one operation.
    pub open spec fn apply(self, op: QueueOp<T>) -> Self {
        match op {
            QueueOp::Push(item) => self.push(item),
            QueueOp::Pop => self.pop(),
            QueueOp::Close => self.close(),
        }
    }

    /// The state after a sequence of operations, applied first to last.
    pub open spec fn run(self, ops: Seq<QueueOp<T>>) -> Self
        decreases ops.len(),
    {
        if ops.len() == 0 {
            self
        } else {
            self.run(ops.drop_last()).apply(ops.last())
        }
    }

    /// The entries that the queue took in during `ops`, in the order in which
    /// they were pushed. A push onto a closed queue takes nothing in.
    pub open spec fn taken_in(self, ops: Seq<QueueOp<T>>) -> Seq<T>
        decreases ops.len(),
    {
        if ops.len() == 0 {
            Seq::empty()
        } else {
            let earlier = self.taken_in(ops.drop_last());
            match ops.last() {
                QueueOp::Push(item) => if self.run(ops.drop_last()).open {
                    earlier.push(item)
                } else {
                    earlier
                },
                _ => earlier,
            }
        }
    }

    /// The entries that the consumer was handed during `ops`, in the order in
    /// which it received them.
    pub open spec fn handed_out(self, ops: Seq<QueueOp<T>>) -> Seq<T>
        decreases ops.len(),
    {
        if ops.len() == 0 {
            Seq::empty()
        } else {
            let earlier = self.handed_out(ops.drop_last());
            match ops.last() {
                QueueOp::Pop => match self.run(ops.drop_last()).front() {
                    Polled::Item(item) => earlier.push(item),
                    _ => earlier,
                },
                _ => earlier,
            }
        }
    }
}

/// The queue never reorders, drops or repeats an entry, however pushes, pops
/// and the close are interleaved: what was waiting at the start followed by
/// what was taken in since is, entry for entry, what has been handed out
/// followed by what is still waiting.
pub proof fn lemma_queue_is_fifo<T>(start: QueueState<T>, ops: Seq<QueueOp<T>>)
    ensures
        start.items + start.taken_in(ops) == start.handed_out(ops) + start.run(ops).items,
    decreases ops.len(),
{
    if ops.len() == 0 {
        assert(start.items + start.taken_in(ops) =~= start.handed_out(ops) + start.run(ops).items);
    } else {
        let before = start.run(ops.drop_last());
        let taken = start.taken_in(ops.drop_last());
        let handed = start.handed_out(ops.drop_last());
        lemma_queue_is_fifo(start, ops.drop_last());
        match ops.last() {
            QueueOp::Push(item) => {
                if before.open {
                    assert(start.items + taken.push(item) =~= (start.items + taken).push(item));
                    assert(handed + before.items.push(item) =~= (handed + before.items).push(item));
                }
            },
            QueueOp::Pop => {
                if before.items.len() > 0 {
                    assert(handed.push(before.items.first()) + before.items.drop_first()
                        =~= handed + before.items);
                }
            },
            QueueOp::Close => {},
        }
    }
}

/// On a queue that starts empty, the consumer's k-th entry is the producer's
/// k-th accepted push.
pub proof fn lemma_pops_follow_pushes<T>(ops: Seq<QueueOp<T>>, k: int)
    requires
        0 <= k < QueueState::<T>::empty().handed_out(ops).len(),
    ensures
        k < QueueState::<T>::empty().taken_in(ops).len(),
        QueueState::<T>::empty().handed_out(ops)[k] == QueueState::<T>::empty().taken_in(ops)[k],
{
    let start = QueueState::<T>::empty();
    lemma_queue_is_fifo(start, ops);
    assert(start.items + start.taken_in(ops) =~= start.taken_in(ops));
    assert((start.handed_out(ops) + start.run(ops).items)[k] == start.handed_out(ops)[k]);
}

/// Unbounded first-in, first-out queue between one producer and one consumer.
///
/// The producer pushes and finally closes; the consumer pops. Closing never
/// discards entries: the consumer sees `Closed` only after it has taken
/// everything that was pushed before the close.
#[derive(Debug)]
pub struct DispatchQueue<T> {
    items: VecDeque<T>,
    open: bool,
}

impl<T> View for DispatchQueue<T> {
    type V = QueueState<T>;

    closed spec fn view(&self) -> QueueState<T> {
        QueueState { items: self.items@, open: self.open }
    }
}

impl<T> DispatchQueue<T> {
    /// Creates an open queue with nothing waiting.
    pub fn new() -> (queue: Self)
        ensures
            queue@ == QueueState::<T>::empty(),
    {
        DispatchQueue { items: VecDeque::new(), open: true }
    }

    /// Appends `item` behind everything already waiting. A closed queue takes
    /// nothing more and hands the item back.
    pub fn push(&mut self, item: T) -> (result: Result<(), T>)
        ensures
            final(self)@ == old(self)@.push(item),
            old(self)@.open ==> result == Ok::<(), T>(()),
            !old(self)@.open ==> result == Err::<(), T>(item),
    {
        if self.open {
            self.items.push_back(item);
            Ok(())
        } else {
            Err(item)
        }
    }

    /// Removes and returns the oldest waiting entry, or says why there is
    /// none: the queue is momentarily empty, or closed and drained.
    pub fn pop(&mut self) -> (polled: Polled<T>)
        ensures
            polled == old(self)@.front(),
            final(self)@ == old(self)@.pop(),
    {
        match self.items.pop_front() {
            Some(item) => {
                assert(self.items@ =~= old(self).items@.drop_first());
                Polled::Item(item)
            },
            None => {
                if self.open {
                    Polled::Empty
                } else {
                    Polled::Closed
                }
            },
        }
    }

    /// Ends production. Entries already waiting remain for the consumer.
    pub fn close(&mut self)
        ensures
            final(self)@ == old(self)@.close(),
    {
        self.open = false;
    }

    /// Whether the producer may still push.
    pub fn is_open(&self) -> (open: bool)
        ensures
            open == self@.open,
    {
        self.open
    }

    /// Number of entries waiting.
    pub fn len(&self) -> (len: usize)
        ensures
            len == self@.items.len(),
    {
        self.items.len()
    }

    /// Whether nothing is waiting.
    pub fn is_empty(&self) -> (empty: bool)
        ensures
            empty == (self@.items.len() == 0),
    {
        self.items.len() == 0
    }
}

} // verus!
