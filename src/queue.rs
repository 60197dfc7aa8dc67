//! The write queue: mutating commands run strictly one at a time, in the
//! order they were queued.

use vstd::prelude::*;

verus! {

/// The queue's state: commands waiting, and the one being executed.
pub struct QueueView<A> {
    pub pending: Seq<A>,
    pub inflight: Option<A>,
}

/// The state after the next command was started, where none is in flight.
pub open spec fn began<A>(v: QueueView<A>) -> QueueView<A> {
    if v.inflight is None && v.pending.len() > 0 {
        QueueView { pending: v.pending.drop_first(), inflight: Some(v.pending[0]) }
    } else {
        v
    }
}

/// One cycle: the next command is started and then completes; returns the
/// state after it and the command that completed, if any.
pub open spec fn cycle<A>(v: QueueView<A>) -> (QueueView<A>, Option<A>) {
    let b = began(v);
    (QueueView { pending: b.pending, inflight: None }, b.inflight)
}

/// The commands that complete, in order, over `n` cycles from `v`.
pub open spec fn completions<A>(v: QueueView<A>, n: nat) -> Seq<A>
    decreases n,
{
    if n == 0 {
        Seq::empty()
    } else {
        let (v1, c) = cycle(v);
        match c {
            Some(a) => seq![a] + completions(v1, (n - 1) as nat),
            None => completions(v1, (n - 1) as nat),
        }
    }
}

/// Commands complete in the order they were queued: from an idle slot,
/// the first `n` cycles complete the first `n` queued commands, in order.
pub proof fn lemma_fifo<A>(v: QueueView<A>, n: nat)
    requires
        v.inflight is None,
        n <= v.pending.len(),
    ensures
        completions(v, n) == v.pending.take(n as int),
    decreases n,
{
    if n > 0 {
        let (v1, c) = cycle(v);
        lemma_fifo(v1, (n - 1) as nat);
        assert(seq![v.pending[0]] + v.pending.drop_first().take(n - 1) =~= v.pending.take(n as int));
    } else {
        assert(v.pending.take(0) =~= Seq::<A>::empty());
    }
}

/// While a command is in flight no other starts.
pub proof fn lemma_single_inflight<A>(v: QueueView<A>)
    requires
        v.inflight is Some,
    ensures
        began(v) == v,
{
}

/// A strictly serialized queue of commands.
pub struct CommandQueue<A> {
    queue: Vec<A>,
    inflight: Option<A>,
}

impl<A> CommandQueue<A> {
    pub closed spec fn view(&self) -> QueueView<A> {
        QueueView { pending: self.queue@, inflight: self.inflight }
    }

    /// An empty queue with nothing in flight.
    pub fn new() -> (r: Self)
        ensures
            r.view().pending.len() == 0,
            r.view().inflight is None,
    {
        CommandQueue { queue: Vec::new(), inflight: None }
    }

    /// Queues a command behind the others.
    pub fn enqueue(&mut self, a: A)
        ensures
            final(self).view() == (QueueView { pending: old(self).view().pending.push(a), ..old(self).view() }),
    {
        self.queue.push(a);
    }

    /// Starts the next command where none is in flight: it moves from the
    /// front of the queue into the in-flight slot. Returns whether one
    /// started.
    pub fn begin_next(&mut self) -> (r: bool)
        ensures
            final(self).view() == began(old(self).view()),
            r == (old(self).view().inflight is None && old(self).view().pending.len() > 0),
    {
        if self.inflight.is_none() && self.queue.len() > 0 {
            let a = self.queue.remove(0);
            self.inflight = Some(a);
            true
        } else {
            false
        }
    }

    /// The command in flight.
    pub fn inflight(&self) -> (r: Option<&A>)
        ensures
            match r {
                Some(a) => self.view().inflight == Some(*a),
                None => self.view().inflight is None,
            },
    {
        match &self.inflight {
            Some(a) => Some(a),
            None => None,
        }
    }

    /// The command in flight completed: the slot is emptied whatever the
    /// outcome, and the command returned.
    pub fn finish(&mut self) -> (r: Option<A>)
        ensures
            r == old(self).view().inflight,
            final(self).view() == (QueueView { inflight: None, ..old(self).view() }),
    {
        self.inflight.take()
    }

    /// Whether nothing is queued or in flight.
    pub fn is_idle(&self) -> (r: bool)
        ensures
            r == (self.view().inflight is None && self.view().pending.len() == 0),
    {
        self.inflight.is_none() && self.queue.len() == 0
    }

    /// Whether a command is in flight.
    pub fn is_busy(&self) -> (r: bool)
        ensures
            r == self.view().inflight is Some,
    {
        self.inflight.is_some()
    }

    /// The number of commands waiting.
    pub fn pending_len(&self) -> (r: usize)
        ensures
            r == self.view().pending.len(),
    {
        self.queue.len()
    }
}

} // verus!
