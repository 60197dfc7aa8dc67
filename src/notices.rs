//! Transient user notifications: each lives a bounded time, and only the
//! newest few are kept.

use vstd::prelude::*;
use crate::ledger::elapsed;

verus! {

/// The most notifications shown at once.
pub const MAX_TOASTS: usize = 10;

/// How long a notification lives, in seconds.
pub const TOAST_TTL_SECS: u64 = 4;

#[derive(Debug, Clone, Copy, PartialEq, Eq)]
pub enum ToastKind {
    Info,
    Success,
    Error,
}

/// A notification; `created_at` is in milliseconds.
#[derive(Debug, Clone, PartialEq)]
pub struct Toast {
    pub id: u64,
    pub message: String,
    pub kind: ToastKind,
    pub created_at: u64,
    pub ttl_secs: u64,
}

impl Toast {
    fn duplicate(&self) -> (r: Toast)
        ensures
            r == *self,
    {
        Toast {
            id: self.id,
            message: self.message.clone(),
            kind: self.kind,
            created_at: self.created_at,
            ttl_secs: self.ttl_secs,
        }
    }
}

/// A notification is still alive at `now`.
pub open spec fn is_alive(t: Toast, now: u64) -> bool {
    elapsed(t.created_at, now) < t.ttl_secs as int * 1000
}

/// The notifications of `s` still alive at `now`, in order.
pub open spec fn alive(s: Seq<Toast>, now: u64) -> Seq<Toast>
    decreases s.len(),
{
    if s.len() == 0 {
        Seq::empty()
    } else if is_alive(s.last(), now) {
        alive(s.drop_last(), now).push(s.last())
    } else {
        alive(s.drop_last(), now)
    }
}

/// `b` is `a` after a notification with text `msg` and kind `kind` was
/// shown at `now`: expired ones dropped, the new one appended with the next
/// id, and the oldest dropped beyond the bound.
pub open spec fn toast_pushed(a: &Notices, b: &Notices, msg: Seq<char>, kind: ToastKind, now: u64) -> bool {
    let kept = alive(a.toasts@, now);
    &&& b.counter == a.counter + 1
    &&& b.toasts@.len() > 0
    &&& b.toasts@.last().message@ == msg
    &&& b.toasts@.last().kind == kind
    &&& b.toasts@.last().id == b.counter
    &&& b.toasts@.last().created_at == now
    &&& b.toasts@.last().ttl_secs == TOAST_TTL_SECS
    &&& b.toasts@.len() == if kept.len() + 1 > MAX_TOASTS {
        MAX_TOASTS as int
    } else {
        kept.len() + 1int
    }
    &&& b.toasts@.drop_last() == kept.skip(kept.len() + 1 - b.toasts@.len())
}

/// `b` is `a` after a notification was requested: shown where ids are
/// left, nothing changed once the id counter is exhausted.
pub open spec fn notified(a: &Notices, b: &Notices, msg: Seq<char>, kind: ToastKind, now: u64) -> bool {
    if a.counter < u64::MAX {
        toast_pushed(a, b, msg, kind, now)
    } else {
        *b == *a
    }
}

/// The notifications on screen.
pub struct Notices {
    pub toasts: Vec<Toast>,
    pub counter: u64,
}

impl Notices {
    pub fn new() -> (r: Self)
        ensures
            r.toasts@.len() == 0,
            r.counter == 0,
    {
        Notices { toasts: Vec::new(), counter: 0 }
    }

    /// Shows a notification at `now`: expired ones are dropped, the new one
    /// is appended with the next id, and the oldest are dropped beyond the
    /// bound.
    pub fn show_toast(&mut self, message: String, kind: ToastKind, now: u64)
        requires
            old(self).counter < u64::MAX,
        ensures
            toast_pushed(old(self), final(self), message@, kind, now),
    {
        let ghost a = alive(self.toasts@, now);
        let mut kept: Vec<Toast> = Vec::new();
        let mut i: usize = 0;
        assert(alive(self.toasts@.take(0), now) =~= Seq::<Toast>::empty());
        while i < self.toasts.len()
            invariant
                i <= self.toasts@.len(),
                kept@ == alive(self.toasts@.take(i as int), now),
            decreases self.toasts.len() - i,
        {
            assert(self.toasts@.take(i + 1).drop_last() =~= self.toasts@.take(i as int));
            let t = &self.toasts[i];
            let el: u64 = if now >= t.created_at { now - t.created_at } else { 0 };
            if (el as u128) < (t.ttl_secs as u128) * 1000 {
                kept.push(t.duplicate());
            }
            i = i + 1;
        }
        assert(self.toasts@.take(self.toasts@.len() as int) =~= self.toasts@);
        let mut dropped: usize = 0;
        let n0 = kept.len();
        while kept.len() >= MAX_TOASTS
            invariant
                kept@ == a.skip(dropped as int),
                n0 == a.len(),
                kept@.len() + dropped == n0,
                dropped > 0 ==> kept@.len() >= MAX_TOASTS - 1,
            decreases kept.len(),
        {
            kept.remove(0);
            assert(a.skip(dropped + 1) =~= a.skip(dropped as int).drop_first());
            dropped = dropped + 1;
        }
        self.counter = self.counter + 1;
        let t = Toast { id: self.counter, message, kind, created_at: now, ttl_secs: TOAST_TTL_SECS };
        kept.push(t);
        assert(kept@.drop_last() =~= a.skip(dropped as int));
        self.toasts = kept;
    }

    /// Shows a notification where ids are left; once the id counter is
    /// exhausted nothing changes.
    pub fn notify(&mut self, message: String, kind: ToastKind, now: u64)
        ensures
            notified(old(self), final(self), message@, kind, now),
    {
        if self.counter < u64::MAX {
            self.show_toast(message, kind, now);
        }
    }

    /// Drops the notifications expired at `now`.
    pub fn prune(&mut self, now: u64)
        ensures
            final(self).toasts@ == alive(old(self).toasts@, now),
            final(self).counter == old(self).counter,
    {
        let mut kept: Vec<Toast> = Vec::new();
        let mut i: usize = 0;
        assert(alive(self.toasts@.take(0), now) =~= Seq::<Toast>::empty());
        while i < self.toasts.len()
            invariant
                i <= self.toasts@.len(),
                kept@ == alive(self.toasts@.take(i as int), now),
            decreases self.toasts.len() - i,
        {
            assert(self.toasts@.take(i + 1).drop_last() =~= self.toasts@.take(i as int));
            let t = &self.toasts[i];
            let el: u64 = if now >= t.created_at { now - t.created_at } else { 0 };
            if (el as u128) < (t.ttl_secs as u128) * 1000 {
                kept.push(t.duplicate());
            }
            i = i + 1;
        }
        assert(self.toasts@.take(self.toasts@.len() as int) =~= self.toasts@);
        self.toasts = kept;
    }

    /// Dismisses the notification with id `id`.
    pub fn dismiss(&mut self, id: u64)
        ensures
            final(self).toasts@ == old(self).toasts@.filter(|t: Toast| t.id != id),
            final(self).counter == old(self).counter,
    {
        let mut kept: Vec<Toast> = Vec::new();
        let mut i: usize = 0;
        assert(self.toasts@.take(0).filter(|t: Toast| t.id != id) =~= Seq::<Toast>::empty());
        while i < self.toasts.len()
            invariant
                i <= self.toasts@.len(),
                kept@ == self.toasts@.take(i as int).filter(|t: Toast| t.id != id),
            decreases self.toasts.len() - i,
        {
            proof {
                let s = self.toasts@.take(i + 1);
                assert(s.drop_last() =~= self.toasts@.take(i as int));
                reveal(Seq::filter);
            }
            if self.toasts[i].id != id {
                kept.push(self.toasts[i].duplicate());
            }
            i = i + 1;
        }
        assert(self.toasts@.take(self.toasts@.len() as int) =~= self.toasts@);
        self.toasts = kept;
    }
}

} // verus!
