//! Track-change notifier: a latest-value broadcast with no payload.
//!
//! `notify` advances an epoch; a handle remembers the last epoch it
//! saw, and observes a pending notification exactly when the notifier
//! has advanced past it.

use vstd::prelude::*;

verus! {

/// The broadcast side: counts how many notifications were fired.
pub struct Notifier {
    epoch: u64,
}

/// One waiter's view: the last epoch it has consumed.
pub struct NotifyHandle {
    seen: u64,
}

impl Notifier {
    /// How many notifications have been fired so far.
    pub closed spec fn spec_epoch(&self) -> nat {
        self.epoch as nat
    }

    pub fn new() -> (n: Notifier)
        ensures
            n.spec_epoch() == 0,
    {
        Notifier { epoch: 0 }
    }

    /// Fires a notification: every handle subscribed earlier and
    /// already caught up will observe exactly this one.
    pub fn notify(&mut self)
        requires
            old(self).spec_epoch() < u64::MAX,
        ensures
            final(self).spec_epoch() == old(self).spec_epoch() + 1,
    {
        self.epoch = self.epoch + 1;
    }

    /// Whether the epoch counter still has room for a notification.
    pub fn has_room(&self) -> (r: bool)
        ensures
            r == (self.spec_epoch() < u64::MAX),
    {
        self.epoch < u64::MAX
    }

    /// A new handle that has seen everything fired so far, so it only
    /// observes notifications fired after this call.
    pub fn subscribe(&self) -> (h: NotifyHandle)
        ensures
            h.spec_seen() == self.spec_epoch(),
    {
        NotifyHandle { seen: self.epoch }
    }
}

impl NotifyHandle {
    /// The number of notifications this handle has consumed.
    pub closed spec fn spec_seen(&self) -> nat {
        self.seen as nat
    }

    /// Polls for a pending notification: observes one exactly when the
    /// notifier has fired since this handle last caught up, and then
    /// catches up entirely (coalescing intermediate notifications, as
    /// a latest-value channel does).
    pub fn poll(&mut self, notifier: &Notifier) -> (fired: bool)
        ensures
            fired == (notifier.spec_epoch() > old(self).spec_seen()),
            fired ==> final(self).spec_seen() == notifier.spec_epoch(),
            !fired ==> final(self).spec_seen() == old(self).spec_seen(),
    {
        if notifier.epoch > self.seen {
            self.seen = notifier.epoch;
            true
        } else {
            false
        }
    }
}

} // verus!
