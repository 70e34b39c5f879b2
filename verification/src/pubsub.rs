//! The change channel: a level-triggered broadcast with a terminal closed
//! state. A publisher bumps a generation counter; every subscriber holds its
//! own cursor into that counter, so a burst of notifications collapses into
//! one observed wake per subscriber, and a notification issued while nobody
//! is waiting is still observed by the next wait.

use vstd::prelude::*;

use crate::kind::ClipboardKind;

verus! {

/// The publisher side of a change channel: a terminal `closed` flag and the
/// notification generation. This is the single broadcast state that all
/// subscribers of the channel share.
#[derive(Debug, Clone, Copy, PartialEq, Eq, Structural)]
pub struct Publisher {
    pub closed: bool,
    pub generation: u64,
}

/// The subscriber side: the selection kind it watches and the generation it
/// has already observed. Clones watch the same channel, each with its own
/// cursor, so one notification wakes every clone exactly once.
#[derive(Debug, Clone, Copy, PartialEq, Eq, Structural)]
pub struct Subscriber {
    pub kind: ClipboardKind,
    pub seen: u64,
}

/// What one wait step against the current channel state says.
#[derive(Debug, Clone, Copy, PartialEq, Eq, Structural)]
pub enum WaitStatus {
    /// The state changed since this subscriber last looked: re-read now.
    Notified(ClipboardKind),
    /// The channel is closed; no wait will ever be woken again.
    Closed,
    /// Nothing new: keep waiting.
    Pending,
}

/// A fresh channel for one selection kind: open, with nothing to observe
/// until the first notification.
pub fn new(kind: ClipboardKind) -> (r: (Publisher, Subscriber))
    ensures
        !r.0.closed,
        r.0.generation == r.1.seen,
        r.1.kind == kind,
{
    (Publisher { closed: false, generation: 0 }, Subscriber { kind, seen: 0 })
}

impl Publisher {
    /// The state after a notification: the generation moves, unless the
    /// channel is closed — closed is terminal.
    pub open spec fn spec_notify(self) -> Publisher {
        if self.closed {
            self
        } else {
            Publisher { closed: false, generation: self.generation.wrapping_add(1) }
        }
    }

    /// The state after closing: closed, whatever it was before.
    pub open spec fn spec_close(self) -> Publisher {
        Publisher { closed: true, generation: self.generation }
    }

    /// Notifies all subscribers: every cursor falls behind the new
    /// generation, so each clone's next wait is woken. Carries no payload:
    /// it only says "state changed, re-read it".
    pub fn notify_all(&mut self)
        ensures
            *final(self) == old(self).spec_notify(),
    {
        if !self.closed {
            self.generation = self.generation.wrapping_add(1);
        }
    }

    /// Closes the channel, terminally: every pending and future wait
    /// observes `Closed` rather than blocking.
    pub fn close(&mut self)
        ensures
            *final(self) == old(self).spec_close(),
    {
        self.closed = true;
    }
}

impl Subscriber {
    /// One wait step: the closed flag wins; otherwise an unseen generation
    /// wakes the subscriber and moves its cursor; otherwise keep waiting.
    pub open spec fn spec_wait(self, p: Publisher) -> (Subscriber, WaitStatus) {
        if p.closed {
            (self, WaitStatus::Closed)
        } else if p.generation != self.seen {
            (Subscriber { kind: self.kind, seen: p.generation }, WaitStatus::Notified(self.kind))
        } else {
            (self, WaitStatus::Pending)
        }
    }

    /// One wait step against the shared channel state. `Pending` means a
    /// blocking caller goes back to sleep; `Notified` returns the watched
    /// kind; `Closed` is the terminal failure.
    pub fn wait(&mut self, publisher: &Publisher) -> (r: WaitStatus)
        ensures
            *final(self) == old(self).spec_wait(*publisher).0,
            r == old(self).spec_wait(*publisher).1,
    {
        if publisher.closed {
            WaitStatus::Closed
        } else if publisher.generation != self.seen {
            self.seen = publisher.generation;
            WaitStatus::Notified(self.kind)
        } else {
            WaitStatus::Pending
        }
    }
}

/// Closing is terminal: notifications after a close change nothing, and
/// every pending and future wait observes `Closed` at once, leaving the
/// subscriber's cursor untouched.
pub proof fn law_closed_is_terminal(p: Publisher, s: Subscriber)
    ensures
        p.spec_close().closed,
        p.spec_close().spec_notify() == p.spec_close(),
        s.spec_wait(p.spec_close()).1 == WaitStatus::Closed,
        s.spec_wait(p.spec_close()).0 == s,
{
}

/// No lost wakeup, one wake per notification: a subscriber that has seen
/// everything is woken exactly once by a notification — even one issued
/// before it started waiting — and then waits again.
pub proof fn law_notify_wakes_once(p: Publisher, s: Subscriber)
    requires
        !p.closed,
        s.seen == p.generation,
    ensures
        ({
            let p1 = p.spec_notify();
            let (s1, st1) = s.spec_wait(p1);
            let (s2, st2) = s1.spec_wait(p1);
            st1 == WaitStatus::Notified(s.kind) && st2 == WaitStatus::Pending && s2 == s1
        }),
{
}

/// Bursts collapse: two notifications before the subscriber runs produce
/// exactly one observed wake.
pub proof fn law_burst_collapses(p: Publisher, s: Subscriber)
    requires
        !p.closed,
        s.seen == p.generation,
    ensures
        ({
            let p2 = p.spec_notify().spec_notify();
            let (s1, st1) = s.spec_wait(p2);
            let (s2, st2) = s1.spec_wait(p2);
            st1 == WaitStatus::Notified(s.kind) && st2 == WaitStatus::Pending
        }),
{
}

} // verus!
