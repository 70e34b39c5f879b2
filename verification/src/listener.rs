//! The decision core of the selection watcher. The surrounding runtime owns
//! the protocol connection, the poll multiplexer and the background thread;
//! everything it has to decide — what a poll outcome means, which format a
//! change is published under, and how a lost connection is retried — is
//! decided here, one verified step at a time.

use vstd::prelude::*;
use vstd::string::StringExecFns;

use crate::content::{mime_class, mime_class_of};
use crate::filter::{is_sensitive_spec, rank_spec, ClipFilter};
use crate::retry::{delay_at, RetryInterval};

verus! {

/// Which windowing protocol a listener speaks.
#[derive(Debug, Clone, Copy, PartialEq, Eq, Structural)]
pub enum ListenerKind {
    X11,
    Wayland,
}

/// What one poll of the selection context reported.
#[derive(Debug)]
pub enum PollOutcome {
    /// The selection changed owner or content; these formats are declared.
    SelectionChanged { formats: Vec<String> },
    /// The selection changed but its formats could not be read.
    FormatsUnavailable,
    /// Some unrelated protocol event.
    OtherEvent,
    /// Nothing was pending.
    NoEvent,
    /// The connection failed; the watcher has to reconnect.
    ProtocolError,
}

/// What the watcher does next.
#[derive(Debug, PartialEq, Eq)]
pub enum ListenerAction {
    /// Announce a change under this format: notify every subscriber.
    Publish { format: String },
    /// Nothing to announce: sensitive, unusable, or no change at all.
    Ignore,
    /// Run the reconnect schedule.
    Reconnect,
}

/// The first ranked format a change can be published under: the legacy
/// plain-text marker, or any format the mime grammar parses. Formats that
/// parse as nothing are skipped silently.
pub open spec fn select_spec(fs: Seq<String>) -> Option<String>
    decreases fs.len(),
{
    if fs.len() == 0 {
        None
    } else if fs[0]@ == "UTF8_STRING"@ || mime_class_of(fs[0]@) != 0 {
        Some(fs[0])
    } else {
        select_spec(fs.drop_first())
    }
}

/// What a selection change with these declared formats is published as:
/// nothing when a format matches the denylist, else the first valid format
/// in priority order.
pub open spec fn decide_spec(fs: Seq<String>) -> Option<String> {
    if is_sensitive_spec(fs) {
        None
    } else {
        select_spec(rank_spec(fs))
    }
}

/// What one poll outcome makes the watcher do.
pub open spec fn listener_step_spec(o: PollOutcome) -> ListenerAction {
    match o {
        PollOutcome::SelectionChanged { formats } => match decide_spec(formats@) {
            Some(f) => ListenerAction::Publish { format: f },
            None => ListenerAction::Ignore,
        },
        PollOutcome::ProtocolError => ListenerAction::Reconnect,
        _ => ListenerAction::Ignore,
    }
}

/// Picks the first publishable format of an already-ranked list.
fn select_format(ranked: &Vec<String>) -> (r: Option<String>)
    ensures
        r == select_spec(ranked@),
{
    let legacy = String::from_str("UTF8_STRING");
    let mut i: usize = 0;
    proof {
        assert(ranked@.skip(0) =~= ranked@);
    }
    while i < ranked.len()
        invariant
            i <= ranked@.len(),
            legacy@ == "UTF8_STRING"@,
            select_spec(ranked@.skip(i as int)) == select_spec(ranked@),
        decreases ranked@.len() - i,
    {
        proof {
            assert(ranked@.skip(i as int)[0] == ranked@[i as int]);
            assert(ranked@.skip(i as int).drop_first() =~= ranked@.skip(i + 1 as int));
        }
        if ranked[i] == legacy || mime_class(ranked[i].as_str()) != 0 {
            return Some(ranked[i].clone());
        }
        i = i + 1;
    }
    None
}

/// One decision step of the watch loop: what to do with one poll outcome.
/// A sensitive change is dropped silently; an announceable change is
/// published under exactly one format; a protocol error starts a reconnect.
pub fn listener_step(filter: &ClipFilter, outcome: &PollOutcome) -> (r: ListenerAction)
    requires
        filter.wf(),
    ensures
        r == listener_step_spec(*outcome),
{
    match outcome {
        PollOutcome::SelectionChanged { formats } => {
            if filter.filter_atom(formats) {
                ListenerAction::Ignore
            } else {
                let ranked = filter.rank(formats);
                match select_format(&ranked) {
                    Some(f) => ListenerAction::Publish { format: f },
                    None => ListenerAction::Ignore,
                }
            }
        },
        PollOutcome::FormatsUnavailable => ListenerAction::Ignore,
        PollOutcome::OtherEvent => ListenerAction::Ignore,
        PollOutcome::NoEvent => ListenerAction::Ignore,
        PollOutcome::ProtocolError => ListenerAction::Reconnect,
    }
}

/// A change that declares a denylisted format is never published, whatever
/// else it declares.
pub proof fn law_sensitive_is_dropped(formats: Vec<String>)
    requires
        is_sensitive_spec(formats@),
    ensures
        listener_step_spec(PollOutcome::SelectionChanged { formats }) == ListenerAction::Ignore,
{
}

/// A selection step never invents a format: what a change is published
/// under, when anything is, is one of the formats the change declared.
pub proof fn law_published_format_is_declared(fs: Seq<String>)
    ensures
        decide_spec(fs) matches Some(f) ==> fs.contains(f),
{
    if !is_sensitive_spec(fs) {
        crate::filter::lemma_rank_contains(fs);
        lemma_select_contains(rank_spec(fs));
        match select_spec(rank_spec(fs)) {
            Some(f) => {
                let w = choose|w: int| 0 <= w < rank_spec(fs).len() && rank_spec(fs)[w] == f;
                assert(fs.contains(rank_spec(fs)[w]));
            },
            None => {},
        }
    }
}

/// The selected format, when there is one, is an element of the list it was
/// selected from.
proof fn lemma_select_contains(fs: Seq<String>)
    ensures
        select_spec(fs) matches Some(f) ==> fs.contains(f),
    decreases fs.len(),
{
    if fs.len() > 0 {
        lemma_select_contains(fs.drop_first());
        match select_spec(fs) {
            Some(f) => {
                if fs[0]@ == "UTF8_STRING"@ || mime_class_of(fs[0]@) != 0 {
                    assert(fs[0] == f);
                } else {
                    assert(fs.drop_first().contains(f));
                    let w = choose|w: int|
                        0 <= w < fs.drop_first().len() && fs.drop_first()[w] == f;
                    assert(fs[w + 1] == f);
                }
            },
            None => {},
        }
    }
}

/// What one reconnect round decides.
#[derive(Debug, PartialEq, Eq, Structural, Clone, Copy)]
pub enum ReconnectStep {
    /// The connection is back: re-register the handle and resume listening.
    Connected,
    /// The attempt failed: sleep this many milliseconds, then try again.
    SleepThenRetry { delay_ms: u64 },
    /// The stop signal is set: abandon reconnecting without sleeping.
    Aborted,
    /// The schedule is exhausted: give up, carrying the attempt ceiling.
    GaveUp { limit: usize },
}

/// One round of the reconnect loop, after a reconnect attempt whose success
/// is `connected`, while the stop signal says `running`. The stop signal is
/// checked before any sleep, so a shutdown mid-retry never sleeps again; the
/// schedule is consumed only when a sleep is actually served.
pub fn next_reconnect_action(policy: &mut RetryInterval, connected: bool, running: bool) -> (r:
    ReconnectStep)
    ensures
        connected ==> r == ReconnectStep::Connected && *final(policy) == *old(policy),
        !connected && !running ==> r == ReconnectStep::Aborted && *final(policy) == *old(policy),
        !connected && running && old(policy).taken < old(policy).limit ==> r
            == (ReconnectStep::SleepThenRetry {
            delay_ms: delay_at(
                old(policy).phases@,
                old(policy).default_delay,
                old(policy).taken as int,
            ),
        }) && final(policy).taken == old(policy).taken + 1,
        !connected && running && old(policy).taken >= old(policy).limit ==> r
            == (ReconnectStep::GaveUp { limit: old(policy).limit }) && final(policy).taken == old(
            policy,
        ).taken,
        final(policy).phases@ == old(policy).phases@,
        final(policy).default_delay == old(policy).default_delay,
        final(policy).limit == old(policy).limit,
{
    if connected {
        return ReconnectStep::Connected;
    }
    if !running {
        return ReconnectStep::Aborted;
    }
    match policy.next() {
        Some(delay_ms) => ReconnectStep::SleepThenRetry { delay_ms },
        None => ReconnectStep::GaveUp { limit: policy.limit() },
    }
}

pub const MAX_RETRY_COUNT: usize = 10 * 24 * 60 * 60;

/// The phases of the watcher's reconnect schedule.
pub open spec fn watch_phases() -> Seq<(usize, u64)> {
    seq![(10usize, 100u64), (50usize, 500u64), (100usize, 2500u64)]
}

/// The watcher's reconnect schedule: ten quick attempts at 100 ms, fifty at
/// 500 ms, a hundred at 2500 ms, then 3 s apart up to the overall ceiling.
pub fn watch_retry_policy() -> (r: RetryInterval)
    ensures
        r.phases@ == watch_phases(),
        r.default_delay == 3000,
        r.limit == MAX_RETRY_COUNT,
        r.taken == 0,
{
    let r = RetryInterval::new(MAX_RETRY_COUNT, 3000).add_phase(10, 100).add_phase(
        50,
        500,
    ).add_phase(100, 2500);
    proof {
        assert(r.phases@ =~= watch_phases());
    }
    r
}

/// The watcher's schedule serves exactly ten attempts at 100 ms, then fifty
/// at 500 ms, then a hundred at 2500 ms, and 3000 ms for every attempt after
/// those, up to the ceiling.
pub proof fn law_watch_schedule(i: int)
    requires
        0 <= i,
    ensures
        i < 10 ==> delay_at(watch_phases(), 3000, i) == 100,
        10 <= i < 60 ==> delay_at(watch_phases(), 3000, i) == 500,
        60 <= i < 160 ==> delay_at(watch_phases(), 3000, i) == 2500,
        160 <= i ==> delay_at(watch_phases(), 3000, i) == 3000,
{
    let p = watch_phases();
    let p2 = seq![(50usize, 500u64), (100usize, 2500u64)];
    let p3 = seq![(100usize, 2500u64)];
    let p4 = Seq::<(usize, u64)>::empty();
    assert(p.drop_first() =~= p2);
    assert(p2.drop_first() =~= p3);
    assert(p3.drop_first() =~= p4);
    if i < 10 {
        assert(delay_at(p, 3000, i) == 100);
    } else if i < 60 {
        assert(delay_at(p, 3000, i) == delay_at(p2, 3000, i - 10));
        assert(delay_at(p2, 3000, i - 10) == 500);
    } else if i < 160 {
        assert(delay_at(p, 3000, i) == delay_at(p2, 3000, i - 10));
        assert(delay_at(p2, 3000, i - 10) == delay_at(p3, 3000, i - 60));
        assert(delay_at(p3, 3000, i - 60) == 2500);
    } else {
        assert(delay_at(p, 3000, i) == delay_at(p2, 3000, i - 10));
        assert(delay_at(p2, 3000, i - 10) == delay_at(p3, 3000, i - 60));
        assert(delay_at(p3, 3000, i - 60) == delay_at(p4, 3000, i - 160));
        assert(delay_at(p4, 3000, i - 160) == 3000);
    }
}

} // verus!
