use vstd::prelude::*;

use crate::event::{RecvOutcome, WatchEvent};
use crate::ignore_filter::{ignore_match, ignore_rules, is_ignored};
use crate::signal::DirtySignal;

verus! {

/// What the event collector decides to do with one receive outcome.
#[derive(Clone, Copy, Debug, PartialEq, Eq, Structural)]
pub enum CollectorVerdict {
    /// A relevant change: mark the dirty signal.
    MarkDirty,
    /// The path is ignored by the loaded rule set: discard silently.
    Discard,
    /// A path-less transient error: log it, leave the signal alone.
    LogOnly,
    /// The delivery channel closed: unrecoverable, the worker must stop.
    Fatal,
}

/// The fixed poll interval of the sync trigger, in milliseconds: bursts of
/// changes within one interval collapse into a single sync pass.
pub const POLL_INTERVAL_MILLIS: u64 = 100;

/// The rule set loaded at startup, if any, seen as its contents.
pub open spec fn rules_view(rules: Option<&ignore::gitignore::Gitignore>) -> Option<Seq<Seq<char>>> {
    match rules {
        Some(g) => Some(ignore_rules(*g)),
        None => None,
    }
}

/// The collector's decision for one receive outcome, as a function of the
/// loaded rules, the outcome, and whether the event's path is a directory:
/// a closed channel is fatal; an event whose path the rules match is
/// discarded; any other path-bearing event, and a scan restart, is a
/// relevant change; a path-less error is only logged.
pub open spec fn collect_spec(
    rules: Option<Seq<Seq<char>>>,
    outcome: RecvOutcome,
    is_dir: bool,
) -> CollectorVerdict {
    match outcome {
        RecvOutcome::Closed => CollectorVerdict::Fatal,
        RecvOutcome::Received(e) => match e.spec_path() {
            Some(p) => if rules matches Some(rs) && ignore_match(rs, p, is_dir) {
                CollectorVerdict::Discard
            } else {
                CollectorVerdict::MarkDirty
            },
            None => if e is ScanRestart {
                CollectorVerdict::MarkDirty
            } else {
                CollectorVerdict::LogOnly
            },
        },
    }
}

/// How one verdict changes the dirty flag: a relevant change sets it, every
/// other verdict leaves it alone.
pub open spec fn apply_verdict(v: CollectorVerdict, dirty: bool) -> bool {
    match v {
        CollectorVerdict::MarkDirty => true,
        _ => dirty,
    }
}

/// The collector's decision alone, without touching the signal. `is_dir`
/// says whether the event's path names a directory on disk, which only the
/// caller can know.
pub fn collect(
    rules: Option<&ignore::gitignore::Gitignore>,
    outcome: &RecvOutcome,
    is_dir: bool,
) -> (v: CollectorVerdict)
    ensures
        v == collect_spec(rules_view(rules), *outcome, is_dir),
{
    match outcome {
        RecvOutcome::Closed => CollectorVerdict::Fatal,
        RecvOutcome::Received(e) => match e.get_path() {
            Some(p) => match rules {
                Some(g) => if is_ignored(g, p, is_dir) {
                    CollectorVerdict::Discard
                } else {
                    CollectorVerdict::MarkDirty
                },
                None => CollectorVerdict::MarkDirty,
            },
            None => match e {
                WatchEvent::ScanRestart => CollectorVerdict::MarkDirty,
                _ => CollectorVerdict::LogOnly,
            },
        },
    }
}

/// One full iteration of the event collector worker: decide on the receive
/// outcome, update the dirty signal accordingly, and hand the verdict back
/// so the caller can log or stop.
pub fn collector_step(
    rules: Option<&ignore::gitignore::Gitignore>,
    outcome: &RecvOutcome,
    is_dir: bool,
    signal: &mut DirtySignal,
) -> (v: CollectorVerdict)
    ensures
        v == collect_spec(rules_view(rules), *outcome, is_dir),
        final(signal).is_dirty() == apply_verdict(v, old(signal).is_dirty()),
{
    let v = collect(rules, outcome, is_dir);
    if v == CollectorVerdict::MarkDirty {
        signal.mark();
    }
    v
}

/// Ignore correctness: once a rule set is loaded, a change event for a path
/// it matches never changes the dirty signal, and a change event for a path
/// it does not match always leaves the signal set.
pub proof fn lemma_ignore_correctness(
    rules: Seq<Seq<char>>,
    e: WatchEvent,
    is_dir: bool,
    dirty: bool,
)
    requires
        e.spec_path() is Some,
    ensures
        ignore_match(rules, e.spec_path()->Some_0, is_dir) ==> apply_verdict(
            collect_spec(Some(rules), RecvOutcome::Received(e), is_dir),
            dirty,
        ) == dirty,
        !ignore_match(rules, e.spec_path()->Some_0, is_dir) ==> apply_verdict(
            collect_spec(Some(rules), RecvOutcome::Received(e), is_dir),
            dirty,
        ),
{
}

/// The dirty flag after the collector has consumed a whole burst of receive
/// outcomes (each paired with its path's directory flag), starting from
/// `init`.
pub open spec fn dirty_after(
    rules: Option<Seq<Seq<char>>>,
    steps: Seq<(RecvOutcome, bool)>,
    init: bool,
) -> bool
    decreases steps.len(),
{
    if steps.len() == 0 {
        init
    } else {
        apply_verdict(
            collect_spec(rules, steps.last().0, steps.last().1),
            dirty_after(rules, steps.drop_last(), init),
        )
    }
}

/// How many sync passes one poll tick starts, given the flag it finds.
pub open spec fn syncs_at_poll(dirty: bool) -> nat {
    if dirty {
        1nat
    } else {
        0nat
    }
}

/// After a burst the flag is set exactly when it started set or some step
/// of the burst was a relevant change.
pub proof fn lemma_dirty_after_iff(
    rules: Option<Seq<Seq<char>>>,
    steps: Seq<(RecvOutcome, bool)>,
    init: bool,
)
    ensures
        dirty_after(rules, steps, init) == (init || exists|i: int|
            0 <= i < steps.len() && collect_spec(rules, steps[i].0, steps[i].1)
                == CollectorVerdict::MarkDirty),
    decreases steps.len(),
{
    if steps.len() == 0 {
    } else {
        let sub = steps.drop_last();
        let last: int = steps.len() - 1;
        lemma_dirty_after_iff(rules, sub, init);
        if collect_spec(rules, steps.last().0, steps.last().1) == CollectorVerdict::MarkDirty {
            assert(collect_spec(rules, steps[last].0, steps[last].1)
                == CollectorVerdict::MarkDirty);
        } else {
            if exists|i: int|
                0 <= i < sub.len() && collect_spec(rules, sub[i].0, sub[i].1)
                    == CollectorVerdict::MarkDirty {
                let i = choose|i: int|
                    0 <= i < sub.len() && collect_spec(rules, sub[i].0, sub[i].1)
                        == CollectorVerdict::MarkDirty;
                assert(steps[i] == sub[i]);
            }
            if exists|i: int|
                0 <= i < steps.len() && collect_spec(rules, steps[i].0, steps[i].1)
                    == CollectorVerdict::MarkDirty {
                let i = choose|i: int|
                    0 <= i < steps.len() && collect_spec(rules, steps[i].0, steps[i].1)
                        == CollectorVerdict::MarkDirty;
                assert(i < last);
                assert(sub[i] == steps[i]);
            }
        }
    }
}

/// Debounce coalescing: however many events arrive within one poll
/// interval, the next poll tick starts exactly one sync pass when at least
/// one of them was a relevant change, and none when none was.
pub proof fn lemma_debounce_coalescing(
    rules: Option<Seq<Seq<char>>>,
    steps: Seq<(RecvOutcome, bool)>,
)
    ensures
        (exists|i: int|
            0 <= i < steps.len() && collect_spec(rules, steps[i].0, steps[i].1)
                == CollectorVerdict::MarkDirty) ==> syncs_at_poll(
            dirty_after(rules, steps, false),
        ) == 1,
        (forall|i: int|
            0 <= i < steps.len() ==> collect_spec(rules, steps[i].0, steps[i].1)
                != CollectorVerdict::MarkDirty) ==> syncs_at_poll(
            dirty_after(rules, steps, false),
        ) == 0,
{
    lemma_dirty_after_iff(rules, steps, false);
}

/// The sync trigger worker's phase: sleeping between polls, or running one
/// sync pass to completion.
pub enum TriggerPhase {
    Sleeping,
    Running,
}

/// One observable step of the debounce coordinator: the collector marking
/// the signal, the trigger's poll tick, or a sync pass finishing.
pub enum CoordEvent {
    Mark,
    Poll,
    SyncDone,
}

/// The coordinator's state as the trigger worker sees it.
pub struct CoordState {
    pub phase: TriggerPhase,
    pub dirty: bool,
}

/// How the coordinator evolves. The trigger worker is sequential: a poll
/// tick starts a sync pass only from the sleeping phase and clears the
/// flag; while a pass runs the worker is blocked inside it, so a poll
/// observes nothing; the pass ends before the worker sleeps again. Marks
/// from the collector may arrive at any time.
pub open spec fn coord_step(s: CoordState, e: CoordEvent) -> CoordState {
    match e {
        CoordEvent::Mark => CoordState { dirty: true, ..s },
        CoordEvent::Poll => if s.phase is Sleeping && s.dirty {
            CoordState { phase: TriggerPhase::Running, dirty: false }
        } else {
            s
        },
        CoordEvent::SyncDone => if s.phase is Running {
            CoordState { phase: TriggerPhase::Sleeping, ..s }
        } else {
            s
        },
    }
}

/// Whether this step starts a sync pass.
pub open spec fn starts_sync(s: CoordState, e: CoordEvent) -> bool {
    e is Poll && s.phase is Sleeping && s.dirty
}

/// Whether this step finishes a sync pass.
pub open spec fn ends_sync(s: CoordState, e: CoordEvent) -> bool {
    e is SyncDone && s.phase is Running
}

/// The coordinator's state after a whole trace of steps, starting clean
/// and sleeping.
pub open spec fn run_coord(trace: Seq<CoordEvent>) -> CoordState
    decreases trace.len(),
{
    if trace.len() == 0 {
        CoordState { phase: TriggerPhase::Sleeping, dirty: false }
    } else {
        coord_step(run_coord(trace.drop_last()), trace.last())
    }
}

/// How many sync passes a trace starts.
pub open spec fn sync_starts(trace: Seq<CoordEvent>) -> nat
    decreases trace.len(),
{
    if trace.len() == 0 {
        0nat
    } else {
        sync_starts(trace.drop_last()) + if starts_sync(run_coord(trace.drop_last()), trace.last()) {
            1nat
        } else {
            0nat
        }
    }
}

/// How many sync passes a trace finishes.
pub open spec fn sync_ends(trace: Seq<CoordEvent>) -> nat
    decreases trace.len(),
{
    if trace.len() == 0 {
        0nat
    } else {
        sync_ends(trace.drop_last()) + if ends_sync(run_coord(trace.drop_last()), trace.last()) {
            1nat
        } else {
            0nat
        }
    }
}

/// At-most-one-in-flight: under an arbitrary interleaving of marks, polls
/// and completions — however fast the event stream — the number of sync
/// passes started but not yet finished is exactly what the running phase
/// accounts for, and so never exceeds one.
pub proof fn lemma_at_most_one_in_flight(trace: Seq<CoordEvent>)
    ensures
        sync_starts(trace) - sync_ends(trace) == if run_coord(trace).phase is Running {
            1int
        } else {
            0int
        },
        sync_starts(trace) - sync_ends(trace) <= 1,
    decreases trace.len(),
{
    if trace.len() > 0 {
        lemma_at_most_one_in_flight(trace.drop_last());
    }
}

/// A sync pass only ever starts while no other is in flight.
pub proof fn lemma_no_overlapping_start(trace: Seq<CoordEvent>, e: CoordEvent)
    requires
        starts_sync(run_coord(trace), e),
    ensures
        sync_starts(trace) == sync_ends(trace),
{
    lemma_at_most_one_in_flight(trace);
}

} // verus!
