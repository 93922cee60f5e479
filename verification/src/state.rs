//! The per-track pipeline state machine, its terminal outcomes, and the
//! order-insensitive aggregation of outcomes into a run summary.

use vstd::multiset::Multiset;
use vstd::prelude::*;

verus! {

/// Where one track stands in its pipeline. A track starts `Pending` and ends
/// in exactly one of the three terminal states.
#[derive(Clone, Copy, Debug, PartialEq, Eq, Structural, Hash)]
pub enum TrackState {
    Pending,
    Fetching,
    Fetched,
    Tagging,
    Tagged,
    TagFailed,
    FetchFailed,
}

/// What happened to a track at one of its suspension points.
#[derive(Clone, Copy, Debug, PartialEq, Eq, Structural, Hash)]
pub enum TrackEvent {
    StartFetch,
    FetchOk,
    FetchErr,
    StartTag,
    TagOk,
    TagErr,
}

/// One track's terminal state, kept for the duration of the run and used for
/// the batch summary.
#[derive(Clone, Copy, Debug, PartialEq, Eq, Structural, Hash)]
pub enum TrackOutcome {
    Tagged,
    TagFailed,
    FetchFailed,
}

/// What the outside steps reported for one track. Whether the art step
/// succeeded never decides the track's fate.
#[derive(Clone, Copy, Debug, PartialEq, Eq, Structural)]
pub struct TrackStepResult {
    pub fetch_ok: bool,
    pub art_ok: bool,
    pub tag_ok: bool,
}

/// The legal transitions of the per-track machine; any other pair is refused.
pub open spec fn spec_step(s: TrackState, e: TrackEvent) -> Option<TrackState> {
    match (s, e) {
        (TrackState::Pending, TrackEvent::StartFetch) => Some(TrackState::Fetching),
        (TrackState::Fetching, TrackEvent::FetchOk) => Some(TrackState::Fetched),
        (TrackState::Fetching, TrackEvent::FetchErr) => Some(TrackState::FetchFailed),
        (TrackState::Fetched, TrackEvent::StartTag) => Some(TrackState::Tagging),
        (TrackState::Tagging, TrackEvent::TagOk) => Some(TrackState::Tagged),
        (TrackState::Tagging, TrackEvent::TagErr) => Some(TrackState::TagFailed),
        _ => None,
    }
}

/// Advance the machine by one event, or refuse an illegal transition.
pub fn step(s: TrackState, e: TrackEvent) -> (r: Option<TrackState>)
    ensures
        r == spec_step(s, e),
{
    match (s, e) {
        (TrackState::Pending, TrackEvent::StartFetch) => Some(TrackState::Fetching),
        (TrackState::Fetching, TrackEvent::FetchOk) => Some(TrackState::Fetched),
        (TrackState::Fetching, TrackEvent::FetchErr) => Some(TrackState::FetchFailed),
        (TrackState::Fetched, TrackEvent::StartTag) => Some(TrackState::Tagging),
        (TrackState::Tagging, TrackEvent::TagOk) => Some(TrackState::Tagged),
        (TrackState::Tagging, TrackEvent::TagErr) => Some(TrackState::TagFailed),
        _ => None,
    }
}

/// The states a track can rest in when its pipeline is over.
pub open spec fn spec_is_terminal(s: TrackState) -> bool {
    s == TrackState::Tagged || s == TrackState::TagFailed || s == TrackState::FetchFailed
}

/// Whether the pipeline is over for a track in state `s`.
pub fn is_terminal(s: TrackState) -> (r: bool)
    ensures
        r == spec_is_terminal(s),
{
    match s {
        TrackState::Tagged => true,
        TrackState::TagFailed => true,
        TrackState::FetchFailed => true,
        _ => false,
    }
}

/// A terminal state admits no further transition.
pub proof fn lemma_terminal_is_final(s: TrackState, e: TrackEvent)
    requires
        spec_is_terminal(s),
    ensures
        spec_step(s, e) is None,
{
}

/// The terminal state that records an outcome.
pub open spec fn spec_terminal_state(o: TrackOutcome) -> TrackState {
    match o {
        TrackOutcome::Tagged => TrackState::Tagged,
        TrackOutcome::TagFailed => TrackState::TagFailed,
        TrackOutcome::FetchFailed => TrackState::FetchFailed,
    }
}

/// A track's fate, given what the outside steps reported: a failed fetch
/// loses the track before art and tagging; otherwise the tag step decides.
/// The art step's result plays no part.
pub open spec fn spec_outcome(r: TrackStepResult) -> TrackOutcome {
    if !r.fetch_ok {
        TrackOutcome::FetchFailed
    } else if r.tag_ok {
        TrackOutcome::Tagged
    } else {
        TrackOutcome::TagFailed
    }
}

/// Decide one track's terminal outcome from the step reports.
pub fn pipeline_outcome(r: TrackStepResult) -> (o: TrackOutcome)
    ensures
        o == spec_outcome(r),
{
    if !r.fetch_ok {
        TrackOutcome::FetchFailed
    } else if r.tag_ok {
        TrackOutcome::Tagged
    } else {
        TrackOutcome::TagFailed
    }
}

/// A failed or skipped art step never changes a track's outcome.
pub proof fn lemma_outcome_ignores_art(a: TrackStepResult, b: TrackStepResult)
    requires
        a.fetch_ok == b.fetch_ok,
        a.tag_ok == b.tag_ok,
    ensures
        spec_outcome(a) == spec_outcome(b),
{
}

/// The events one track's pipeline emits for the given step reports.
pub open spec fn spec_events_of(r: TrackStepResult) -> Seq<TrackEvent> {
    if !r.fetch_ok {
        seq![TrackEvent::StartFetch, TrackEvent::FetchErr]
    } else if r.tag_ok {
        seq![TrackEvent::StartFetch, TrackEvent::FetchOk, TrackEvent::StartTag, TrackEvent::TagOk]
    } else {
        seq![TrackEvent::StartFetch, TrackEvent::FetchOk, TrackEvent::StartTag, TrackEvent::TagErr]
    }
}

/// Run the machine over a whole event sequence; `None` once any transition
/// is illegal.
pub open spec fn spec_run_events(s: TrackState, evs: Seq<TrackEvent>) -> Option<TrackState>
    decreases evs.len(),
{
    if evs.len() == 0 {
        Some(s)
    } else {
        match spec_step(s, evs.first()) {
            Some(s2) => spec_run_events(s2, evs.drop_first()),
            None => None,
        }
    }
}

/// The decided outcome is exactly where the state machine lands when a
/// track's events are played from `Pending`.
pub proof fn lemma_outcome_follows_machine(r: TrackStepResult)
    ensures
        spec_run_events(TrackState::Pending, spec_events_of(r)) == Some(
            spec_terminal_state(spec_outcome(r)),
        ),
{
    reveal_with_fuel(spec_run_events, 5);
    let evs = spec_events_of(r);
    if !r.fetch_ok {
        assert(evs.drop_first() =~= seq![TrackEvent::FetchErr]);
        assert(evs.drop_first().drop_first() =~= Seq::<TrackEvent>::empty());
    } else {
        let last = if r.tag_ok {
            TrackEvent::TagOk
        } else {
            TrackEvent::TagErr
        };
        assert(evs.drop_first() =~= seq![TrackEvent::FetchOk, TrackEvent::StartTag, last]);
        assert(evs.drop_first().drop_first() =~= seq![TrackEvent::StartTag, last]);
        assert(evs.drop_first().drop_first().drop_first() =~= seq![last]);
        assert(evs.drop_first().drop_first().drop_first().drop_first() =~= Seq::<
            TrackEvent,
        >::empty());
    }
}

/// Aggregate counts of the per-track outcomes of one run.
#[derive(Clone, Copy, Debug, PartialEq, Eq, Structural)]
pub struct RunSummary {
    pub tagged: usize,
    pub tag_failed: usize,
    pub fetch_failed: usize,
}

/// How many entries of `s` are the outcome `o`.
pub open spec fn spec_count(s: Seq<TrackOutcome>, o: TrackOutcome) -> nat {
    s.filter(|x: TrackOutcome| x == o).len()
}

/// Count each terminal outcome; the three counts always cover every track.
pub fn aggregate_outcomes(outcomes: &Vec<TrackOutcome>) -> (s: RunSummary)
    ensures
        s.tagged == spec_count(outcomes@, TrackOutcome::Tagged),
        s.tag_failed == spec_count(outcomes@, TrackOutcome::TagFailed),
        s.fetch_failed == spec_count(outcomes@, TrackOutcome::FetchFailed),
        s.tagged + s.tag_failed + s.fetch_failed == outcomes@.len(),
{
    let mut tagged: usize = 0;
    let mut tag_failed: usize = 0;
    let mut fetch_failed: usize = 0;
    let mut i: usize = 0;
    while i < outcomes.len()
        invariant
            i <= outcomes@.len(),
            tagged == spec_count(outcomes@.take(i as int), TrackOutcome::Tagged),
            tag_failed == spec_count(outcomes@.take(i as int), TrackOutcome::TagFailed),
            fetch_failed == spec_count(outcomes@.take(i as int), TrackOutcome::FetchFailed),
            tagged + tag_failed + fetch_failed == i,
        decreases outcomes@.len() - i,
    {
        proof {
            broadcast use vstd::prelude::Seq::lemma_filter_push;

            assert(outcomes@.take(i + 1) =~= outcomes@.take(i as int).push(outcomes@[i as int]));
        }
        match outcomes[i] {
            TrackOutcome::Tagged => {
                tagged = tagged + 1;
            },
            TrackOutcome::TagFailed => {
                tag_failed = tag_failed + 1;
            },
            TrackOutcome::FetchFailed => {
                fetch_failed = fetch_failed + 1;
            },
        }
        i = i + 1;
    }
    proof {
        assert(outcomes@.take(outcomes@.len() as int) =~= outcomes@);
    }
    RunSummary { tagged, tag_failed, fetch_failed }
}

/// An outcome count is a multiset count: it does not depend on order.
pub proof fn lemma_count_is_multiset_count(s: Seq<TrackOutcome>, o: TrackOutcome)
    ensures
        spec_count(s, o) == s.to_multiset().count(o),
    decreases s.len(),
{
    broadcast use vstd::prelude::Seq::lemma_filter_push;
    broadcast use vstd::seq_lib::to_multiset_build;
    broadcast use vstd::multiset::group_multiset_axioms;

    if s.len() == 0 {
        assert(s.filter(|x: TrackOutcome| x == o) =~= Seq::<TrackOutcome>::empty()) by {
            reveal(Seq::filter);
        }
        assert(s.to_multiset() =~= Multiset::<TrackOutcome>::empty()) by {
            assert(s.to_multiset().len() == 0) by {
                s.to_multiset_ensures();
            }
        }
    } else {
        let butlast = s.drop_last();
        lemma_count_is_multiset_count(butlast, o);
        assert(butlast.push(s.last()) =~= s);
    }
}

/// Chunks may finish in any order: two outcome lists with the same entries,
/// however interleaved, aggregate to the same counts.
pub proof fn lemma_aggregate_order_independent(
    a: Seq<TrackOutcome>,
    b: Seq<TrackOutcome>,
    o: TrackOutcome,
)
    requires
        a.to_multiset() == b.to_multiset(),
    ensures
        spec_count(a, o) == spec_count(b, o),
{
    lemma_count_is_multiset_count(a, o);
    lemma_count_is_multiset_count(b, o);
}

} // verus!
