use yuck_premium::downloader::chunk_outcomes;
use yuck_premium::errors::outcome_error;
use yuck_premium::errors::RunError;
use yuck_premium::downloader::merge_outcomes;
use yuck_premium::state::aggregate_outcomes;
use yuck_premium::state::is_terminal;
use yuck_premium::state::pipeline_outcome;
use yuck_premium::state::step;
use yuck_premium::state::TrackEvent;
use yuck_premium::state::TrackOutcome;
use yuck_premium::state::TrackState;
use yuck_premium::state::TrackStepResult;

fn ok_result() -> TrackStepResult {
    TrackStepResult { fetch_ok: true, art_ok: true, tag_ok: true }
}

#[test]
fn machine_happy_path() {
    let s = step(TrackState::Pending, TrackEvent::StartFetch).unwrap();
    assert_eq!(s, TrackState::Fetching);
    let s = step(s, TrackEvent::FetchOk).unwrap();
    assert_eq!(s, TrackState::Fetched);
    let s = step(s, TrackEvent::StartTag).unwrap();
    assert_eq!(s, TrackState::Tagging);
    let s = step(s, TrackEvent::TagOk).unwrap();
    assert_eq!(s, TrackState::Tagged);
    assert!(is_terminal(s));
}

#[test]
fn machine_fetch_failure_is_terminal() {
    let s = step(TrackState::Pending, TrackEvent::StartFetch).unwrap();
    let s = step(s, TrackEvent::FetchErr).unwrap();
    assert_eq!(s, TrackState::FetchFailed);
    assert!(is_terminal(s));
    assert_eq!(step(s, TrackEvent::StartTag), None);
    assert_eq!(step(s, TrackEvent::StartFetch), None);
}

#[test]
fn machine_tag_failure_is_terminal() {
    let s = step(TrackState::Tagging, TrackEvent::TagErr).unwrap();
    assert_eq!(s, TrackState::TagFailed);
    assert!(is_terminal(s));
}

#[test]
fn machine_refuses_illegal_transitions() {
    assert_eq!(step(TrackState::Pending, TrackEvent::TagOk), None);
    assert_eq!(step(TrackState::Fetching, TrackEvent::StartTag), None);
    assert_eq!(step(TrackState::Fetched, TrackEvent::FetchOk), None);
    assert_eq!(step(TrackState::Tagged, TrackEvent::StartFetch), None);
}

#[test]
fn outcome_of_each_report() {
    assert_eq!(
        pipeline_outcome(TrackStepResult { fetch_ok: false, art_ok: false, tag_ok: false }),
        TrackOutcome::FetchFailed
    );
    assert_eq!(
        pipeline_outcome(TrackStepResult { fetch_ok: true, art_ok: true, tag_ok: false }),
        TrackOutcome::TagFailed
    );
    assert_eq!(pipeline_outcome(ok_result()), TrackOutcome::Tagged);
}

#[test]
fn failed_art_does_not_fail_the_track() {
    let with_art = pipeline_outcome(ok_result());
    let without_art = pipeline_outcome(TrackStepResult { fetch_ok: true, art_ok: false, tag_ok: true });
    assert_eq!(with_art, without_art);
    assert_eq!(without_art, TrackOutcome::Tagged);
}

#[test]
fn chunk_of_five_with_one_fetch_failure() {
    let mut results = vec![ok_result(); 5];
    results[1].fetch_ok = false;
    let outcomes = chunk_outcomes(&results);
    assert_eq!(outcomes.len(), 5);
    assert_eq!(outcomes[1], TrackOutcome::FetchFailed);
    for i in [0usize, 2, 3, 4] {
        assert_eq!(outcomes[i], TrackOutcome::Tagged);
    }
    let summary = aggregate_outcomes(&outcomes);
    assert_eq!(summary.tagged, 4);
    assert_eq!(summary.fetch_failed, 1);
    assert_eq!(summary.tag_failed, 0);
}

#[test]
fn aggregate_counts_cover_every_track() {
    let outcomes = vec![
        TrackOutcome::Tagged,
        TrackOutcome::TagFailed,
        TrackOutcome::FetchFailed,
        TrackOutcome::Tagged,
        TrackOutcome::TagFailed,
    ];
    let summary = aggregate_outcomes(&outcomes);
    assert_eq!(summary.tagged, 2);
    assert_eq!(summary.tag_failed, 2);
    assert_eq!(summary.fetch_failed, 1);
    assert_eq!(summary.tagged + summary.tag_failed + summary.fetch_failed, outcomes.len());
}

#[test]
fn aggregate_of_empty_run() {
    let summary = aggregate_outcomes(&Vec::new());
    assert_eq!(summary.tagged, 0);
    assert_eq!(summary.tag_failed, 0);
    assert_eq!(summary.fetch_failed, 0);
}

#[test]
fn merge_keeps_chunk_order() {
    let per_chunk = vec![
        vec![TrackOutcome::Tagged, TrackOutcome::FetchFailed],
        vec![],
        vec![TrackOutcome::TagFailed],
    ];
    let all = merge_outcomes(per_chunk);
    assert_eq!(
        all,
        vec![TrackOutcome::Tagged, TrackOutcome::FetchFailed, TrackOutcome::TagFailed]
    );
}

#[test]
fn aggregate_is_insensitive_to_completion_order() {
    let a = merge_outcomes(vec![
        vec![TrackOutcome::Tagged, TrackOutcome::Tagged],
        vec![TrackOutcome::FetchFailed],
    ]);
    let b = merge_outcomes(vec![
        vec![TrackOutcome::FetchFailed],
        vec![TrackOutcome::Tagged, TrackOutcome::Tagged],
    ]);
    let sa = aggregate_outcomes(&a);
    let sb = aggregate_outcomes(&b);
    assert_eq!(sa, sb);
}

#[test]
fn outcome_errors_stay_track_local() {
    assert_eq!(outcome_error(TrackOutcome::Tagged), None);
    assert_eq!(outcome_error(TrackOutcome::TagFailed), Some(RunError::TagError));
    assert_eq!(outcome_error(TrackOutcome::FetchFailed), Some(RunError::FetchError));
    assert!(!RunError::TagError.is_run_level());
    assert!(!RunError::FetchError.is_run_level());
}
