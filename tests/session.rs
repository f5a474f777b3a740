use pollux::analyser::{AnalysisError, AnalysisSession};
use pollux::interfaces::{CheckFailure, StorageFailure};
use pollux::veracity::CrateVeracityChecks;
use std::str::FromStr;
use url::Url;

fn url(text: &str) -> Url {
    Url::from_str(text).unwrap()
}

#[test]
fn session_for_unseen_package_queries_both_then_saves() {
    let u1 = url("https://github.com/owner/repo/actions/runs/11");
    let u2 = url("https://rebuild.example/pkg-1.0.0");
    let session = AnalysisSession::begin(Ok(None));
    assert!(session.awaits_reproducibility());
    let session = session.after_reproducibility(Ok(Some(u2.clone())));
    assert!(session.awaits_provenance());
    let session = session.after_provenance(Ok(Some(u1.clone())));
    let expected = CrateVeracityChecks::new(Some(u1), Some(u2));
    assert_eq!(session.checks_to_save(), Some(&expected));
    let session = session.after_save(Ok(()));
    assert!(session.is_finished());
    assert_eq!(session.into_result(), Ok(expected));
}

#[test]
fn session_for_stable_entry_finishes_at_once() {
    let cached = CrateVeracityChecks::new(None, Some(url("https://rebuild.example/x")));
    let session = AnalysisSession::begin(Ok(Some(cached.clone())));
    assert!(session.is_finished());
    assert_eq!(session.into_result(), Ok(cached));
}

#[test]
fn session_promotes_provenance_only_entry() {
    let u1 = url("https://github.com/owner/repo/actions/runs/12");
    let u2 = url("https://rebuild.example/y");
    let session = AnalysisSession::begin(Ok(Some(CrateVeracityChecks::new(Some(u1.clone()), None))));
    assert!(session.awaits_reproducibility());
    let session = session.after_reproducibility(Ok(Some(u2.clone())));
    let expected = CrateVeracityChecks::new(Some(u1), Some(u2));
    assert_eq!(session.checks_to_save(), Some(&expected));
    assert_eq!(session.after_save(Ok(())).into_result(), Ok(expected));
}

#[test]
fn session_falls_back_to_cache_when_recheck_fails() {
    let cached = CrateVeracityChecks::new(None, None);
    let session = AnalysisSession::begin(Ok(Some(cached.clone())));
    let session = session.after_reproducibility(Err(CheckFailure::Transport));
    assert!(session.is_finished());
    assert_eq!(session.into_result(), Ok(cached));
}

#[test]
fn session_reports_failures() {
    let unreadable = AnalysisSession::begin(Err(StorageFailure::Unreadable));
    assert_eq!(unreadable.into_result(), Err(AnalysisError::Storage(StorageFailure::Unreadable)));

    let failed = AnalysisSession::begin(Ok(None)).after_reproducibility(Err(CheckFailure::UnexpectedStatus(503)));
    assert_eq!(failed.into_result(), Err(AnalysisError::Check(CheckFailure::UnexpectedStatus(503))));

    let provenance_failed = AnalysisSession::begin(Ok(None))
        .after_reproducibility(Ok(None))
        .after_provenance(Err(CheckFailure::MalformedResponse));
    assert_eq!(provenance_failed.into_result(), Err(AnalysisError::Check(CheckFailure::MalformedResponse)));

    let unwritable = AnalysisSession::begin(Ok(None))
        .after_reproducibility(Ok(None))
        .after_provenance(Ok(None))
        .after_save(Err(StorageFailure::Unwritable));
    assert_eq!(unwritable.into_result(), Err(AnalysisError::Storage(StorageFailure::Unwritable)));
}

#[test]
fn session_keeps_cached_checks_when_promotion_cannot_be_written() {
    let u1 = url("https://github.com/owner/repo/actions/runs/13");
    let cached = CrateVeracityChecks::new(Some(u1), None);
    let session = AnalysisSession::begin(Ok(Some(cached.clone())))
        .after_reproducibility(Ok(Some(url("https://rebuild.example/z"))));
    assert!(session.checks_to_save().is_some());
    assert_eq!(session.after_save(Err(StorageFailure::Unwritable)).into_result(), Ok(cached));
}
