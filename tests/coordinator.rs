use pollux::analyser::VeracityChecksAnalyser;
use pollux::coordinator::{
    aggregation_deadline_millis, summarise_evaluations, summarise_outcomes, AggregationError, EvaluationCoordinator,
};
use pollux::fakes::{FakeVeracityChecker, InMemoryAnalysisCache};
use pollux::interfaces::CheckFailure;
use pollux::package::CargoPackage;
use pollux::veracity::{CrateVeracityChecks, CrateVeracityLevel, VeracityFactor};
use std::str::FromStr;
use url::Url;

fn url(text: &str) -> Url {
    Url::from_str(text).unwrap()
}

#[test]
fn batch_with_one_failing_package_reports_it_as_none() {
    let a = CargoPackage::with("a", "1.0.0");
    let b = CargoPackage::with("b", "1.0.0");
    let c = CargoPackage::with("c", "1.0.0");
    let mut coordinator = EvaluationCoordinator::new(3);

    for cargo_package in [a.clone(), b.clone(), c.clone()] {
        let reproducibility = if cargo_package == b {
            FakeVeracityChecker::failing(CheckFailure::Transport)
        } else {
            FakeVeracityChecker::new(vec![(cargo_package.clone(), url("https://rebuild.example/ok"))])
        };
        let provenance = if cargo_package == a {
            FakeVeracityChecker::new(vec![(a.clone(), url("https://github.com/o/a/actions/runs/1"))])
        } else {
            FakeVeracityChecker::new(vec![])
        };
        let mut analyser = VeracityChecksAnalyser::new(InMemoryAnalysisCache::new(), provenance, reproducibility);
        let result = analyser.execute(&cargo_package);
        coordinator.record_evaluation(cargo_package, result);
    }

    assert!(coordinator.is_complete());
    let results = coordinator.aggregate(false).unwrap();
    assert_eq!(results.statistics.total, 3);
    assert_eq!(results.statistics.provenance_attested, 1);
    assert_eq!(results.statistics.reproducible_builds, 2);
    assert_eq!(results.outcomes.len(), 3);
    assert_eq!(results.outcomes[0].0, a);
    assert!(results.outcomes[0].1.is_some());
    assert_eq!(results.outcomes[1], (b, None));
    assert_eq!(results.outcomes[2].0, c);
    assert!(results.outcomes[2].1.is_some());
}

#[test]
fn aggregate_after_deadline_with_pending_packages_fails() {
    let mut coordinator = EvaluationCoordinator::new(2);
    coordinator.record(CargoPackage::with("fast", "1.0.0"), Some(CrateVeracityChecks::new(None, None)));

    assert!(!coordinator.is_complete());
    match coordinator.aggregate(true) {
        Err(error) => assert_eq!(error, AggregationError::DeadlineExceeded { landed: 1, expected: 2 }),
        Ok(_) => panic!("a late batch must not be aggregated"),
    }
}

#[test]
fn aggregate_before_deadline_with_pending_packages_waits() {
    let coordinator = EvaluationCoordinator::new(1);
    match coordinator.aggregate(false) {
        Err(error) => assert_eq!(error, AggregationError::StillRunning { landed: 0, expected: 1 }),
        Ok(_) => panic!("an incomplete batch must not be aggregated"),
    }
}

#[test]
fn empty_batch_aggregates_to_zero_counts() {
    let results = EvaluationCoordinator::new(0).aggregate(true).unwrap();
    assert_eq!(results.statistics.total, 0);
    assert_eq!(results.statistics.provenance_attested, 0);
    assert_eq!(results.statistics.reproducible_builds, 0);
}

#[test]
fn statistics_count_each_factor() {
    let e = Some(url("https://example.org/e"));
    let outcomes = vec![
        (CargoPackage::with("alpha", "1"), Some(CrateVeracityChecks::new(e.clone(), e.clone()))),
        (CargoPackage::with("beta", "1"), Some(CrateVeracityChecks::new(e.clone(), None))),
        (CargoPackage::with("gamma", "1"), Some(CrateVeracityChecks::new(None, e.clone()))),
        (CargoPackage::with("delta", "1"), Some(CrateVeracityChecks::new(None, None))),
        (CargoPackage::with("epsilon", "1"), None),
    ];
    let results = summarise_outcomes(outcomes);
    assert_eq!(results.statistics.total, 5);
    assert_eq!(results.statistics.provenance_attested, 2);
    assert_eq!(results.statistics.reproducible_builds, 2);
    assert!(results.statistics.provenance_attested <= results.statistics.total);
    assert!(results.statistics.reproducible_builds <= results.statistics.total);
    assert_eq!(results.outcomes[4].0, CargoPackage::with("epsilon", "1"));
}

#[test]
fn level_statistics_count_each_factor() {
    let outcomes = vec![
        (CargoPackage::with("alpha", "1"), Some(CrateVeracityLevel::TwoFactors)),
        (CargoPackage::with("beta", "1"), Some(CrateVeracityLevel::SingleFactor(VeracityFactor::ProvenanceAttested))),
        (CargoPackage::with("gamma", "1"), Some(CrateVeracityLevel::SingleFactor(VeracityFactor::ReproducibleBuilds))),
        (CargoPackage::with("delta", "1"), Some(CrateVeracityLevel::NotAvailable)),
        (CargoPackage::with("epsilon", "1"), None),
    ];
    let results = summarise_evaluations(outcomes);
    assert_eq!(results.statistics.total, 5);
    assert_eq!(results.statistics.provenance_attested, 2);
    assert_eq!(results.statistics.reproducible_builds, 2);
}

#[test]
fn deadline_is_twice_the_budget_per_package() {
    assert_eq!(aggregation_deadline_millis(1100, 3), Some(6600));
    assert_eq!(aggregation_deadline_millis(1100, 0), Some(0));
    assert_eq!(aggregation_deadline_millis(u64::MAX, 1), None);
    assert_eq!(aggregation_deadline_millis(u64::MAX / 2, 2), None);
}

#[test]
fn statistics_do_not_depend_on_order() {
    let e = Some(url("https://example.org/e"));
    let outcomes = || {
        vec![
            (CargoPackage::with("alpha", "1"), Some(CrateVeracityChecks::new(e.clone(), None))),
            (CargoPackage::with("beta", "1"), None),
            (CargoPackage::with("gamma", "1"), Some(CrateVeracityChecks::new(None, e.clone()))),
        ]
    };
    let mut reversed = outcomes();
    reversed.reverse();
    let forward = summarise_outcomes(outcomes()).statistics;
    let backward = summarise_outcomes(reversed).statistics;
    assert_eq!(forward, backward);
}
