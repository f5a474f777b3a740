use pollux::caching::{checks_from_record, AnalysedPackagesCache, CacheManager, PolluxCleaner};
use pollux::inquiry::{summarise_inquiry, InquiringOutcome, InquiryError, PolluxInquirer};
use pollux::analyser::VeracityChecksAnalyser;
use pollux::fakes::{FakeVeracityChecker, InMemoryAnalysisCache};
use pollux::interfaces::StorageFailure;
use pollux::package::CargoPackage;
use pollux::resolution::{registry_packages, LockedPackage, RustProjectDependenciesResolver};
use pollux::tasks::{CleanupScope, HtmlReporter, PolluxTask};
use pollux::veracity::CrateVeracityChecks;
use std::str::FromStr;
use url::Url;

#[test]
fn cache_layout_follows_the_identity() {
    let manager = CacheManager::for_home(Some("/home/dev"));
    assert_eq!(manager.cache_dir, "/home/dev/.pollux");
    assert_eq!(manager.analysis_cache_dir(), "/home/dev/.pollux/analysed");
    assert_eq!(manager.packages_cache_dir(), "/home/dev/.pollux/packages");
    assert_eq!(manager.temporary_downloads_dir(), "/home/dev/.pollux/downloads");
    assert_eq!(CacheManager::for_home(None).cache_dir, "/var/cache/.pollux");
    let serde = CargoPackage::with("serde", "1.0.226");
    assert_eq!(manager.download_dir(&serde), "/home/dev/.pollux/downloads/serde");
    assert_eq!(manager.unpacked_sources_dir(&serde), "/home/dev/.pollux/downloads/serde/serde-1.0.226");

    let cache = AnalysedPackagesCache::new(manager);
    let cargo_package = CargoPackage::with("bon", "3.7.2");
    assert_eq!(cache.data_dir(&cargo_package), "/home/dev/.pollux/analysed/bon/3.7.2");
    assert_eq!(cache.checks_file(&cargo_package), "/home/dev/.pollux/analysed/bon/3.7.2/checks.json");
}

#[test]
fn cleanups_target_their_scope() {
    let cleaner = PolluxCleaner::new(CacheManager::at("/tmp/cache".to_string()));
    assert_eq!(cleaner.cleanup_analysed_data(), "/tmp/cache/analysed");
    assert_eq!(cleaner.cleanup_package_sources(), "/tmp/cache/packages");
    assert_eq!(cleaner.cleanup_everything(), "/tmp/cache");
    assert_eq!(PolluxTask::cleanup(CleanupScope::Everything), PolluxTask::CleanupEverything);
    assert_eq!(PolluxTask::cleanup(CleanupScope::AnalysedData), PolluxTask::CleanupAnalysedData);
    assert_eq!(PolluxTask::cleanup(CleanupScope::PackageSources), PolluxTask::CleanupPackageSource);
    assert_eq!(HtmlReporter::new("/out".to_string()).report_file(), "/out/pollux-report.html");
}

#[test]
fn stored_records_become_checks() {
    let link = "https://github.com/owner/repo/actions/runs/1";
    let checks = checks_from_record(Some(link.to_string()), None).unwrap();
    assert_eq!(checks, CrateVeracityChecks::new(Url::from_str(link).ok(), None));
    assert_eq!(checks_from_record(None, None), Ok(CrateVeracityChecks::new(None, None)));
    assert_eq!(checks_from_record(Some("no url".to_string()), None), Err(StorageFailure::Corrupted));
}

#[test]
fn cargo_should_extract_packages_from_lockfile() {
    let entry = |name: &str, version: &str, registry: bool| LockedPackage {
        name: name.to_string(),
        version: version.to_string(),
        from_default_registry: registry,
    };
    let entries = vec![
        entry("arbitrary", "1.4.1", true),
        entry("autocfg", "1.4.0", true),
        entry("bitflags", "2.8.0", true),
        entry("my-project", "0.1.0", false),
        entry("cfg-if", "1.0.0", true),
    ];
    let expected = vec![
        CargoPackage::with("arbitrary", "1.4.1"),
        CargoPackage::with("autocfg", "1.4.0"),
        CargoPackage::with("bitflags", "2.8.0"),
        CargoPackage::with("cfg-if", "1.0.0"),
    ];
    assert_eq!(registry_packages(&entries), expected);
    assert_eq!(RustProjectDependenciesResolver::new("/work/app".to_string()).lockfile_path(), "/work/app/Cargo.lock");
}

#[test]
fn inquiry_reports_shares_in_percent() {
    let e = Url::from_str("https://example.org/e").ok();
    let outcomes = vec![
        InquiringOutcome { cargo_package: CargoPackage::with("a", "1"), checks: CrateVeracityChecks::new(e.clone(), e.clone()) },
        InquiringOutcome { cargo_package: CargoPackage::with("b", "1"), checks: CrateVeracityChecks::new(None, e.clone()) },
        InquiringOutcome { cargo_package: CargoPackage::with("c", "1"), checks: CrateVeracityChecks::new(None, None) },
    ];
    let results = summarise_inquiry(outcomes);
    assert_eq!(results.total_crates_inquired, 3);
    assert_eq!(results.total_crates_with_trusted_publishing, 1);
    assert_eq!(results.total_crates_with_reproducibility, 2);
    assert_eq!(results.presence_of_trusted_publishing, "33");
    assert_eq!(results.presence_of_reproducibility, "66");
}

#[test]
fn inquiry_of_empty_sample_fails() {
    let analyser = VeracityChecksAnalyser::new(
        InMemoryAnalysisCache::new(),
        FakeVeracityChecker::new(vec![]),
        FakeVeracityChecker::new(vec![]),
    );
    let mut inquirer = PolluxInquirer::new(analyser);
    assert!(matches!(inquirer.inquire_packages(vec![]), Err(InquiryError::EmptySample)));
    let results = inquirer.inquire_packages(vec![CargoPackage::with("a", "1"), CargoPackage::with("b", "2")]).unwrap();
    assert_eq!(results.total_crates_inquired, 2);
    assert_eq!(results.presence_of_reproducibility, "0");
    assert_eq!(results.outcomes[1].cargo_package, CargoPackage::with("b", "2"));
    assert_eq!(inquirer.veracity_analyser.cache.find(&CargoPackage::with("b", "2")), Some(results.outcomes[1].checks.clone()));
    assert_eq!(pollux::inquiry::decimal_text(100), "100");
    assert_eq!(pollux::inquiry::decimal_text(7), "7");
}

#[test]
fn inquiry_of_a_sample_evaluates_each_package() {
    let a = CargoPackage::with("a", "1.0.0");
    let b = CargoPackage::with("b", "2.0.0");
    let c = CargoPackage::with("c", "3.0.0");
    let provenance = Url::from_str("https://github.com/owner/a/actions/runs/1").unwrap();
    let rebuild_a = Url::from_str("https://rebuild.example/a").unwrap();
    let rebuild_b = Url::from_str("https://rebuild.example/b").unwrap();
    let analyser = VeracityChecksAnalyser::new(
        InMemoryAnalysisCache::new(),
        FakeVeracityChecker::new(vec![(a.clone(), provenance.clone())]),
        FakeVeracityChecker::new(vec![(a.clone(), rebuild_a.clone()), (b.clone(), rebuild_b.clone())]),
    );
    let mut inquirer = PolluxInquirer::new(analyser);

    let results = inquirer.inquire_packages(vec![a.clone(), b.clone(), c.clone()]).unwrap();

    assert_eq!(results.total_crates_inquired, 3);
    assert_eq!(results.total_crates_with_trusted_publishing, 1);
    assert_eq!(results.total_crates_with_reproducibility, 2);
    assert_eq!(results.presence_of_trusted_publishing, "33");
    assert_eq!(results.presence_of_reproducibility, "66");
    assert_eq!(results.outcomes[0].checks, CrateVeracityChecks::new(Some(provenance), Some(rebuild_a)));
    assert_eq!(results.outcomes[1].checks, CrateVeracityChecks::new(None, Some(rebuild_b)));
    assert_eq!(results.outcomes[2].checks, CrateVeracityChecks::new(None, None));
    for outcome in results.outcomes.iter() {
        assert_eq!(inquirer.veracity_analyser.cache.find(&outcome.cargo_package), Some(outcome.checks.clone()));
    }
}

#[test]
fn inquiry_stops_at_a_failing_check() {
    let analyser = VeracityChecksAnalyser::new(
        InMemoryAnalysisCache::new(),
        FakeVeracityChecker::new(vec![]),
        FakeVeracityChecker::failing(pollux::interfaces::CheckFailure::Transport),
    );
    let mut inquirer = PolluxInquirer::new(analyser);
    assert!(matches!(
        inquirer.inquire_packages(vec![CargoPackage::with("a", "1")]),
        Err(InquiryError::Analysis(pollux::analyser::AnalysisError::Check(pollux::interfaces::CheckFailure::Transport)))
    ));
}
