use pollux::package::{CargoPackage, CrateInfo, PurlError};
use pollux::veracity::{CrateVeracityChecks, CrateVeracityLevel, VeracityFactor};
use std::str::FromStr;
use url::Url;

#[test]
fn booleans_round_trip_for_all_combinations() {
    for provenance in [false, true] {
        for reproducible in [false, true] {
            let level = CrateVeracityLevel::from_booleans(provenance, reproducible);
            assert_eq!(level.to_booleans(), (provenance, reproducible));
        }
    }
}

#[test]
fn levels_map_to_booleans() {
    assert_eq!(CrateVeracityLevel::NotAvailable.to_booleans(), (false, false));
    assert_eq!(CrateVeracityLevel::SingleFactor(VeracityFactor::ReproducibleBuilds).to_booleans(), (false, true));
    assert_eq!(CrateVeracityLevel::SingleFactor(VeracityFactor::ProvenanceAttested).to_booleans(), (true, false));
    assert_eq!(CrateVeracityLevel::TwoFactors.to_booleans(), (true, true));
    assert_eq!(CrateVeracityLevel::from_booleans(true, true), CrateVeracityLevel::TwoFactors);
    assert_eq!(CrateVeracityLevel::from_booleans(false, false), CrateVeracityLevel::NotAvailable);
}

#[test]
fn package_identity_displays_as_purl() {
    assert_eq!(CargoPackage::with("bon", "3.7.2").purl(), "pkg:cargo/bon@3.7.2");
    assert_eq!(CrateInfo::new("canopus".to_string(), "0.1.1".to_string()).purl(), "pkg:cargo/canopus@0.1.1");
    assert!(CargoPackage::with("bon", "3.7.2").same_as(&CargoPackage::with("bon", "3.7.2")));
    assert!(!CargoPackage::with("bon", "3.7.2").same_as(&CargoPackage::with("bon", "3.7.1")));
}

#[test]
fn package_is_read_from_purl() {
    assert_eq!(CargoPackage::try_from_purl("pkg:cargo/serde@1.0.226"), Ok(CargoPackage::with("serde", "1.0.226")));
    assert_eq!(CargoPackage::try_from_purl("pkg:cargo/serde"), Err(PurlError::MissingVersion));
    assert_eq!(CargoPackage::try_from_purl("serde"), Err(PurlError::Invalid));
    assert_eq!(CargoPackage::from_purl_parts(None), Err(PurlError::Invalid));
    assert_eq!(
        CargoPackage::from_purl_parts(Some(("bon".to_string(), Some("3.7.2".to_string())))),
        Ok(CargoPackage::with("bon", "3.7.2"))
    );
}

#[test]
fn checks_describe_their_factors() {
    let u = Url::from_str("https://example.org/evidence").ok();
    assert_eq!(CrateVeracityChecks::new(u.clone(), u.clone()).describe(), "trusted publishing; reproducible builds");
    assert_eq!(CrateVeracityChecks::new(u.clone(), None).describe(), "trusted publishing");
    assert_eq!(CrateVeracityChecks::new(None, u.clone()).describe(), "reproducible builds");
    assert_eq!(CrateVeracityChecks::new(None, None).describe(), "none");
    assert_eq!(CrateVeracityChecks::new(None, u).level(), CrateVeracityLevel::SingleFactor(VeracityFactor::ReproducibleBuilds));
}
