use url::Url;
use vstd::prelude::*;
use vstd::string::*;

verus! {

/// `url::Url`, carried as opaque evidence: the engine never looks inside a URL.
#[verifier::external_type_specification]
#[verifier::external_body]
pub struct ExUrl(Url);

/// Relies on `url::Url`'s derived `Clone`: the copy is the same URL.
pub assume_specification[ <Url as Clone>::clone ](u: &Url) -> (r: Url)
    ensures
        r == *u,
;

/// Whether `url::Url::parse` accepts a text: a property of the text alone.
pub uninterp spec fn url_accepts(text: Seq<char>) -> bool;

/// Relies on `url::Url::parse`: it succeeds exactly on the texts that it accepts.
#[verifier::external_body]
pub(crate) fn parse_url(text: &str) -> (r: Option<Url>)
    ensures
        r is Some <==> url_accepts(text@),
{
    Url::parse(text).ok()
}

/// One of the two independently observable trust signals.
#[derive(Clone, Copy, Debug, PartialEq, Eq, Hash, Structural)]
pub enum VeracityFactor {
    ReproducibleBuilds,
    ProvenanceAttested,
}

/// Which factors are evidenced for a package version.
#[derive(Clone, Copy, Debug, PartialEq, Eq, Hash, Structural)]
pub enum CrateVeracityLevel {
    NotAvailable,
    SingleFactor(VeracityFactor),
    TwoFactors,
}

/// The two-flag form `(provenance, reproducible)` of a level.
pub open spec fn level_flags(level: CrateVeracityLevel) -> (bool, bool) {
    match level {
        CrateVeracityLevel::NotAvailable => (false, false),
        CrateVeracityLevel::SingleFactor(VeracityFactor::ReproducibleBuilds) => (false, true),
        CrateVeracityLevel::SingleFactor(VeracityFactor::ProvenanceAttested) => (true, false),
        CrateVeracityLevel::TwoFactors => (true, true),
    }
}

/// The level whose two-flag form is `(provenance, reproducible)`.
pub open spec fn level_of_flags(provenance: bool, reproducible: bool) -> CrateVeracityLevel {
    if provenance && reproducible {
        CrateVeracityLevel::TwoFactors
    } else if provenance {
        CrateVeracityLevel::SingleFactor(VeracityFactor::ProvenanceAttested)
    } else if reproducible {
        CrateVeracityLevel::SingleFactor(VeracityFactor::ReproducibleBuilds)
    } else {
        CrateVeracityLevel::NotAvailable
    }
}

/// Position of a level in the order `NotAvailable < SingleFactor(_) < TwoFactors`.
pub open spec fn level_rank(level: CrateVeracityLevel) -> nat {
    match level {
        CrateVeracityLevel::NotAvailable => 0,
        CrateVeracityLevel::SingleFactor(_) => 1,
        CrateVeracityLevel::TwoFactors => 2,
    }
}

impl CrateVeracityLevel {
    pub fn to_booleans(&self) -> (r: (bool, bool))
        ensures
            r == level_flags(*self),
    {
        match self {
            CrateVeracityLevel::NotAvailable => (false, false),
            CrateVeracityLevel::SingleFactor(factor) => match factor {
                VeracityFactor::ReproducibleBuilds => (false, true),
                VeracityFactor::ProvenanceAttested => (true, false),
            },
            CrateVeracityLevel::TwoFactors => (true, true),
        }
    }

    pub fn from_booleans(provenance: bool, rebuilds: bool) -> (r: Self)
        ensures
            r == level_of_flags(provenance, rebuilds),
            level_flags(r) == (provenance, rebuilds),
    {
        match (provenance, rebuilds) {
            (true, true) => CrateVeracityLevel::TwoFactors,
            (false, true) => CrateVeracityLevel::SingleFactor(VeracityFactor::ReproducibleBuilds),
            (true, false) => CrateVeracityLevel::SingleFactor(VeracityFactor::ProvenanceAttested),
            (false, false) => CrateVeracityLevel::NotAvailable,
        }
    }
}

/// Converting two flags to a level and back gives the same two flags.
pub proof fn lemma_flags_round_trip(provenance: bool, reproducible: bool)
    ensures
        level_flags(level_of_flags(provenance, reproducible)) == (provenance, reproducible),
{
}

/// Converting a level to its two flags and back gives the same level.
pub proof fn lemma_level_round_trip(level: CrateVeracityLevel)
    ensures
        level_of_flags(level_flags(level).0, level_flags(level).1) == level,
{
}

/// Evidence found for each factor of one package version.
#[derive(Clone, Debug, PartialEq, Eq, Hash)]
pub struct CrateVeracityChecks {
    pub provenance_evidence: Option<Url>,
    pub reproducibility_evidence: Option<Url>,
}

/// The level that a set of checks projects to.
pub open spec fn checks_level(checks: CrateVeracityChecks) -> CrateVeracityLevel {
    level_of_flags(checks.provenance_evidence is Some, checks.reproducibility_evidence is Some)
}

pub(crate) fn copy_evidence(evidence: &Option<Url>) -> (r: Option<Url>)
    ensures
        r == *evidence,
{
    match evidence {
        Some(u) => Some(u.clone()),
        None => None,
    }
}

impl CrateVeracityChecks {
    pub fn new(provenance_evidence: Option<Url>, reproducibility_evidence: Option<Url>) -> (r: Self)
        ensures
            r.provenance_evidence == provenance_evidence,
            r.reproducibility_evidence == reproducibility_evidence,
    {
        Self { provenance_evidence, reproducibility_evidence }
    }

    /// A copy of these checks, field by field.
    pub fn duplicate(&self) -> (r: Self)
        ensures
            r == *self,
    {
        Self {
            provenance_evidence: copy_evidence(&self.provenance_evidence),
            reproducibility_evidence: copy_evidence(&self.reproducibility_evidence),
        }
    }

    /// The level that these checks project to.
    pub fn level(&self) -> (r: CrateVeracityLevel)
        ensures
            r == checks_level(*self),
    {
        CrateVeracityLevel::from_booleans(
            self.provenance_evidence.is_some(),
            self.reproducibility_evidence.is_some(),
        )
    }

    /// A short description of which factors are evidenced.
    pub fn describe(&self) -> (r: String)
        ensures
            r@ == describe_text(*self),
    {
        let text = match (&self.provenance_evidence, &self.reproducibility_evidence) {
            (Some(_), Some(_)) => "trusted publishing; reproducible builds",
            (Some(_), None) => "trusted publishing",
            (None, Some(_)) => "reproducible builds",
            (None, None) => "none",
        };
        String::from_str(text)
    }
}

pub open spec fn describe_text(checks: CrateVeracityChecks) -> Seq<char> {
    match (checks.provenance_evidence, checks.reproducibility_evidence) {
        (Some(_), Some(_)) => "trusted publishing; reproducible builds"@,
        (Some(_), None) => "trusted publishing"@,
        (None, Some(_)) => "reproducible builds"@,
        (None, None) => "none"@,
    }
}

} // verus!
