use crate::interfaces::{CheckAnswer, CheckFailure};
use crate::package::CargoPackage;
use crate::veracity::{parse_url, url_accepts, CrateVeracityChecks, CrateVeracityLevel, level_flags};
use vstd::prelude::*;
use vstd::string::*;

verus! {

/// Where the package registry serves its API.
pub const URL_OFFICIAL_CRATES_REGISTRY: &'static str = "https://crates.io";

/// Where the rebuild attestations of registry packages are published.
pub const URL_OSS_REBUILD_CRATES: &'static str = "https://storage.googleapis.com/google-rebuild-attestations/cratesio";

/// The trusted-publishing record of one package version, as the registry reports it.
#[derive(Clone, Debug, PartialEq, Eq)]
pub struct TrustPubData {
    pub repository: String,
    pub run_id: String,
}

#[derive(Clone, Debug, PartialEq, Eq)]
pub struct InfoForCrateVersion {
    pub trustpub_data: Option<TrustPubData>,
}

/// The part of the registry's version metadata that the provenance check reads.
#[derive(Clone, Debug, PartialEq, Eq)]
pub struct CrateVersionDetails {
    pub version: InfoForCrateVersion,
}

pub open spec fn version_endpoint_text(base: Seq<char>, name: Seq<char>, version: Seq<char>) -> Seq<char> {
    base + "/api/v1/crates/"@ + name + "/"@ + version
}

pub open spec fn rebuild_endpoint_text(base: Seq<char>, name: Seq<char>, version: Seq<char>) -> Seq<char> {
    base + "/"@ + name + "/"@ + version + "/"@ + name + "-"@ + version
        + ".crate/rebuild.intoto.jsonl"@
}

pub open spec fn run_link_text(repository: Seq<char>, run_id: Seq<char>) -> Seq<char> {
    "https://github.com/"@ + repository + "/actions/runs/"@ + run_id
}

pub open spec fn registry_page_text(name: Seq<char>) -> Seq<char> {
    "https://crates.io/crates/"@ + name + "/versions"@
}

/// The registry endpoint with the metadata of one package version.
pub fn crate_version_endpoint(base_url: &str, cargo_package: &CargoPackage) -> (r: String)
    ensures
        r@ == version_endpoint_text(base_url@, cargo_package.name@, cargo_package.version@),
{
    let mut text = String::from_str(base_url);
    text.append("/api/v1/crates/");
    text.append(cargo_package.name.as_str());
    text.append("/");
    text.append(cargo_package.version.as_str());
    proof {
        reveal_strlit("/api/v1/crates/");
        reveal_strlit("/");
    }
    text
}

/// The registry endpoint that serves the source archive of one package version.
pub fn crate_tarball_endpoint(base_url: &str, cargo_package: &CargoPackage) -> (r: String)
    ensures
        r@ == version_endpoint_text(base_url@, cargo_package.name@, cargo_package.version@)
            + "/download"@,
{
    let mut text = crate_version_endpoint(base_url, cargo_package);
    text.append("/download");
    proof {
        reveal_strlit("/download");
    }
    text
}

/// The content-addressed URL of the rebuild attestation of one package version.
pub fn rebuild_attestation_endpoint(base_url: &str, cargo_package: &CargoPackage) -> (r: String)
    ensures
        r@ == rebuild_endpoint_text(base_url@, cargo_package.name@, cargo_package.version@),
{
    let mut text = String::from_str(base_url);
    text.append("/");
    text.append(cargo_package.name.as_str());
    text.append("/");
    text.append(cargo_package.version.as_str());
    text.append("/");
    text.append(cargo_package.name.as_str());
    text.append("-");
    text.append(cargo_package.version.as_str());
    text.append(".crate/rebuild.intoto.jsonl");
    proof {
        reveal_strlit("/");
        reveal_strlit("-");
        reveal_strlit(".crate/rebuild.intoto.jsonl");
    }
    text
}

/// The link to the workflow run that published a package version.
pub fn trusted_publishing_run_link(data: &TrustPubData) -> (r: String)
    ensures
        r@ == run_link_text(data.repository@, data.run_id@),
{
    let mut text = String::from_str("https://github.com/");
    text.append(data.repository.as_str());
    text.append("/actions/runs/");
    text.append(data.run_id.as_str());
    proof {
        reveal_strlit("https://github.com/");
        reveal_strlit("/actions/runs/");
    }
    text
}

/// The answer that a parsed evidence link stands for: the URL itself, or a malformed
/// response where the link is no URL.
pub fn evidence_answer(parsed: Option<url::Url>) -> (r: CheckAnswer)
    ensures
        parsed matches Some(url) ==> r == Ok::<Option<url::Url>, CheckFailure>(Some(url)),
        parsed is None ==> r == Err::<Option<url::Url>, CheckFailure>(CheckFailure::MalformedResponse),
{
    match parsed {
        Some(url) => Ok(Some(url)),
        None => Err(CheckFailure::MalformedResponse),
    }
}

/// The reproducibility answer that a status stands for, given the parsed attestation
/// URL: found on 200, absent on 404, a failure otherwise.
pub fn rebuild_status_answer(status: u16, attestation: Option<url::Url>) -> (r: CheckAnswer)
    ensures
        status == 200 && attestation is Some ==> r == Ok::<Option<url::Url>, CheckFailure>(attestation),
        status == 200 && attestation is None ==> r == Err::<Option<url::Url>, CheckFailure>(
            CheckFailure::MalformedResponse,
        ),
        status == 404 ==> r == Ok::<Option<url::Url>, CheckFailure>(None),
        status != 200 && status != 404 ==> r == Err::<Option<url::Url>, CheckFailure>(
            CheckFailure::UnexpectedStatus(status),
        ),
{
    if status == 200 {
        evidence_answer(attestation)
    } else if status == 404 {
        Ok(None)
    } else {
        Err(CheckFailure::UnexpectedStatus(status))
    }
}

/// The provenance answer that version metadata stands for: no trusted-publishing
/// record means no evidence; a record means the link to its workflow run, which must
/// be a valid URL.
pub fn provenance_answer(details: &CrateVersionDetails) -> (r: CheckAnswer)
    ensures
        details.version.trustpub_data is None ==> r == Ok::<Option<url::Url>, CheckFailure>(None),
        details.version.trustpub_data matches Some(data) ==> {
            &&& (r is Ok <==> url_accepts(run_link_text(data.repository@, data.run_id@)))
            &&& (r is Ok ==> r->Ok_0 is Some)
            &&& (r is Err ==> r->Err_0 == CheckFailure::MalformedResponse)
        },
{
    match &details.version.trustpub_data {
        None => Ok(None),
        Some(data) => {
            let link = trusted_publishing_run_link(data);
            evidence_answer(parse_url(link.as_str()))
        },
    }
}

/// The workflow-run link of the trusted-publishing record, if the metadata holds one.
pub open spec fn trustpub_link(details: CrateVersionDetails) -> Option<Seq<char>> {
    match details.version.trustpub_data {
        Some(data) => Some(run_link_text(data.repository@, data.run_id@)),
        None => None,
    }
}

/// The provenance answer that a registry response stands for: a status outside
/// 200..=299 is a failure, a body that could not be decoded (`None`) is malformed, and
/// decoded metadata answers as [`provenance_answer`] says.
pub fn registry_response_answer(status: u16, details: Option<CrateVersionDetails>) -> (r: CheckAnswer)
    ensures
        !(200 <= status <= 299) ==> r == Err::<Option<url::Url>, CheckFailure>(
            CheckFailure::UnexpectedStatus(status),
        ),
        200 <= status <= 299 && details is None ==> r == Err::<Option<url::Url>, CheckFailure>(
            CheckFailure::MalformedResponse,
        ),
        details matches Some(d) && 200 <= status <= 299 && d.version.trustpub_data is None ==> r
            == Ok::<Option<url::Url>, CheckFailure>(None),
        details matches Some(d) && 200 <= status <= 299 && trustpub_link(d) is Some && url_accepts(
            trustpub_link(d)->Some_0,
        ) ==> r is Ok && r->Ok_0 is Some,
        details matches Some(d) && 200 <= status <= 299 && trustpub_link(d) is Some && !url_accepts(
            trustpub_link(d)->Some_0,
        ) ==> r == Err::<
            Option<url::Url>,
            CheckFailure,
        >(CheckFailure::MalformedResponse),
{
    if status < 200 || status > 299 {
        return Err(CheckFailure::UnexpectedStatus(status));
    }
    match details {
        None => Err(CheckFailure::MalformedResponse),
        Some(details) => provenance_answer(&details),
    }
}

/// The reproducibility answer that the status of a request for an attestation stands
/// for: found (the attestation's URL is the evidence), absent, or a failure.
pub fn rebuild_answer(status: u16, endpoint: &str) -> (r: CheckAnswer)
    ensures
        status == 200 ==> (r is Ok <==> url_accepts(endpoint@)),
        status == 200 && r is Ok ==> r->Ok_0 is Some,
        status == 200 && r is Err ==> r->Err_0 == CheckFailure::MalformedResponse,
        status == 404 ==> r == Ok::<Option<url::Url>, CheckFailure>(None),
        status != 200 && status != 404 ==> r == Err::<Option<url::Url>, CheckFailure>(
            CheckFailure::UnexpectedStatus(status),
        ),
{
    let attestation = if status == 200 {
        parse_url(endpoint)
    } else {
        None
    };
    rebuild_status_answer(status, attestation)
}

/// Evidence links for a package whose level is known: the registry's version page for
/// provenance, the attestation for reproducibility. A failed evaluation (`None`) has no
/// checks at all: it is not the same as an evaluation that found no evidence.
pub fn checks_from_level(cargo_package: &CargoPackage, level: Option<CrateVeracityLevel>) -> (r: Option<
    CrateVeracityChecks,
>)
    ensures
        r is Some <==> level is Some,
        level matches Some(l) ==> {
            &&& (r->Some_0.provenance_evidence is Some <==> level_flags(l).0 && url_accepts(
                registry_page_text(cargo_package.name@),
            ))
            &&& (r->Some_0.reproducibility_evidence is Some <==> level_flags(l).1 && url_accepts(
                rebuild_endpoint_text(
                    URL_OSS_REBUILD_CRATES@,
                    cargo_package.name@,
                    cargo_package.version@,
                ),
            ))
        },
{
    let Some(veracity_level) = level else {
        return None;
    };
    let (attested, reproducible) = veracity_level.to_booleans();
    let provenance_evidence = if attested {
        let mut link = String::from_str("https://crates.io/crates/");
        link.append(cargo_package.name.as_str());
        link.append("/versions");
        proof {
            reveal_strlit("https://crates.io/crates/");
            reveal_strlit("/versions");
        }
        parse_url(link.as_str())
    } else {
        None
    };
    let reproducibility_evidence = if reproducible {
        let link = rebuild_attestation_endpoint(URL_OSS_REBUILD_CRATES, cargo_package);
        parse_url(link.as_str())
    } else {
        None
    };
    Some(CrateVeracityChecks::new(provenance_evidence, reproducibility_evidence))
}

} // verus!
