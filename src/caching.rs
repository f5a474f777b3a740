use crate::interfaces::StorageFailure;
use crate::package::CargoPackage;
use crate::veracity::{parse_url, url_accepts, CrateVeracityChecks};
use vstd::prelude::*;
use vstd::string::*;

verus! {

/// Cache root used when the user has no home directory.
pub const FALLBACK_CACHE_DIR: &'static str = "/var/cache/.pollux";

pub open spec fn joined(dir: Seq<char>, entry: Seq<char>) -> Seq<char> {
    dir + "/"@ + entry
}

/// `dir/entry`.
pub fn join_path(dir: &str, entry: &str) -> (r: String)
    ensures
        r@ == joined(dir@, entry@),
{
    let mut path = String::from_str(dir);
    path.append("/");
    path.append(entry);
    proof {
        reveal_strlit("/");
    }
    path
}

/// Layout of the tool's cache directory.
pub struct CacheManager {
    pub cache_dir: String,
}

impl CacheManager {
    /// The cache rooted at `cache_dir`.
    pub fn at(cache_dir: String) -> (r: Self)
        ensures
            r.cache_dir == cache_dir,
    {
        Self { cache_dir }
    }

    /// The cache of a user: `.pollux` under the home directory, or a system-wide
    /// directory for a user without one.
    pub fn for_home(home_dir: Option<&str>) -> (r: Self)
        ensures
            home_dir matches Some(home) ==> r.cache_dir@ == joined(home@, ".pollux"@),
            home_dir is None ==> r.cache_dir@ == FALLBACK_CACHE_DIR@,
    {
        match home_dir {
            Some(home) => Self { cache_dir: join_path(home, ".pollux") },
            None => Self { cache_dir: String::from_str(FALLBACK_CACHE_DIR) },
        }
    }

    pub fn temporary_downloads_dir(&self) -> (r: String)
        ensures
            r@ == joined(self.cache_dir@, "downloads"@),
    {
        join_path(self.cache_dir.as_str(), "downloads")
    }

    pub fn analysis_cache_dir(&self) -> (r: String)
        ensures
            r@ == joined(self.cache_dir@, "analysed"@),
    {
        join_path(self.cache_dir.as_str(), "analysed")
    }

    pub fn packages_cache_dir(&self) -> (r: String)
        ensures
            r@ == joined(self.cache_dir@, "packages"@),
    {
        join_path(self.cache_dir.as_str(), "packages")
    }

    /// Where the source archive of `cargo_package` is downloaded and unpacked.
    pub fn download_dir(&self, cargo_package: &CargoPackage) -> (r: String)
        ensures
            r@ == joined(joined(self.cache_dir@, "downloads"@), cargo_package.name@),
    {
        join_path(self.temporary_downloads_dir().as_str(), cargo_package.name.as_str())
    }

    /// The directory that an unpacked archive of `cargo_package` holds its sources in:
    /// by the registry's convention, `<name>-<version>` inside the download directory.
    pub fn unpacked_sources_dir(&self, cargo_package: &CargoPackage) -> (r: String)
        ensures
            r@ == joined(
                joined(joined(self.cache_dir@, "downloads"@), cargo_package.name@),
                cargo_package.name@ + "-"@ + cargo_package.version@,
            ),
    {
        let mut folder = String::from_str(cargo_package.name.as_str());
        folder.append("-");
        folder.append(cargo_package.version.as_str());
        proof {
            reveal_strlit("-");
        }
        join_path(self.download_dir(cargo_package).as_str(), folder.as_str())
    }

    /// The directory to remove to drop downloaded package sources.
    pub fn cleanup_cached_packages_sources(&self) -> (r: String)
        ensures
            r@ == joined(self.cache_dir@, "packages"@),
    {
        self.packages_cache_dir()
    }

    /// The directory to remove to drop analysed data.
    pub fn cleanup_cached_analysis(&self) -> (r: String)
        ensures
            r@ == joined(self.cache_dir@, "analysed"@),
    {
        self.analysis_cache_dir()
    }

    /// The directory to remove to drop everything cached.
    pub fn cleanup_all(&self) -> (r: String)
        ensures
            r@ == self.cache_dir@,
    {
        self.cache_dir.clone()
    }
}

/// Name of the document that holds the checks of one package version.
pub const VERACITY_CHECKS_FILE_NAME: &'static str = "checks.json";

/// The directory-based store of analysed checks: one document per package version,
/// at `<cache>/analysed/<name>/<version>/checks.json`.
pub struct AnalysedPackagesCache {
    pub cache_manager: CacheManager,
}

impl AnalysedPackagesCache {
    pub fn new(cache_manager: CacheManager) -> (r: Self)
        ensures
            r.cache_manager == cache_manager,
    {
        Self { cache_manager }
    }

    /// The directory that holds the document of `cargo_package`.
    pub fn data_dir(&self, cargo_package: &CargoPackage) -> (r: String)
        ensures
            r@ == joined(
                joined(joined(self.cache_manager.cache_dir@, "analysed"@), cargo_package.name@),
                cargo_package.version@,
            ),
    {
        let by_name = join_path(self.cache_manager.analysis_cache_dir().as_str(), cargo_package.name.as_str());
        join_path(by_name.as_str(), cargo_package.version.as_str())
    }

    /// The document of `cargo_package`.
    pub fn checks_file(&self, cargo_package: &CargoPackage) -> (r: String)
        ensures
            r@ == joined(
                joined(
                    joined(joined(self.cache_manager.cache_dir@, "analysed"@), cargo_package.name@),
                    cargo_package.version@,
                ),
                VERACITY_CHECKS_FILE_NAME@,
            ),
    {
        join_path(self.data_dir(cargo_package).as_str(), VERACITY_CHECKS_FILE_NAME)
    }
}

/// The evidence that a stored text stands for; `None` where it is no URL.
pub open spec fn evidence_parses(text: Option<String>) -> bool {
    text matches Some(t) ==> url_accepts(t@)
}

fn evidence_from_text(text: Option<String>) -> (r: Option<Option<url::Url>>)
    ensures
        r is Some <==> evidence_parses(text),
        r matches Some(e) ==> (e is Some <==> text is Some),
{
    match text {
        None => Some(None),
        Some(t) => match parse_url(t.as_str()) {
            Some(url) => Some(Some(url)),
            None => None,
        },
    }
}

/// The checks that a stored document stands for; a stored evidence text that is not a
/// URL makes the document corrupted.
pub fn checks_from_record(trusted_publishing: Option<String>, reproducibility: Option<String>) -> (r: Result<
    CrateVeracityChecks,
    StorageFailure,
>)
    ensures
        r is Ok <==> evidence_parses(trusted_publishing) && evidence_parses(reproducibility),
        r is Err ==> r->Err_0 == StorageFailure::Corrupted,
        r matches Ok(checks) ==> (checks.provenance_evidence is Some <==> trusted_publishing is Some)
            && (checks.reproducibility_evidence is Some <==> reproducibility is Some),
{
    let provenance_evidence = match evidence_from_text(trusted_publishing) {
        Some(evidence) => evidence,
        None => {
            return Err(StorageFailure::Corrupted);
        },
    };
    let reproducibility_evidence = match evidence_from_text(reproducibility) {
        Some(evidence) => evidence,
        None => {
            return Err(StorageFailure::Corrupted);
        },
    };
    Ok(CrateVeracityChecks::new(provenance_evidence, reproducibility_evidence))
}

/// Removes cached data, by scope.
pub struct PolluxCleaner {
    pub cache_manager: CacheManager,
}

impl PolluxCleaner {
    pub fn new(cache_manager: CacheManager) -> (r: Self)
        ensures
            r.cache_manager == cache_manager,
    {
        Self { cache_manager }
    }

    /// The directory to remove to drop analysed data.
    pub fn cleanup_analysed_data(&self) -> (r: String)
        ensures
            r@ == joined(self.cache_manager.cache_dir@, "analysed"@),
    {
        self.cache_manager.cleanup_cached_analysis()
    }

    /// The directory to remove to drop downloaded package sources.
    pub fn cleanup_package_sources(&self) -> (r: String)
        ensures
            r@ == joined(self.cache_manager.cache_dir@, "packages"@),
    {
        self.cache_manager.cleanup_cached_packages_sources()
    }

    /// The directory to remove to drop everything cached.
    pub fn cleanup_everything(&self) -> (r: String)
        ensures
            r@ == self.cache_manager.cache_dir@,
    {
        self.cache_manager.cleanup_all()
    }
}

} // verus!
