use crate::caching::{join_path, joined};
use crate::package::CargoPackage;
use vstd::prelude::*;

verus! {

/// One package entry of a dependency lock file, as plain values.
#[derive(Clone, Debug, PartialEq, Eq)]
pub struct LockedPackage {
    pub name: String,
    pub version: String,
    /// Whether the package comes from the default registry (not a path, git or other
    /// registry source).
    pub from_default_registry: bool,
}

/// The identities of the registry packages of a lock file, in the order given.
pub open spec fn registry_packages_spec(entries: Seq<LockedPackage>) -> Seq<(Seq<char>, Seq<char>)>
    decreases entries.len(),
{
    if entries.len() == 0 {
        Seq::empty()
    } else {
        let rest = registry_packages_spec(entries.drop_last());
        if entries.last().from_default_registry {
            rest.push((entries.last().name@, entries.last().version@))
        } else {
            rest
        }
    }
}

/// Keeps the packages that come from the default registry: only those have
/// registry provenance and rebuild attestations to check.
pub fn registry_packages(entries: &Vec<LockedPackage>) -> (r: Vec<CargoPackage>)
    ensures
        r@.map_values(|p: CargoPackage| p@) == registry_packages_spec(entries@),
{
    let mut packages: Vec<CargoPackage> = Vec::new();
    let mut i: usize = 0;
    while i < entries.len()
        invariant
            i <= entries@.len(),
            packages@.map_values(|p: CargoPackage| p@) == registry_packages_spec(
                entries@.take(i as int),
            ),
        decreases entries@.len() - i,
    {
        assert(entries@.take(i + 1).drop_last() =~= entries@.take(i as int));
        let entry = &entries[i];
        if entry.from_default_registry {
            let ghost before = packages@;
            packages.push(CargoPackage { name: entry.name.clone(), version: entry.version.clone() });
            assert(packages@.map_values(|p: CargoPackage| p@) =~= before.map_values(
                |p: CargoPackage| p@,
            ).push((entry.name@, entry.version@)));
        }
        i = i + 1;
    }
    assert(entries@.take(entries@.len() as int) =~= entries@);
    packages
}

/// Name of the lock file at the root of a project.
pub const LOCKFILE_NAME: &'static str = "Cargo.lock";

/// Resolves the dependencies of a local project from its lock file.
pub struct RustProjectDependenciesResolver {
    pub project_root: String,
}

impl RustProjectDependenciesResolver {
    pub fn new(project_root: String) -> (r: Self)
        ensures
            r.project_root == project_root,
    {
        Self { project_root }
    }

    /// Where the project's lock file is, or is generated.
    pub fn lockfile_path(&self) -> (r: String)
        ensures
            r@ == joined(self.project_root@, LOCKFILE_NAME@),
    {
        join_path(self.project_root.as_str(), LOCKFILE_NAME)
    }
}

/// Another name for `RustProjectDependenciesResolver`: the resolver of a local project.
pub type LocalProjectDependenciesResolver = RustProjectDependenciesResolver;

} // verus!
