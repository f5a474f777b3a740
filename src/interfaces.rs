use crate::package::CargoPackage;
use crate::veracity::CrateVeracityChecks;
use url::Url;
use vstd::prelude::*;

verus! {

/// Why a factor check could not tell whether evidence exists.
#[derive(Clone, Copy, Debug, PartialEq, Eq, Structural)]
pub enum CheckFailure {
    /// The request did not complete (connection, timeout, retries exhausted).
    Transport,
    /// The authority answered with a status that means neither "found" nor "absent".
    UnexpectedStatus(u16),
    /// The answer could not be read as the expected document.
    MalformedResponse,
}

/// Why the cache could not be read or written.
#[derive(Clone, Copy, Debug, PartialEq, Eq, Structural)]
pub enum StorageFailure {
    Unreadable,
    Corrupted,
    Unwritable,
}

/// What one factor check answered: evidence, no evidence, or a failure.
pub type CheckAnswer = Result<Option<Url>, CheckFailure>;

/// One factor checker: asks an external authority whether evidence of its factor
/// exists for an exact package version.
pub trait VeracityFactorCheck {
    /// Every question asked so far, oldest first, with the answer given.
    spec fn answers(&self) -> Seq<((Seq<char>, Seq<char>), CheckAnswer)>;

    /// The answer this checker is bound to give about `key`, where it is fixed in
    /// advance (a checker backed by a fixed list); `None` where the answer depends on
    /// an outside authority.
    spec fn known_answer(&self, key: (Seq<char>, Seq<char>)) -> Option<CheckAnswer>;

    /// Performs exactly one query about `cargo_package`.
    fn execute(&mut self, cargo_package: &CargoPackage) -> (r: CheckAnswer)
        ensures
            final(self).answers() == old(self).answers().push((cargo_package@, r)),
            old(self).known_answer(cargo_package@) matches Some(answer) ==> r == answer,
            forall|key: (Seq<char>, Seq<char>)|
                #[trigger] final(self).known_answer(key) == old(self).known_answer(key),
    ;
}

/// Key-value store of the last known checks of each package version.
pub trait AnalyzedDataStorage {
    /// What the store holds, by package identity.
    spec fn stored(&self) -> Map<(Seq<char>, Seq<char>), CrateVeracityChecks>;

    /// Whether every read and write of this store is bound to succeed (a store held in
    /// memory); `false` where the medium may fail.
    spec fn available(&self) -> bool;

    /// Reads the checks held for `cargo_package`; `Ok(None)` is a miss.
    fn retrieve(&self, cargo_package: &CargoPackage) -> (r: Result<
        Option<CrateVeracityChecks>,
        StorageFailure,
    >)
        ensures
            r matches Ok(found) ==> found == lookup(self.stored(), cargo_package@),
            r matches Err(failure) ==> failure is Unreadable || failure is Corrupted,
            self.available() ==> r is Ok,
    ;

    /// Replaces the checks held for `cargo_package`; a write is all or nothing, so a
    /// failed one leaves the store as it was.
    fn save(&mut self, cargo_package: &CargoPackage, checks: &CrateVeracityChecks) -> (r: Result<
        (),
        StorageFailure,
    >)
        ensures
            r is Ok ==> final(self).stored() == old(self).stored().insert(cargo_package@, *checks),
            r matches Err(failure) ==> failure is Unwritable,
            r is Err ==> final(self).stored() == old(self).stored(),
            old(self).available() ==> r is Ok,
            final(self).available() == old(self).available(),
    ;
}

/// The entry of `stored` under `key`, if any.
pub open spec fn lookup(
    stored: Map<(Seq<char>, Seq<char>), CrateVeracityChecks>,
    key: (Seq<char>, Seq<char>),
) -> Option<CrateVeracityChecks> {
    if stored.contains_key(key) {
        Some(stored[key])
    } else {
        None
    }
}

} // verus!
