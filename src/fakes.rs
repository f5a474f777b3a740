use crate::analyser::AnswerLog;
use crate::interfaces::{
    lookup, AnalyzedDataStorage, CheckAnswer, CheckFailure, StorageFailure, VeracityFactorCheck,
};
use crate::package::CargoPackage;
use crate::veracity::CrateVeracityChecks;
use url::Url;
use vstd::prelude::*;

verus! {

/// The evidence listed for `key`: the first entry naming it, if any.
pub open spec fn listed_evidence(entries: Seq<(CargoPackage, Url)>, key: (Seq<char>, Seq<char>)) -> Option<Url>
    decreases entries.len(),
{
    if entries.len() == 0 {
        None
    } else if entries[0].0@ == key {
        Some(entries[0].1)
    } else {
        listed_evidence(entries.drop_first(), key)
    }
}

/// A factor checker that answers from a fixed list, or always fails.
pub struct FakeVeracityChecker {
    pub evidence: Vec<(CargoPackage, Url)>,
    pub failure: Option<CheckFailure>,
    /// How many queries were made (saturating).
    pub queries: u64,
    pub asked: Ghost<AnswerLog>,
}

/// What the fake answers about `key`.
pub open spec fn fake_answer(checker: FakeVeracityChecker, key: (Seq<char>, Seq<char>)) -> CheckAnswer {
    match checker.failure {
        Some(failure) => Err(failure),
        None => Ok(listed_evidence(checker.evidence@, key)),
    }
}

impl FakeVeracityChecker {
    /// A checker that finds exactly the listed evidence.
    pub fn new(evidence: Vec<(CargoPackage, Url)>) -> (r: Self)
        ensures
            r.evidence == evidence,
            r.failure is None,
            r.queries == 0,
            r.asked@ == Seq::<((Seq<char>, Seq<char>), CheckAnswer)>::empty(),
    {
        Self { evidence, failure: None, queries: 0, asked: Ghost(Seq::empty()) }
    }

    /// A checker whose every query fails with `failure`.
    pub fn failing(failure: CheckFailure) -> (r: Self)
        ensures
            r.evidence@.len() == 0,
            r.failure == Some(failure),
            r.queries == 0,
            r.asked@ == Seq::<((Seq<char>, Seq<char>), CheckAnswer)>::empty(),
    {
        Self { evidence: Vec::new(), failure: Some(failure), queries: 0, asked: Ghost(Seq::empty()) }
    }

    /// What this checker answers about `cargo_package`, without counting a query.
    pub fn answer_for(&self, cargo_package: &CargoPackage) -> (r: CheckAnswer)
        ensures
            r == fake_answer(*self, cargo_package@),
    {
        if let Some(failure) = self.failure {
            return Err(failure);
        }
        let mut i: usize = 0;
        assert(self.evidence@.subrange(0, self.evidence@.len() as int) =~= self.evidence@);
        while i < self.evidence.len()
            invariant
                i <= self.evidence@.len(),
                self.failure is None,
                listed_evidence(self.evidence@, cargo_package@) == listed_evidence(
                    self.evidence@.subrange(i as int, self.evidence@.len() as int),
                    cargo_package@,
                ),
            decreases self.evidence@.len() - i,
        {
            let ghost rest = self.evidence@.subrange(i as int, self.evidence@.len() as int);
            assert(rest.drop_first() =~= self.evidence@.subrange(
                i + 1,
                self.evidence@.len() as int,
            ));
            if self.evidence[i].0.same_as(cargo_package) {
                return Ok(Some(self.evidence[i].1.clone()));
            }
            i = i + 1;
        }
        Ok(None)
    }
}

impl VeracityFactorCheck for FakeVeracityChecker {
    open spec fn answers(&self) -> AnswerLog {
        self.asked@
    }

    open spec fn known_answer(&self, key: (Seq<char>, Seq<char>)) -> Option<CheckAnswer> {
        Some(fake_answer(*self, key))
    }

    fn execute(&mut self, cargo_package: &CargoPackage) -> (r: CheckAnswer) {
        let answer = self.answer_for(cargo_package);
        self.queries = match self.queries.checked_add(1) {
            Some(n) => n,
            None => self.queries,
        };
        self.asked = Ghost(self.asked@.push((cargo_package@, answer)));
        answer
    }
}

/// The map that a list of cache entries stands for: later entries replace earlier ones.
pub open spec fn entries_map(entries: Seq<(CargoPackage, CrateVeracityChecks)>) -> Map<
    (Seq<char>, Seq<char>),
    CrateVeracityChecks,
>
    decreases entries.len(),
{
    if entries.len() == 0 {
        Map::empty()
    } else {
        entries_map(entries.drop_last()).insert(entries.last().0@, entries.last().1)
    }
}

/// A cache held in memory, as a list of writes.
pub struct InMemoryAnalysisCache {
    pub entries: Vec<(CargoPackage, CrateVeracityChecks)>,
}

impl InMemoryAnalysisCache {
    pub fn new() -> (r: Self)
        ensures
            r.stored() == Map::<(Seq<char>, Seq<char>), CrateVeracityChecks>::empty(),
    {
        Self { entries: Vec::new() }
    }

    /// A cache that already holds `checks` for `cargo_package`.
    pub fn holding(cargo_package: CargoPackage, checks: CrateVeracityChecks) -> (r: Self)
        ensures
            r.stored() == Map::<(Seq<char>, Seq<char>), CrateVeracityChecks>::empty().insert(
                cargo_package@,
                checks,
            ),
    {
        let mut entries = Vec::new();
        entries.push((cargo_package, checks));
        let r = Self { entries };
        assert(r.entries@.drop_last() =~= Seq::<(CargoPackage, CrateVeracityChecks)>::empty());
        assert(entries_map(r.entries@.drop_last()) =~= Map::<
            (Seq<char>, Seq<char>),
            CrateVeracityChecks,
        >::empty());
        assert(r.stored() =~= Map::<(Seq<char>, Seq<char>), CrateVeracityChecks>::empty().insert(
            r.entries@[0].0@,
            r.entries@[0].1,
        ));
        r
    }

    /// The checks held for `cargo_package`, if any.
    pub fn find(&self, cargo_package: &CargoPackage) -> (r: Option<CrateVeracityChecks>)
        ensures
            r == lookup(self.stored(), cargo_package@),
    {
        let mut i: usize = self.entries.len();
        assert(self.entries@.subrange(0, self.entries@.len() as int) =~= self.entries@);
        while i > 0
            invariant
                i <= self.entries@.len(),
                lookup(self.stored(), cargo_package@) == lookup(
                    entries_map(self.entries@.subrange(0, i as int)),
                    cargo_package@,
                ),
            decreases i,
        {
            let ghost prefix = self.entries@.subrange(0, i as int);
            assert(prefix.drop_last() =~= self.entries@.subrange(0, i - 1));
            if self.entries[i - 1].0.same_as(cargo_package) {
                return Some(self.entries[i - 1].1.duplicate());
            }
            i = i - 1;
        }
        assert(self.entries@.subrange(0, 0) =~= Seq::<(CargoPackage, CrateVeracityChecks)>::empty());
        None
    }
}

impl AnalyzedDataStorage for InMemoryAnalysisCache {
    open spec fn stored(&self) -> Map<(Seq<char>, Seq<char>), CrateVeracityChecks> {
        entries_map(self.entries@)
    }

    open spec fn available(&self) -> bool {
        true
    }

    fn retrieve(&self, cargo_package: &CargoPackage) -> (r: Result<
        Option<CrateVeracityChecks>,
        StorageFailure,
    >) {
        Ok(self.find(cargo_package))
    }

    fn save(&mut self, cargo_package: &CargoPackage, checks: &CrateVeracityChecks) -> (r: Result<
        (),
        StorageFailure,
    >) {
        let ghost before = self.entries@;
        self.entries.push((cargo_package.duplicate(), checks.duplicate()));
        assert(self.entries@.drop_last() =~= before);
        Ok(())
    }
}

} // verus!
