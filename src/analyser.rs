use crate::interfaces::{
    lookup, AnalyzedDataStorage, CheckAnswer, CheckFailure, StorageFailure, VeracityFactorCheck,
};
use crate::package::CargoPackage;
use crate::veracity::{checks_level, level_rank, CrateVeracityChecks, CrateVeracityLevel, VeracityFactor};
use vstd::prelude::*;

verus! {

/// Questions asked of one checker, with their answers, oldest first.
pub type AnswerLog = Seq<((Seq<char>, Seq<char>), CheckAnswer)>;

/// `after` is `before` with exactly one more question, about `key`.
pub open spec fn asked_once(before: AnswerLog, after: AnswerLog, key: (Seq<char>, Seq<char>)) -> bool {
    &&& after.len() == before.len() + 1
    &&& after.drop_last() == before
    &&& after.last().0 == key
}

proof fn lemma_push_is_asked_once(log: AnswerLog, key: (Seq<char>, Seq<char>), answer: CheckAnswer)
    ensures
        asked_once(log, log.push((key, answer)), key),
{
    assert(log.push((key, answer)).drop_last() =~= log);
}

/// The evidence carried by an answer; a failure carries none.
pub open spec fn answer_evidence(answer: CheckAnswer) -> Option<url::Url> {
    match answer {
        Ok(evidence) => evidence,
        Err(_) => None,
    }
}

/// What the analyser does for a package, given what the cache holds for it.
#[derive(Clone, Copy, Debug, PartialEq, Eq, Structural)]
pub enum RecheckPlan {
    /// Nothing is cached: run both factor checks.
    FullCheck,
    /// Reproducibility is not evidenced yet and may still appear: probe it alone.
    RecheckReproducibility,
    /// Reproducibility is evidenced: both known facts are stable, no query.
    UseCached,
}

pub open spec fn plan_for(cached: Option<CrateVeracityChecks>) -> RecheckPlan {
    match cached {
        None => RecheckPlan::FullCheck,
        Some(checks) => if checks.reproducibility_evidence is Some {
            RecheckPlan::UseCached
        } else {
            RecheckPlan::RecheckReproducibility
        },
    }
}

/// The checks after probing reproducibility again: new evidence is added, while an
/// absence or a failure leaves the cached checks as they are.
pub open spec fn rechecked(cached: CrateVeracityChecks, answer: CheckAnswer) -> CrateVeracityChecks {
    match answer {
        Ok(Some(evidence)) => CrateVeracityChecks {
            provenance_evidence: cached.provenance_evidence,
            reproducibility_evidence: Some(evidence),
        },
        _ => cached,
    }
}

/// What evaluating a cached package yields, where `answer` is the reproducibility
/// answer, if the plan asked for one.
pub open spec fn cached_evaluation(cached: CrateVeracityChecks, answer: CheckAnswer) -> CrateVeracityChecks {
    if cached.reproducibility_evidence is Some {
        cached
    } else {
        rechecked(cached, answer)
    }
}

/// Decides which factor checks a package needs.
pub fn recheck_plan(cached: &Option<CrateVeracityChecks>) -> (r: RecheckPlan)
    ensures
        r == plan_for(*cached),
{
    match cached {
        None => RecheckPlan::FullCheck,
        Some(checks) => if checks.reproducibility_evidence.is_some() {
            RecheckPlan::UseCached
        } else {
            RecheckPlan::RecheckReproducibility
        },
    }
}

/// Folds a reproducibility re-check into cached checks; the flag tells whether the
/// result differs from the cache and must be persisted.
pub fn apply_reproducibility_recheck(cached: CrateVeracityChecks, answer: CheckAnswer) -> (r: (
    CrateVeracityChecks,
    bool,
))
    ensures
        r.0 == rechecked(cached, answer),
        r.1 == (answer matches Ok(Some(_))),
{
    match answer {
        Ok(Some(evidence)) => (
            CrateVeracityChecks {
                provenance_evidence: cached.provenance_evidence,
                reproducibility_evidence: Some(evidence),
            },
            true,
        ),
        _ => (cached, false),
    }
}

/// Evaluating a package again, with the checks of its previous evaluation cached, never
/// yields a lower level; provenance evidence is kept as it was, and reproducibility
/// evidence once found is kept too.
pub proof fn lemma_consecutive_evaluations_monotonic(previous: CrateVeracityChecks, answer: CheckAnswer)
    ensures
        level_rank(checks_level(cached_evaluation(previous, answer))) >= level_rank(
            checks_level(previous),
        ),
        cached_evaluation(previous, answer).provenance_evidence == previous.provenance_evidence,
        previous.reproducibility_evidence is Some ==> cached_evaluation(previous, answer)
            == previous,
        checks_level(previous) == CrateVeracityLevel::SingleFactor(
            VeracityFactor::ProvenanceAttested,
        ) ==> checks_level(cached_evaluation(previous, answer)) != CrateVeracityLevel::NotAvailable,
{
}

/// Where the evaluation of one package stands. The steps come in a fixed order:
/// reproducibility query, provenance query, cache write, result; each may be skipped.
pub enum AnalysisSession {
    /// Waiting for the reproducibility answer; `cached` is what the cache held, if anything.
    AwaitingReproducibility { cached: Option<CrateVeracityChecks> },
    /// Nothing was cached: waiting for the provenance answer.
    AwaitingProvenance { reproducibility_evidence: Option<url::Url> },
    /// Waiting for the cache to take `checks`; `fallback` is what a cached package
    /// keeps if the write fails.
    AwaitingSave { checks: CrateVeracityChecks, fallback: Option<CrateVeracityChecks> },
    /// Evaluation over.
    Finished { result: Result<CrateVeracityChecks, AnalysisError> },
}

pub open spec fn begin_spec(read: Result<Option<CrateVeracityChecks>, StorageFailure>) -> AnalysisSession {
    match read {
        Err(failure) => AnalysisSession::Finished { result: Err(AnalysisError::Storage(failure)) },
        Ok(None) => AnalysisSession::AwaitingReproducibility { cached: None },
        Ok(Some(checks)) => if checks.reproducibility_evidence is Some {
            AnalysisSession::Finished { result: Ok(checks) }
        } else {
            AnalysisSession::AwaitingReproducibility { cached: Some(checks) }
        },
    }
}

pub open spec fn after_reproducibility_spec(cached: Option<CrateVeracityChecks>, answer: CheckAnswer) -> AnalysisSession {
    match cached {
        None => match answer {
            Err(failure) => AnalysisSession::Finished { result: Err(AnalysisError::Check(failure)) },
            Ok(evidence) => AnalysisSession::AwaitingProvenance { reproducibility_evidence: evidence },
        },
        Some(checks) => if answer matches Ok(Some(_)) {
            AnalysisSession::AwaitingSave { checks: rechecked(checks, answer), fallback: Some(checks) }
        } else {
            AnalysisSession::Finished { result: Ok(checks) }
        },
    }
}

pub open spec fn after_provenance_spec(reproducibility_evidence: Option<url::Url>, answer: CheckAnswer) -> AnalysisSession {
    match answer {
        Err(failure) => AnalysisSession::Finished { result: Err(AnalysisError::Check(failure)) },
        Ok(evidence) => AnalysisSession::AwaitingSave {
            checks: CrateVeracityChecks {
                provenance_evidence: evidence,
                reproducibility_evidence,
            },
            fallback: None,
        },
    }
}

/// After the write: the written checks, or on a failed write the cached checks of a
/// package that had some (a failed re-check never makes it look failed), else the error.
pub open spec fn after_save_spec(
    checks: CrateVeracityChecks,
    fallback: Option<CrateVeracityChecks>,
    written: Result<(), StorageFailure>,
) -> AnalysisSession {
    match written {
        Ok(()) => AnalysisSession::Finished { result: Ok(checks) },
        Err(failure) => match fallback {
            Some(cached) => AnalysisSession::Finished { result: Ok(cached) },
            None => AnalysisSession::Finished { result: Err(AnalysisError::Storage(failure)) },
        },
    }
}

impl AnalysisSession {
    /// Starts from what the cache read gave: a read failure ends the evaluation, a miss
    /// asks for both checks, and a cached entry follows the re-check plan.
    pub fn begin(read: Result<Option<CrateVeracityChecks>, StorageFailure>) -> (r: Self)
        ensures
            r == begin_spec(read),
    {
        match read {
            Err(failure) => AnalysisSession::Finished { result: Err(AnalysisError::Storage(failure)) },
            Ok(cached) => {
                let plan = recheck_plan(&cached);
                match (plan, cached) {
                    (RecheckPlan::UseCached, Some(checks)) => AnalysisSession::Finished { result: Ok(checks) },
                    (_, cached) => AnalysisSession::AwaitingReproducibility { cached },
                }
            },
        }
    }

    /// Takes the reproducibility answer. For a cached package a failure or an absence
    /// keeps the cached checks, and new evidence is to be persisted.
    pub fn after_reproducibility(self, answer: CheckAnswer) -> (r: Self)
        requires
            self is AwaitingReproducibility,
        ensures
            r == after_reproducibility_spec(self->cached, answer),
    {
        match self {
            AnalysisSession::AwaitingReproducibility { cached: None } => match answer {
                Err(failure) => AnalysisSession::Finished { result: Err(AnalysisError::Check(failure)) },
                Ok(evidence) => AnalysisSession::AwaitingProvenance { reproducibility_evidence: evidence },
            },
            AnalysisSession::AwaitingReproducibility { cached: Some(checks) } => {
                let kept = checks.duplicate();
                let (updated, changed) = apply_reproducibility_recheck(checks, answer);
                if changed {
                    AnalysisSession::AwaitingSave { checks: updated, fallback: Some(kept) }
                } else {
                    AnalysisSession::Finished { result: Ok(updated) }
                }
            },
            _ => self,
        }
    }

    /// Takes the provenance answer of a package that was not cached.
    pub fn after_provenance(self, answer: CheckAnswer) -> (r: Self)
        requires
            self is AwaitingProvenance,
        ensures
            r == after_provenance_spec(self->reproducibility_evidence, answer),
    {
        match self {
            AnalysisSession::AwaitingProvenance { reproducibility_evidence } => match answer {
                Err(failure) => AnalysisSession::Finished { result: Err(AnalysisError::Check(failure)) },
                Ok(evidence) => AnalysisSession::AwaitingSave {
                    checks: CrateVeracityChecks::new(evidence, reproducibility_evidence),
                    fallback: None,
                },
            },
            _ => self,
        }
    }

    /// Takes the outcome of the cache write.
    pub fn after_save(self, written: Result<(), StorageFailure>) -> (r: Self)
        requires
            self is AwaitingSave,
        ensures
            r == after_save_spec(self->checks, self->fallback, written),
    {
        match self {
            AnalysisSession::AwaitingSave { checks, fallback } => match written {
                Ok(()) => AnalysisSession::Finished { result: Ok(checks) },
                Err(failure) => match fallback {
                    Some(cached) => AnalysisSession::Finished { result: Ok(cached) },
                    None => AnalysisSession::Finished { result: Err(AnalysisError::Storage(failure)) },
                },
            },
            _ => self,
        }
    }

    pub fn awaits_reproducibility(&self) -> (r: bool)
        ensures
            r == self is AwaitingReproducibility,
    {
        matches!(self, AnalysisSession::AwaitingReproducibility { .. })
    }

    pub fn awaits_provenance(&self) -> (r: bool)
        ensures
            r == self is AwaitingProvenance,
    {
        matches!(self, AnalysisSession::AwaitingProvenance { .. })
    }

    /// The checks waiting to be written, if the session waits for the cache.
    pub fn checks_to_save(&self) -> (r: Option<&CrateVeracityChecks>)
        ensures
            self is AwaitingSave <==> r is Some,
            r matches Some(checks) ==> *checks == self->checks,
    {
        match self {
            AnalysisSession::AwaitingSave { checks, .. } => Some(checks),
            _ => None,
        }
    }

    /// The result of a finished session.
    pub fn into_result(self) -> (r: Result<CrateVeracityChecks, AnalysisError>)
        requires
            self is Finished,
        ensures
            r == self->result,
    {
        match self {
            AnalysisSession::Finished { result } => result,
            _ => Err(AnalysisError::Storage(StorageFailure::Unreadable)),
        }
    }

    pub fn is_finished(&self) -> (r: bool)
        ensures
            r == self is Finished,
    {
        matches!(self, AnalysisSession::Finished { .. })
    }
}

/// A package absent from the cache is queried for reproducibility, then provenance,
/// each exactly once, and only then written to the cache; a failed query ends the
/// evaluation with no write.
pub proof fn lemma_unseen_package_checks_both_before_saving(
    reproducibility: CheckAnswer,
    provenance: CheckAnswer,
)
    ensures
        begin_spec(Ok(None)) is AwaitingReproducibility,
        after_reproducibility_spec(None, reproducibility) is AwaitingProvenance <==> reproducibility is Ok,
        after_reproducibility_spec(None, reproducibility) is Finished <==> reproducibility is Err,
        after_provenance_spec(answer_evidence(reproducibility), provenance) is AwaitingSave
            <==> provenance is Ok,
        provenance is Ok ==> after_provenance_spec(answer_evidence(reproducibility), provenance)->checks
            == (CrateVeracityChecks {
            provenance_evidence: answer_evidence(provenance),
            reproducibility_evidence: answer_evidence(reproducibility),
        }),
{
}

/// A package cached as `SingleFactor(ReproducibleBuilds)` or `TwoFactors` is answered
/// from the cache, unchanged, without any query.
pub proof fn lemma_stable_cache_entry_needs_no_query(cached: CrateVeracityChecks)
    requires
        checks_level(cached) == CrateVeracityLevel::SingleFactor(VeracityFactor::ReproducibleBuilds)
            || checks_level(cached) == CrateVeracityLevel::TwoFactors,
    ensures
        plan_for(Some(cached)) == RecheckPlan::UseCached,
        begin_spec(Ok(Some(cached))) == (AnalysisSession::Finished { result: Ok(cached) }),
{
}

/// Why a package could not be evaluated.
#[derive(Clone, Copy, Debug, PartialEq, Eq, Structural)]
pub enum AnalysisError {
    Check(CheckFailure),
    Storage(StorageFailure),
}

/// Whether an evaluation ended because the cache could not be read.
pub open spec fn is_read_failure(r: Result<CrateVeracityChecks, AnalysisError>) -> bool {
    r matches Err(AnalysisError::Storage(failure)) && (failure is Unreadable || failure is Corrupted)
}

/// Either `checks` were written under `key` and are the result, or the write failed and
/// the store is as it was.
pub open spec fn written_or_unwritable(
    r: Result<CrateVeracityChecks, AnalysisError>,
    before: Map<(Seq<char>, Seq<char>), CrateVeracityChecks>,
    after: Map<(Seq<char>, Seq<char>), CrateVeracityChecks>,
    key: (Seq<char>, Seq<char>),
    checks: CrateVeracityChecks,
) -> bool {
    ||| (r == Ok::<CrateVeracityChecks, AnalysisError>(checks) && after == before.insert(key, checks))
    ||| (r == Err::<CrateVeracityChecks, AnalysisError>(
        AnalysisError::Storage(StorageFailure::Unwritable),
    ) && after == before)
}

/// Either `checks` were written under `key` and are the result, or the write failed and
/// the result is the `cached` checks, with the store as it was.
pub open spec fn written_or_kept(
    r: Result<CrateVeracityChecks, AnalysisError>,
    before: Map<(Seq<char>, Seq<char>), CrateVeracityChecks>,
    after: Map<(Seq<char>, Seq<char>), CrateVeracityChecks>,
    key: (Seq<char>, Seq<char>),
    checks: CrateVeracityChecks,
    cached: CrateVeracityChecks,
) -> bool {
    ||| (r == Ok::<CrateVeracityChecks, AnalysisError>(checks) && after == before.insert(key, checks))
    ||| (r == Ok::<CrateVeracityChecks, AnalysisError>(cached) && after == before)
}

/// Combines the two factor checkers and the cache behind one operation.
pub struct VeracityChecksAnalyser<C, P, R> {
    pub cache: C,
    pub provenance: P,
    pub reproducibility: R,
}

impl<C: AnalyzedDataStorage, P: VeracityFactorCheck, R: VeracityFactorCheck> VeracityChecksAnalyser<
    C,
    P,
    R,
> {
    pub fn new(cache: C, provenance: P, reproducibility: R) -> (r: Self)
        ensures
            r.cache == cache,
            r.provenance == provenance,
            r.reproducibility == reproducibility,
    {
        Self { cache, provenance, reproducibility }
    }

    /// What the cache holds for `cargo_package`.
    pub open spec fn cached_for(&self, cargo_package: CargoPackage) -> Option<CrateVeracityChecks> {
        lookup(self.cache.stored(), cargo_package@)
    }

    /// The last answer of the reproducibility checker.
    pub open spec fn last_reproducibility_answer(&self) -> CheckAnswer {
        self.reproducibility.answers().last().1
    }

    /// The last answer of the provenance checker.
    pub open spec fn last_provenance_answer(&self) -> CheckAnswer {
        self.provenance.answers().last().1
    }

    /// Whether neither checker was queried between `before` and `self`.
    pub open spec fn queried_nothing_since(&self, before: Self) -> bool {
        &&& self.provenance.answers() == before.provenance.answers()
        &&& self.reproducibility.answers() == before.reproducibility.answers()
    }

    /// Evaluates one package: trusts stable cached facts, re-probes reproducibility where
    /// it may still appear (keeping the cached checks if that probe fails), and runs
    /// both checks for a package that the cache does not hold.
    pub fn execute(&mut self, cargo_package: &CargoPackage) -> (r: Result<
        CrateVeracityChecks,
        AnalysisError,
    >)
        ensures
            // at most one query per factor, each about this package
            final(self).provenance.answers() == old(self).provenance.answers() || asked_once(
                old(self).provenance.answers(),
                final(self).provenance.answers(),
                cargo_package@,
            ),
            final(self).reproducibility.answers() == old(self).reproducibility.answers()
                || asked_once(
                old(self).reproducibility.answers(),
                final(self).reproducibility.answers(),
                cargo_package@,
            ),
            // a checker whose answer is fixed in advance gives that answer
            old(self).reproducibility.known_answer(cargo_package@) is Some
                && final(self).reproducibility.answers() != old(self).reproducibility.answers()
                ==> final(self).last_reproducibility_answer() == old(self).reproducibility.known_answer(
                cargo_package@,
            )->Some_0,
            old(self).provenance.known_answer(cargo_package@) is Some
                && final(self).provenance.answers() != old(self).provenance.answers()
                ==> final(self).last_provenance_answer() == old(self).provenance.known_answer(
                cargo_package@,
            )->Some_0,
            // a store bound to succeed never yields a storage error
            old(self).cache.available() ==> !(r is Err && r->Err_0 is Storage),
            // what the checkers are bound to answer, and whether the store is bound to
            // succeed, stay as they were
            final(self).cache.available() == old(self).cache.available(),
            forall|key: (Seq<char>, Seq<char>)|
                #[trigger] final(self).provenance.known_answer(key) == old(self).provenance.known_answer(key),
            forall|key: (Seq<char>, Seq<char>)|
                #[trigger] final(self).reproducibility.known_answer(key)
                    == old(self).reproducibility.known_answer(key),
            // a check error is the failure that one of the checkers answered
            r matches Err(AnalysisError::Check(failure)) ==> final(self).last_reproducibility_answer()
                == Err::<Option<url::Url>, CheckFailure>(failure) || final(self).last_provenance_answer()
                == Err::<Option<url::Url>, CheckFailure>(failure),
            // a failed read: no query, no write
            is_read_failure(r) ==> final(self).queried_nothing_since(*old(self)) && final(self).cache.stored() == old(self).cache.stored(),
            // the cache only ever takes the returned checks, unless a write failed
            r is Ok ==> final(self).cached_for(*cargo_package) == Some(r->Ok_0),
            r is Ok ==> final(self).cache.stored() == old(self).cache.stored() || final(self).cache.stored() == old(self).cache.stored().insert(cargo_package@, r->Ok_0),
            r is Err && r->Err_0 is Check ==> final(self).cache.stored() == old(self).cache.stored(),
            // absent from the cache: reproducibility, then provenance, each once, then the write
            old(self).cached_for(*cargo_package) is None && !is_read_failure(r) ==> {
                &&& asked_once(
                    old(self).reproducibility.answers(),
                    final(self).reproducibility.answers(),
                    cargo_package@,
                )
                &&& final(self).last_reproducibility_answer() is Err ==> {
                    &&& r == Err::<CrateVeracityChecks, AnalysisError>(
                        AnalysisError::Check(final(self).last_reproducibility_answer()->Err_0),
                    )
                    &&& final(self).provenance.answers() == old(self).provenance.answers()
                    &&& final(self).cache.stored() == old(self).cache.stored()
                }
                &&& final(self).last_reproducibility_answer() is Ok ==> asked_once(
                    old(self).provenance.answers(),
                    final(self).provenance.answers(),
                    cargo_package@,
                )
                &&& final(self).last_reproducibility_answer() is Ok
                    && final(self).last_provenance_answer() is Err ==> {
                    &&& r == Err::<CrateVeracityChecks, AnalysisError>(
                        AnalysisError::Check(final(self).last_provenance_answer()->Err_0),
                    )
                    &&& final(self).cache.stored() == old(self).cache.stored()
                }
                &&& final(self).last_reproducibility_answer() is Ok
                    && final(self).last_provenance_answer() is Ok ==> written_or_unwritable(
                    r,
                    old(self).cache.stored(),
                    final(self).cache.stored(),
                    cargo_package@,
                    CrateVeracityChecks {
                        provenance_evidence: answer_evidence(final(self).last_provenance_answer()),
                        reproducibility_evidence: answer_evidence(
                            final(self).last_reproducibility_answer(),
                        ),
                    },
                )
            },
            // cached with reproducibility evidence: returned unchanged, no query, no write
            old(self).cached_for(*cargo_package) is Some && old(self).cached_for(
                *cargo_package,
            )->Some_0.reproducibility_evidence is Some && !is_read_failure(r) ==> {
                &&& r == Ok::<CrateVeracityChecks, AnalysisError>(
                    old(self).cached_for(*cargo_package)->Some_0,
                )
                &&& final(self).queried_nothing_since(*old(self))
                &&& final(self).cache.stored() == old(self).cache.stored()
            },
            // cached as `SingleFactor(ReproducibleBuilds)` or `TwoFactors`: no query at all
            old(self).cached_for(*cargo_package) matches Some(cached) && (checks_level(cached)
                == CrateVeracityLevel::SingleFactor(VeracityFactor::ReproducibleBuilds)
                || checks_level(cached) == CrateVeracityLevel::TwoFactors)
                ==> final(self).queried_nothing_since(*old(self)),
            // cached without reproducibility evidence: one re-check of reproducibility only;
            // new evidence is added and written, anything else returns the cached checks
            old(self).cached_for(*cargo_package) is Some && old(self).cached_for(
                *cargo_package,
            )->Some_0.reproducibility_evidence is None && !is_read_failure(r) ==> {
                &&& asked_once(
                    old(self).reproducibility.answers(),
                    final(self).reproducibility.answers(),
                    cargo_package@,
                )
                &&& final(self).provenance.answers() == old(self).provenance.answers()
                &&& final(self).last_reproducibility_answer() matches Ok(Some(_)) ==> written_or_kept(
                    r,
                    old(self).cache.stored(),
                    final(self).cache.stored(),
                    cargo_package@,
                    rechecked(
                        old(self).cached_for(*cargo_package)->Some_0,
                        final(self).last_reproducibility_answer(),
                    ),
                    old(self).cached_for(*cargo_package)->Some_0,
                )
                &&& !(final(self).last_reproducibility_answer() matches Ok(Some(_))) ==> {
                    &&& r == Ok::<CrateVeracityChecks, AnalysisError>(
                        old(self).cached_for(*cargo_package)->Some_0,
                    )
                    &&& final(self).cache.stored() == old(self).cache.stored()
                }
            },
            // cached: the result extends the cached checks
            // (or, when writing the promoted checks failed, is the cached checks)
            old(self).cached_for(*cargo_package) matches Some(cached) ==> (r is Ok ==> (r->Ok_0
                == cached_evaluation(cached, final(self).last_reproducibility_answer()) || r->Ok_0
                == cached)),
            // a check failure is reported only for a package absent from the cache
            r is Err && r->Err_0 is Check ==> old(self).cached_for(*cargo_package) is None,
    {
        let session = AnalysisSession::begin(self.cache.retrieve(cargo_package));
        let ghost asked_reproducibility = self.reproducibility.answers();
        let session = if session.awaits_reproducibility() {
            let answer = self.reproducibility.execute(cargo_package);
            proof {
                lemma_push_is_asked_once(asked_reproducibility, cargo_package@, answer);
            }
            session.after_reproducibility(answer)
        } else {
            session
        };
        let ghost asked_provenance = self.provenance.answers();
        let session = if session.awaits_provenance() {
            let answer = self.provenance.execute(cargo_package);
            proof {
                lemma_push_is_asked_once(asked_provenance, cargo_package@, answer);
            }
            session.after_provenance(answer)
        } else {
            session
        };
        let written = match session.checks_to_save() {
            Some(checks) => Some(self.cache.save(cargo_package, checks)),
            None => None,
        };
        let session = match written {
            Some(outcome) => session.after_save(outcome),
            None => session,
        };
        session.into_result()
    }
}

} // verus!
