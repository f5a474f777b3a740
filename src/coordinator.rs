use crate::analyser::AnalysisError;
use crate::package::CargoPackage;
use crate::veracity::{level_flags, CrateVeracityChecks, CrateVeracityLevel};
use vstd::prelude::*;

verus! {

/// A package and its checks; `None` when its evaluation failed.
pub type AnalysisOutcome = (CargoPackage, Option<CrateVeracityChecks>);

/// Counts derived from a list of outcomes.
#[derive(Clone, Copy, Debug, PartialEq, Eq, Structural)]
pub struct StatisticsForPackages {
    pub total: usize,
    pub provenance_attested: usize,
    pub reproducible_builds: usize,
}

pub struct AnalysisResults {
    pub statistics: StatisticsForPackages,
    pub outcomes: Vec<AnalysisOutcome>,
}

pub open spec fn has_provenance(outcome: AnalysisOutcome) -> bool {
    outcome.1 matches Some(checks) && checks.provenance_evidence is Some
}

pub open spec fn has_reproducibility(outcome: AnalysisOutcome) -> bool {
    outcome.1 matches Some(checks) && checks.reproducibility_evidence is Some
}

/// Outcomes whose checks hold provenance evidence.
pub open spec fn count_provenance(outcomes: Seq<AnalysisOutcome>) -> nat
    decreases outcomes.len(),
{
    if outcomes.len() == 0 {
        0
    } else {
        count_provenance(outcomes.drop_last()) + if has_provenance(outcomes.last()) {
            1nat
        } else {
            0nat
        }
    }
}

/// Outcomes whose checks hold reproducibility evidence.
pub open spec fn count_reproducibility(outcomes: Seq<AnalysisOutcome>) -> nat
    decreases outcomes.len(),
{
    if outcomes.len() == 0 {
        0
    } else {
        count_reproducibility(outcomes.drop_last()) + if has_reproducibility(outcomes.last()) {
            1nat
        } else {
            0nat
        }
    }
}

/// Successful outcomes without provenance evidence (not available, or reproducible only).
pub open spec fn count_without_provenance(outcomes: Seq<AnalysisOutcome>) -> nat
    decreases outcomes.len(),
{
    if outcomes.len() == 0 {
        0
    } else {
        count_without_provenance(outcomes.drop_last()) + if outcomes.last().1 is Some
            && !has_provenance(outcomes.last()) {
            1nat
        } else {
            0nat
        }
    }
}

/// Failed outcomes.
pub open spec fn count_failed(outcomes: Seq<AnalysisOutcome>) -> nat
    decreases outcomes.len(),
{
    if outcomes.len() == 0 {
        0
    } else {
        count_failed(outcomes.drop_last()) + if outcomes.last().1 is None {
            1nat
        } else {
            0nat
        }
    }
}

/// The statistics of a list of outcomes.
pub open spec fn statistics_of(outcomes: Seq<AnalysisOutcome>) -> StatisticsForPackages {
    StatisticsForPackages {
        total: outcomes.len() as usize,
        provenance_attested: count_provenance(outcomes) as usize,
        reproducible_builds: count_reproducibility(outcomes) as usize,
    }
}

/// The statistics of any list of outcomes are consistent: the total is the number of
/// outcomes, and the factor counts never exceed it. Every outcome is either failed, or
/// successful with provenance, or successful without it, and each factor count is at
/// most the number of successful outcomes.
pub proof fn lemma_factor_counts_bounded(outcomes: Seq<AnalysisOutcome>)
    requires
        outcomes.len() <= usize::MAX,
    ensures
        statistics_of(outcomes).total == outcomes.len(),
        statistics_of(outcomes).provenance_attested <= statistics_of(outcomes).total,
        statistics_of(outcomes).reproducible_builds <= statistics_of(outcomes).total,
        count_provenance(outcomes) + count_without_provenance(outcomes) + count_failed(outcomes)
            == outcomes.len(),
        count_provenance(outcomes) + count_failed(outcomes) <= outcomes.len(),
        count_reproducibility(outcomes) + count_failed(outcomes) <= outcomes.len(),
    decreases outcomes.len(),
{
    if outcomes.len() > 0 {
        lemma_factor_counts_bounded(outcomes.drop_last());
    }
}

proof fn lemma_counts_remove(outcomes: Seq<AnalysisOutcome>, j: int)
    requires
        0 <= j < outcomes.len(),
    ensures
        count_provenance(outcomes) == count_provenance(outcomes.remove(j)) + if has_provenance(
            outcomes[j],
        ) {
            1nat
        } else {
            0nat
        },
        count_reproducibility(outcomes) == count_reproducibility(outcomes.remove(j))
            + if has_reproducibility(outcomes[j]) {
            1nat
        } else {
            0nat
        },
    decreases outcomes.len(),
{
    if j == outcomes.len() - 1 {
        assert(outcomes.remove(j) =~= outcomes.drop_last());
    } else {
        lemma_counts_remove(outcomes.drop_last(), j);
        assert(outcomes.remove(j).drop_last() =~= outcomes.drop_last().remove(j));
        assert(outcomes.remove(j).last() == outcomes.last());
    }
}

/// The statistics do not depend on the order in which outcomes landed: two lists with
/// the same outcomes, in any order, have the same counts.
pub proof fn lemma_counts_order_independent(outcomes: Seq<AnalysisOutcome>, reordered: Seq<AnalysisOutcome>)
    requires
        outcomes.to_multiset() == reordered.to_multiset(),
    ensures
        outcomes.len() == reordered.len(),
        count_provenance(outcomes) == count_provenance(reordered),
        count_reproducibility(outcomes) == count_reproducibility(reordered),
    decreases outcomes.len(),
{
    broadcast use vstd::seq_lib::group_to_multiset_ensures, vstd::multiset::group_multiset_axioms;

    outcomes.to_multiset_ensures();
    reordered.to_multiset_ensures();
    vstd::seq_lib::to_multiset_len(outcomes);
    vstd::seq_lib::to_multiset_len(reordered);
    if outcomes.len() > 0 {
        let last = outcomes.last();
        let rest = outcomes.drop_last();
        assert(rest.push(last) =~= outcomes);
        vstd::seq_lib::to_multiset_build(rest, last);
        assert(reordered.to_multiset().count(last) > 0);
        vstd::seq_lib::to_multiset_contains(reordered, last);
        let j = choose|j: int| 0 <= j < reordered.len() && reordered[j] == last;
        vstd::seq_lib::to_multiset_remove(reordered, j);
        assert(reordered.remove(j).to_multiset() =~= rest.to_multiset());
        lemma_counts_order_independent(rest, reordered.remove(j));
        lemma_counts_remove(reordered, j);
    }
}

/// The aggregate of a batch does not depend on the order in which its outcomes
/// landed: any two completion orders of the same outcomes give the same statistics.
pub proof fn lemma_statistics_order_independent(
    outcomes: Seq<AnalysisOutcome>,
    reordered: Seq<AnalysisOutcome>,
)
    requires
        outcomes.to_multiset() == reordered.to_multiset(),
    ensures
        statistics_of(outcomes) == statistics_of(reordered),
{
    lemma_counts_order_independent(outcomes, reordered);
}

/// Aggregates the outcomes of a batch; the outcomes are kept in the order given.
pub fn summarise_outcomes(outcomes: Vec<AnalysisOutcome>) -> (r: AnalysisResults)
    ensures
        r.outcomes@ == outcomes@,
        r.statistics == statistics_of(outcomes@),
{
    let mut with_provenance: usize = 0;
    let mut with_reproducible_builds: usize = 0;
    let mut i: usize = 0;
    while i < outcomes.len()
        invariant
            i <= outcomes@.len(),
            with_provenance == count_provenance(outcomes@.take(i as int)),
            with_reproducible_builds == count_reproducibility(outcomes@.take(i as int)),
        decreases outcomes@.len() - i,
    {
        proof {
            assert(outcomes@.take(i + 1).drop_last() =~= outcomes@.take(i as int));
            lemma_factor_counts_bounded(outcomes@.take(i as int));
        }
        if let Some(checks) = &outcomes[i].1 {
            if checks.provenance_evidence.is_some() {
                with_provenance = with_provenance + 1;
            }
            if checks.reproducibility_evidence.is_some() {
                with_reproducible_builds = with_reproducible_builds + 1;
            }
        }
        i = i + 1;
    }
    assert(outcomes@.take(outcomes@.len() as int) =~= outcomes@);
    let statistics = StatisticsForPackages {
        total: outcomes.len(),
        provenance_attested: with_provenance,
        reproducible_builds: with_reproducible_builds,
    };
    AnalysisResults { statistics, outcomes }
}

/// The wait allowed for a whole batch: twice the per-package budget for each package,
/// or `None` where that does not fit in 64 bits.
pub open spec fn deadline_spec(per_package_budget_millis: u64, batch_size: u64) -> Option<u64> {
    if per_package_budget_millis * 2 * batch_size <= u64::MAX {
        Some((per_package_budget_millis * 2 * batch_size) as u64)
    } else {
        None
    }
}

pub fn aggregation_deadline_millis(per_package_budget_millis: u64, batch_size: u64) -> (r: Option<
    u64,
>)
    ensures
        r == deadline_spec(per_package_budget_millis, batch_size),
{
    if batch_size == 0 {
        return Some(0);
    }
    match per_package_budget_millis.checked_mul(2) {
        None => {
            proof {
                assert(per_package_budget_millis * 2 * batch_size >= per_package_budget_millis * 2)
                    by (nonlinear_arith)
                    requires
                        batch_size >= 1,
                ;
            }
            None
        },
        Some(doubled) => doubled.checked_mul(batch_size),
    }
}

/// Why the aggregate of a batch could not be produced.
#[derive(Clone, Copy, Debug, PartialEq, Eq, Structural)]
pub enum AggregationError {
    /// The deadline passed before every package of the batch was evaluated.
    DeadlineExceeded { landed: usize, expected: usize },
    /// Some packages are still being evaluated and the deadline has not passed.
    StillRunning { landed: usize, expected: usize },
}

/// Collects the outcomes of one batch, then aggregates them once.
pub struct EvaluationCoordinator {
    pub batch_size: usize,
    pub outcomes: Vec<AnalysisOutcome>,
}

/// The outcome that an evaluation result stands for.
pub open spec fn outcome_checks(result: Result<CrateVeracityChecks, AnalysisError>) -> Option<
    CrateVeracityChecks,
> {
    match result {
        Ok(checks) => Some(checks),
        Err(_) => None,
    }
}

impl EvaluationCoordinator {
    pub fn new(batch_size: usize) -> (r: Self)
        ensures
            r.batch_size == batch_size,
            r.outcomes@.len() == 0,
    {
        Self { batch_size, outcomes: Vec::new() }
    }

    /// Appends the outcome of one package.
    pub fn record(&mut self, cargo_package: CargoPackage, checks: Option<CrateVeracityChecks>)
        ensures
            final(self).batch_size == old(self).batch_size,
            final(self).outcomes@ == old(self).outcomes@.push((cargo_package, checks)),
    {
        self.outcomes.push((cargo_package, checks));
    }

    /// Appends the outcome of one evaluation: a failure becomes a `None` outcome.
    pub fn record_evaluation(
        &mut self,
        cargo_package: CargoPackage,
        result: Result<CrateVeracityChecks, AnalysisError>,
    )
        ensures
            final(self).batch_size == old(self).batch_size,
            final(self).outcomes@ == old(self).outcomes@.push(
                (cargo_package, outcome_checks(result)),
            ),
    {
        let checks = match result {
            Ok(checks) => Some(checks),
            Err(_) => None,
        };
        self.record(cargo_package, checks);
    }

    /// Whether every package of the batch has an outcome.
    pub fn is_complete(&self) -> (r: bool)
        ensures
            r == (self.outcomes@.len() >= self.batch_size),
    {
        self.outcomes.len() >= self.batch_size
    }

    /// The aggregate of the batch, once every package has an outcome; otherwise an
    /// error that tells whether the deadline has passed.
    pub fn aggregate(self, deadline_elapsed: bool) -> (r: Result<AnalysisResults, AggregationError>)
        ensures
            r is Ok <==> self.outcomes@.len() >= self.batch_size,
            r matches Ok(results) ==> results.outcomes@ == self.outcomes@ && results.statistics
                == statistics_of(self.outcomes@),
            r matches Err(e) ==> e == (if deadline_elapsed {
                AggregationError::DeadlineExceeded {
                    landed: self.outcomes@.len() as usize,
                    expected: self.batch_size,
                }
            } else {
                AggregationError::StillRunning {
                    landed: self.outcomes@.len() as usize,
                    expected: self.batch_size,
                }
            }),
    {
        let landed = self.outcomes.len();
        if landed >= self.batch_size {
            Ok(summarise_outcomes(self.outcomes))
        } else if deadline_elapsed {
            Err(AggregationError::DeadlineExceeded { landed, expected: self.batch_size })
        } else {
            Err(AggregationError::StillRunning { landed, expected: self.batch_size })
        }
    }
}

/// A package and its level; `None` when its evaluation failed.
pub type EvaluationOutcome = (CargoPackage, Option<CrateVeracityLevel>);

pub struct EvaluationResults {
    pub statistics: StatisticsForPackages,
    pub outcomes: Vec<EvaluationOutcome>,
}

/// Evaluated outcomes whose level includes the factor at `index` of its two flags
/// (`0`: provenance, `1`: reproducibility).
pub open spec fn count_level_factor(outcomes: Seq<EvaluationOutcome>, index: int) -> nat
    decreases outcomes.len(),
{
    if outcomes.len() == 0 {
        0
    } else {
        count_level_factor(outcomes.drop_last(), index) + if outcomes.last().1 matches Some(level)
            && (if index == 0 {
            level_flags(level).0
        } else {
            level_flags(level).1
        }) {
            1nat
        } else {
            0nat
        }
    }
}

proof fn lemma_level_count_bounded(outcomes: Seq<EvaluationOutcome>, index: int)
    ensures
        count_level_factor(outcomes, index) <= outcomes.len(),
    decreases outcomes.len(),
{
    if outcomes.len() > 0 {
        lemma_level_count_bounded(outcomes.drop_last(), index);
    }
}

/// Aggregates level outcomes; failed evaluations count in the total only.
pub fn summarise_evaluations(outcomes: Vec<EvaluationOutcome>) -> (r: EvaluationResults)
    ensures
        r.outcomes@ == outcomes@,
        r.statistics.total == outcomes@.len(),
        r.statistics.provenance_attested == count_level_factor(outcomes@, 0),
        r.statistics.reproducible_builds == count_level_factor(outcomes@, 1),
{
    let mut with_provenance: usize = 0;
    let mut with_reproducible_builds: usize = 0;
    let mut i: usize = 0;
    while i < outcomes.len()
        invariant
            i <= outcomes@.len(),
            with_provenance == count_level_factor(outcomes@.take(i as int), 0),
            with_reproducible_builds == count_level_factor(outcomes@.take(i as int), 1),
        decreases outcomes@.len() - i,
    {
        proof {
            assert(outcomes@.take(i + 1).drop_last() =~= outcomes@.take(i as int));
            lemma_level_count_bounded(outcomes@.take(i as int), 0);
            lemma_level_count_bounded(outcomes@.take(i as int), 1);
        }
        if let Some(level) = &outcomes[i].1 {
            let (attested, reproduced) = level.to_booleans();
            if attested {
                with_provenance = with_provenance + 1;
            }
            if reproduced {
                with_reproducible_builds = with_reproducible_builds + 1;
            }
        }
        i = i + 1;
    }
    assert(outcomes@.take(outcomes@.len() as int) =~= outcomes@);
    let statistics = StatisticsForPackages {
        total: outcomes.len(),
        provenance_attested: with_provenance,
        reproducible_builds: with_reproducible_builds,
    };
    EvaluationResults { statistics, outcomes }
}

} // verus!
