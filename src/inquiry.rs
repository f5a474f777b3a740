use crate::analyser::{AnalysisError, VeracityChecksAnalyser};
use crate::interfaces::{AnalyzedDataStorage, CheckFailure, VeracityFactorCheck};
use crate::package::CargoPackage;
use crate::veracity::CrateVeracityChecks;
use vstd::prelude::*;
use vstd::string::*;

verus! {

/// One package of an ecosystem sample, with its checks.
pub struct InquiringOutcome {
    pub cargo_package: CargoPackage,
    pub checks: CrateVeracityChecks,
}

/// Counts and shares of trust factors over an ecosystem sample.
pub struct EcosystemInquiringResults {
    pub total_crates_inquired: u32,
    pub total_crates_with_trusted_publishing: u32,
    pub total_crates_with_reproducibility: u32,
    /// Share of the sample with provenance evidence, in whole percent (rounded down),
    /// as decimal text.
    pub presence_of_trusted_publishing: String,
    /// Share of the sample with reproducibility evidence, in whole percent (rounded
    /// down), as decimal text.
    pub presence_of_reproducibility: String,
    pub outcomes: Vec<InquiringOutcome>,
}

pub open spec fn inquired_with_provenance(outcomes: Seq<InquiringOutcome>) -> nat
    decreases outcomes.len(),
{
    if outcomes.len() == 0 {
        0
    } else {
        inquired_with_provenance(outcomes.drop_last()) + if outcomes.last().checks.provenance_evidence is Some {
            1nat
        } else {
            0nat
        }
    }
}

pub open spec fn inquired_with_reproducibility(outcomes: Seq<InquiringOutcome>) -> nat
    decreases outcomes.len(),
{
    if outcomes.len() == 0 {
        0
    } else {
        inquired_with_reproducibility(outcomes.drop_last()) + if outcomes.last().checks.reproducibility_evidence is Some {
            1nat
        } else {
            0nat
        }
    }
}

proof fn lemma_inquired_counts_bounded(outcomes: Seq<InquiringOutcome>)
    ensures
        inquired_with_provenance(outcomes) <= outcomes.len(),
        inquired_with_reproducibility(outcomes) <= outcomes.len(),
    decreases outcomes.len(),
{
    if outcomes.len() > 0 {
        lemma_inquired_counts_bounded(outcomes.drop_last());
    }
}

/// `part` out of `total`, in whole percent rounded down.
pub open spec fn percent_of(part: nat, total: nat) -> nat
    recommends
        total > 0,
{
    (100 * part) / total
}

/// The decimal digit of `d`.
pub open spec fn digit_char(d: nat) -> char {
    if d == 0 {
        '0'
    } else if d == 1 {
        '1'
    } else if d == 2 {
        '2'
    } else if d == 3 {
        '3'
    } else if d == 4 {
        '4'
    } else if d == 5 {
        '5'
    } else if d == 6 {
        '6'
    } else if d == 7 {
        '7'
    } else if d == 8 {
        '8'
    } else {
        '9'
    }
}

/// The decimal text of `n`, without leading zeros.
pub open spec fn decimal(n: nat) -> Seq<char>
    decreases n,
{
    if n < 10 {
        seq![digit_char(n)]
    } else {
        decimal(n / 10).push(digit_char(n % 10))
    }
}

fn digit_text(d: u32) -> (r: &'static str)
    requires
        d < 10,
    ensures
        r@ == seq![digit_char(d as nat)],
{
    let r = match d {
        0 => "0",
        1 => "1",
        2 => "2",
        3 => "3",
        4 => "4",
        5 => "5",
        6 => "6",
        7 => "7",
        8 => "8",
        _ => "9",
    };
    proof {
        reveal_strlit("0");
        reveal_strlit("1");
        reveal_strlit("2");
        reveal_strlit("3");
        reveal_strlit("4");
        reveal_strlit("5");
        reveal_strlit("6");
        reveal_strlit("7");
        reveal_strlit("8");
        reveal_strlit("9");
        assert(r@ =~= seq![digit_char(d as nat)]);
    }
    r
}

/// The decimal text of `n`.
pub fn decimal_text(n: u32) -> (r: String)
    ensures
        r@ == decimal(n as nat),
    decreases n,
{
    if n < 10 {
        String::from_str(digit_text(n))
    } else {
        let mut text = decimal_text(n / 10);
        text.append(digit_text(n % 10));
        proof {
            assert(text@ =~= decimal(n as nat));
        }
        text
    }
}

fn percent(part: u32, total: u32) -> (r: u32)
    requires
        0 < total,
        part <= total,
    ensures
        r == percent_of(part as nat, total as nat),
        r <= 100,
{
    let scaled: u64 = 100 * (part as u64);
    proof {
        assert((100 * part) / (total as int) <= 100) by (nonlinear_arith)
            requires
                0 < total,
                part <= total,
        ;
    }
    (scaled / (total as u64)) as u32
}

/// Aggregates the outcomes of an ecosystem sample.
pub fn summarise_inquiry(outcomes: Vec<InquiringOutcome>) -> (r: EcosystemInquiringResults)
    requires
        0 < outcomes@.len() <= u32::MAX,
    ensures
        r.outcomes@ == outcomes@,
        r.total_crates_inquired == outcomes@.len(),
        r.total_crates_with_trusted_publishing == inquired_with_provenance(outcomes@),
        r.total_crates_with_reproducibility == inquired_with_reproducibility(outcomes@),
        r.presence_of_trusted_publishing@ == decimal(
            percent_of(inquired_with_provenance(outcomes@), outcomes@.len()),
        ),
        r.presence_of_reproducibility@ == decimal(
            percent_of(inquired_with_reproducibility(outcomes@), outcomes@.len()),
        ),
{
    let mut with_trusted_publishing: u32 = 0;
    let mut with_reproducibility: u32 = 0;
    let mut i: usize = 0;
    while i < outcomes.len()
        invariant
            i <= outcomes@.len() <= u32::MAX,
            with_trusted_publishing == inquired_with_provenance(outcomes@.take(i as int)),
            with_reproducibility == inquired_with_reproducibility(outcomes@.take(i as int)),
        decreases outcomes@.len() - i,
    {
        proof {
            assert(outcomes@.take(i + 1).drop_last() =~= outcomes@.take(i as int));
            lemma_inquired_counts_bounded(outcomes@.take(i as int));
        }
        if outcomes[i].checks.provenance_evidence.is_some() {
            with_trusted_publishing = with_trusted_publishing + 1;
        }
        if outcomes[i].checks.reproducibility_evidence.is_some() {
            with_reproducibility = with_reproducibility + 1;
        }
        i = i + 1;
    }
    proof {
        assert(outcomes@.take(outcomes@.len() as int) =~= outcomes@);
        lemma_inquired_counts_bounded(outcomes@);
    }
    let total = outcomes.len() as u32;
    EcosystemInquiringResults {
        total_crates_inquired: total,
        total_crates_with_trusted_publishing: with_trusted_publishing,
        total_crates_with_reproducibility: with_reproducibility,
        presence_of_trusted_publishing: decimal_text(percent(with_trusted_publishing, total)),
        presence_of_reproducibility: decimal_text(percent(with_reproducibility, total)),
        outcomes,
    }
}

/// Whether no two packages of `packages` name the same version.
pub open spec fn distinct_packages(packages: Seq<CargoPackage>) -> bool {
    forall|i: int, j: int|
        0 <= i < j < packages.len() ==> #[trigger] packages[i]@ != #[trigger] packages[j]@
}

/// Why an ecosystem inquiry produced no results.
#[derive(Clone, Copy, Debug, PartialEq, Eq, Structural)]
pub enum InquiryError {
    /// The sample holds no package: no share can be computed.
    EmptySample,
    /// The sample holds more packages than the counts can represent.
    SampleTooLarge,
    /// One package of the sample could not be evaluated.
    Analysis(AnalysisError),
}

/// Evaluates an ecosystem sample, package by package, with one analyser.
pub struct PolluxInquirer<C, P, R> {
    pub veracity_analyser: VeracityChecksAnalyser<C, P, R>,
}

impl<C: AnalyzedDataStorage, P: VeracityFactorCheck, R: VeracityFactorCheck> PolluxInquirer<C, P, R> {
    pub fn new(veracity_analyser: VeracityChecksAnalyser<C, P, R>) -> (r: Self)
        ensures
            r.veracity_analyser == veracity_analyser,
    {
        Self { veracity_analyser }
    }

    /// Whether both checkers are bound to answer without failure about every package
    /// of `packages`.
    pub open spec fn checkers_cannot_fail_on(&self, packages: Seq<CargoPackage>) -> bool {
        forall|i: int|
            0 <= i < packages.len() ==> {
                &&& self.veracity_analyser.provenance.known_answer(#[trigger] packages[i]@) is Some
                &&& self.veracity_analyser.provenance.known_answer(packages[i]@)->Some_0 is Ok
                &&& self.veracity_analyser.reproducibility.known_answer(packages[i]@) is Some
                &&& self.veracity_analyser.reproducibility.known_answer(packages[i]@)->Some_0 is Ok
            }
    }

    /// Evaluates every package of the sample in order and aggregates the checks; the
    /// first package that cannot be evaluated stops the inquiry.
    pub fn inquire_packages(&mut self, packages: Vec<CargoPackage>) -> (r: Result<
        EcosystemInquiringResults,
        InquiryError,
    >)
        ensures
            packages@.len() == 0 ==> r == Err::<EcosystemInquiringResults, InquiryError>(
                InquiryError::EmptySample,
            ),
            packages@.len() > u32::MAX ==> r == Err::<EcosystemInquiringResults, InquiryError>(
                InquiryError::SampleTooLarge,
            ),
            r is Err ==> packages@.len() == 0 || packages@.len() > u32::MAX || r->Err_0 is Analysis,
            // success is owed where neither the store nor a checker can fail
            0 < packages@.len() <= u32::MAX && old(self).veracity_analyser.cache.available() && old(self).checkers_cannot_fail_on(packages@) ==> r is Ok,
            // a check error is what a checker answered; a storage error needs a store
            // that may fail
            r matches Err(InquiryError::Analysis(AnalysisError::Check(failure))) ==> final(self).veracity_analyser.last_reproducibility_answer() == Err::<Option<url::Url>, CheckFailure>(
                failure,
            ) || final(self).veracity_analyser.last_provenance_answer() == Err::<
                Option<url::Url>,
                CheckFailure,
            >(failure),
            r matches Err(InquiryError::Analysis(AnalysisError::Storage(_))) ==> !old(self).veracity_analyser.cache.available(),
            r matches Ok(results) ==> {
                &&& results.outcomes@.len() == packages@.len()
                &&& forall|i: int|
                    0 <= i < packages@.len() ==> #[trigger] results.outcomes@[i].cargo_package
                        == packages@[i]
                &&& results.total_crates_inquired == packages@.len()
                &&& results.total_crates_with_trusted_publishing == inquired_with_provenance(
                    results.outcomes@,
                )
                &&& results.total_crates_with_reproducibility == inquired_with_reproducibility(
                    results.outcomes@,
                )
                &&& results.presence_of_trusted_publishing@ == decimal(
                    percent_of(inquired_with_provenance(results.outcomes@), packages@.len()),
                )
                &&& results.presence_of_reproducibility@ == decimal(
                    percent_of(inquired_with_reproducibility(results.outcomes@), packages@.len()),
                )
            },
            // each outcome holds what the analyser returned for its package, which the
            // cache now holds, where the sample names each package once
            r matches Ok(results) ==> (distinct_packages(packages@) ==> forall|i: int|
                0 <= i < packages@.len() ==> final(self).veracity_analyser.cached_for(
                    #[trigger] packages@[i],
                ) == Some(results.outcomes@[i].checks)),
    {
        if packages.len() == 0 {
            return Err(InquiryError::EmptySample);
        }
        if packages.len() > u32::MAX as usize {
            return Err(InquiryError::SampleTooLarge);
        }
        let mut inquired: Vec<InquiringOutcome> = Vec::new();
        let mut i: usize = 0;
        while i < packages.len()
            invariant
                i <= packages@.len() <= u32::MAX,
                inquired@.len() == i,
                forall|j: int| 0 <= j < i ==> #[trigger] inquired@[j].cargo_package == packages@[j],
                distinct_packages(packages@) ==> forall|j: int|
                    0 <= j < i ==> self.veracity_analyser.cached_for(#[trigger] packages@[j])
                        == Some(inquired@[j].checks),
                self.veracity_analyser.cache.available() == old(self).veracity_analyser.cache.available(),
                forall|key: (Seq<char>, Seq<char>)|
                    #[trigger] self.veracity_analyser.provenance.known_answer(key) == old(self).veracity_analyser.provenance.known_answer(key),
                forall|key: (Seq<char>, Seq<char>)|
                    #[trigger] self.veracity_analyser.reproducibility.known_answer(key) == old(self).veracity_analyser.reproducibility.known_answer(key),
            decreases packages@.len() - i,
        {
            let cargo_package = packages[i].duplicate();
            let ghost before = self.veracity_analyser.cache.stored();
            match self.veracity_analyser.execute(&cargo_package) {
                Ok(checks) => {
                    proof {
                        assert forall|j: int| 0 <= j < i && distinct_packages(packages@) implies
                            self.veracity_analyser.cached_for(#[trigger] packages@[j])
                            == Some(inquired@[j].checks) by {
                            assert(packages@[j]@ != packages@[i as int]@);
                        }
                    }
                    inquired.push(InquiringOutcome { cargo_package, checks });
                },
                Err(failure) => {
                    return Err(InquiryError::Analysis(failure));
                },
            }
            i = i + 1;
        }
        Ok(summarise_inquiry(inquired))
    }
}

} // verus!
