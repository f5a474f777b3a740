use crate::caching::{join_path, joined};
use crate::package::CargoPackage;
use vstd::prelude::*;

verus! {

/// Which cached data a cleanup removes.
#[derive(Clone, Copy, Debug, PartialEq, Eq, Structural)]
pub enum CleanupScope {
    Everything,
    AnalysedData,
    PackageSources,
}

/// Where the report of an ecosystem inquiry goes.
#[derive(Clone, Copy, Debug, PartialEq, Eq, Structural)]
pub enum InquireReportKind {
    Console,
    Html,
}

/// How large an ecosystem sample an inquiry covers.
#[derive(Clone, Copy, Debug, PartialEq, Eq, Structural)]
pub enum InquireCoverage {
    Small,
    Medium,
    Large,
    Huge,
}

/// One request to the tool.
#[derive(Clone, Debug, PartialEq, Eq)]
pub enum PolluxTask {
    AnalyseRustCrate(CargoPackage),
    AnalyseRustProject(String),
    CheckRustCrate(CargoPackage),
    CleanupAnalysedData,
    CleanupPackageSource,
    CleanupEverything,
    InquirePopularCrates(InquireReportKind),
}

impl PolluxTask {
    /// The cleanup task of a scope.
    pub fn cleanup(scope: CleanupScope) -> (r: PolluxTask)
        ensures
            scope == CleanupScope::Everything ==> r == PolluxTask::CleanupEverything,
            scope == CleanupScope::AnalysedData ==> r == PolluxTask::CleanupAnalysedData,
            scope == CleanupScope::PackageSources ==> r == PolluxTask::CleanupPackageSource,
    {
        match scope {
            CleanupScope::Everything => PolluxTask::CleanupEverything,
            CleanupScope::AnalysedData => PolluxTask::CleanupAnalysedData,
            CleanupScope::PackageSources => PolluxTask::CleanupPackageSource,
        }
    }
}

/// Settings of the console report.
#[derive(Clone, Copy, Debug, PartialEq, Eq, Structural)]
pub struct ConsoleReporter {
    pub use_colors: bool,
}

impl ConsoleReporter {
    pub fn new(use_colors: bool) -> (r: Self)
        ensures
            r.use_colors == use_colors,
    {
        Self { use_colors }
    }
}

/// Name of the HTML report of an ecosystem inquiry.
pub const HTML_REPORT_FILE_NAME: &'static str = "pollux-report.html";

/// Settings of the HTML report.
pub struct HtmlReporter {
    pub output_folder: String,
}

impl HtmlReporter {
    pub fn new(output_folder: String) -> (r: Self)
        ensures
            r.output_folder == output_folder,
    {
        Self { output_folder }
    }

    /// Where the report is written.
    pub fn report_file(&self) -> (r: String)
        ensures
            r@ == joined(self.output_folder@, HTML_REPORT_FILE_NAME@),
    {
        join_path(self.output_folder.as_str(), HTML_REPORT_FILE_NAME)
    }
}

} // verus!
