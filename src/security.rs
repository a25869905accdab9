//! Results of the worker that relays an external static analyzer: compiler
//! warnings picked from the analyzer's diagnostics, and the result record
//! for each outcome of a run. Running the analyzer is the caller's part.
use vstd::prelude::*;
use crate::finding::AnalysisJob;
use crate::text::{contains, is_trim_of, lines_of, split_lines, str_contains, string_views, trim};

verus! {

/// Declares `serde_json::Value` so that the analyzer's JSON report can be
/// carried through unread; nothing is assumed about its contents.
#[verifier::external_type_specification]
#[verifier::external_body]
pub struct ExValue(serde_json::Value);

pub const SECURITY_WORKER_NAME: &'static str = "CoreSecurityWorkerV2.1";

/// Marks a diagnostic line as a compiler warning.
pub const WARNING_MARKER: &'static str = "Warning:";

pub const COMPILER_WARNING_TYPE: &'static str = "Compiler Warning";

pub const ERROR_TYPE: &'static str = "error";

/// A note that accompanies the analyzer's report.
#[derive(Clone, Debug)]
pub struct InformationalFinding {
    pub finding_type: String,
    pub message: String,
}

/// What became of the analyzer's report.
#[derive(Debug)]
pub enum ToolReport {
    /// The report the analyzer wrote.
    Report(serde_json::Value),
    /// The analyzer ran but gave no usable report, for this reason.
    Failed(String),
    /// The analyzer was not run.
    Absent,
}

/// The output of one job: notes and the analyzer's report.
#[derive(Debug)]
pub struct SecurityOutput {
    pub informational_findings: Vec<InformationalFinding>,
    pub report: ToolReport,
}

/// The answer to one job of the analyzer worker.
#[derive(Debug)]
pub struct SecurityResult {
    pub job_id: String,
    pub worker_name: String,
    pub output: SecurityOutput,
}

/// The lines among the first `k` of `lines` that hold the warning marker.
pub open spec fn warning_lines(lines: Seq<Seq<char>>, k: int) -> Seq<Seq<char>>
    decreases k,
{
    if k <= 0 || k > lines.len() {
        Seq::empty()
    } else if contains(lines[k - 1], WARNING_MARKER@) {
        warning_lines(lines, k - 1).push(lines[k - 1])
    } else {
        warning_lines(lines, k - 1)
    }
}

/// The compiler warnings in the analyzer's diagnostic output: one note per
/// line that holds the warning marker, with that line trimmed.
pub fn compiler_warnings(diagnostics: &str) -> (r: Vec<InformationalFinding>)
    ensures
        ({
            let w = warning_lines(lines_of(diagnostics@), lines_of(diagnostics@).len() as int);
            &&& r@.len() == w.len()
            &&& forall|k: int|
                0 <= k < w.len() ==> (#[trigger] r@[k]).finding_type@ == COMPILER_WARNING_TYPE@
                    && is_trim_of(w[k], r@[k].message@)
        }),
{
    let lines = split_lines(diagnostics);
    let ghost ls = lines_of(diagnostics@);
    let count = lines.len();
    let mut out: Vec<InformationalFinding> = Vec::new();
    let mut i: usize = 0;
    while i < count
        invariant
            count == lines@.len(),
            string_views(lines@) == ls,
            i <= count,
            out@.len() == warning_lines(ls, i as int).len(),
            forall|k: int|
                0 <= k < out@.len() ==> (#[trigger] out@[k]).finding_type@ == COMPILER_WARNING_TYPE@
                    && is_trim_of(warning_lines(ls, i as int)[k], out@[k].message@),
        decreases count - i,
    {
        let line = lines[i].as_str();
        assert(ls[i as int] == line@);
        if str_contains(line, WARNING_MARKER) {
            let note = InformationalFinding {
                finding_type: COMPILER_WARNING_TYPE.to_owned(),
                message: trim(line),
            };
            out.push(note);
        }
        i = i + 1;
    }
    out
}

/// The result of a job whose source could not be handed to the analyzer:
/// one error note with `message`, and no report.
pub fn create_error_result(job: &AnalysisJob, message: &str) -> (r: SecurityResult)
    ensures
        r.job_id@ == job.job_id@,
        r.worker_name@ == SECURITY_WORKER_NAME@,
        r.output.informational_findings@.len() == 1,
        r.output.informational_findings@[0].finding_type@ == ERROR_TYPE@,
        r.output.informational_findings@[0].message@ == message@,
        r.output.report is Absent,
{
    let mut notes: Vec<InformationalFinding> = Vec::new();
    notes.push(
        InformationalFinding { finding_type: ERROR_TYPE.to_owned(), message: message.to_owned() },
    );
    SecurityResult {
        job_id: job.job_id.clone(),
        worker_name: SECURITY_WORKER_NAME.to_owned(),
        output: SecurityOutput { informational_findings: notes, report: ToolReport::Absent },
    }
}

/// The result of a job once the analyzer ran: its report and notes, or,
/// when it failed, the reason and no notes.
pub fn security_result(
    job: &AnalysisJob,
    outcome: Result<(serde_json::Value, Vec<InformationalFinding>), String>,
) -> (r: SecurityResult)
    ensures
        r.job_id@ == job.job_id@,
        r.worker_name@ == SECURITY_WORKER_NAME@,
        match outcome {
            Ok((report, notes)) => r.output.informational_findings@ == notes@
                && r.output.report == ToolReport::Report(report),
            Err(reason) => r.output.informational_findings@.len() == 0
                && r.output.report == ToolReport::Failed(reason),
        },
{
    let output = match outcome {
        Ok((report, notes)) => SecurityOutput {
            informational_findings: notes,
            report: ToolReport::Report(report),
        },
        Err(reason) => SecurityOutput {
            informational_findings: Vec::new(),
            report: ToolReport::Failed(reason),
        },
    };
    SecurityResult {
        job_id: job.job_id.clone(),
        worker_name: SECURITY_WORKER_NAME.to_owned(),
        output,
    }
}

} // verus!
