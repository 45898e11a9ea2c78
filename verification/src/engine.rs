//! Reconciles one finished run of the tool with the report it wrote.
//!
//! The exit status alone gives the verdict. The report alone gives the data.
//! Neither is checked against the other: a run that fails on updates and
//! writes an empty report is `UpdateRequired` with no projects.
use crate::json::{parse_view, parsed_text, Json, JsonValue, SyntaxFault, SyntaxFaultView};
use crate::report::{views_of, DotnetOutdatedData, ReportView};
use crate::decode::{report_of_parse, spec_report_of_parse, ReportError, ReportErrorView};
use vstd::prelude::*;
use vstd::string::*;
use vstd::utf8::*;

verus! {

/// What the exit status of the tool says about updates.
#[derive(Debug, Clone, Copy, PartialEq, Eq, Structural)]
pub enum IndicatedUpdateRequirement {
    /// No update is required.
    UpToDate,
    /// An update is required.
    UpdateRequired,
}

impl IndicatedUpdateRequirement {
    /// How the verdict is written out.
    pub open spec fn rendering(self) -> Seq<char> {
        match self {
            IndicatedUpdateRequirement::UpToDate => "up-to-date"@,
            IndicatedUpdateRequirement::UpdateRequired => "update-required"@,
        }
    }

    /// The verdict for a run: up to date exactly when the tool exited with
    /// success.
    pub open spec fn of_exit(success: bool) -> IndicatedUpdateRequirement {
        if success {
            IndicatedUpdateRequirement::UpToDate
        } else {
            IndicatedUpdateRequirement::UpdateRequired
        }
    }

    /// The text of this verdict, borrowed.
    pub fn as_str(&self) -> (s: &'static str)
        ensures
            s@ == self.rendering(),
    {
        match self {
            IndicatedUpdateRequirement::UpToDate => "up-to-date",
            IndicatedUpdateRequirement::UpdateRequired => "update-required",
        }
    }

    /// The text of this verdict, owned.
    pub fn to_string(&self) -> (s: String)
        ensures
            s@ == self.rendering(),
    {
        String::from_str(self.as_str())
    }

    /// Classifies a run by its exit status.
    pub fn from_exit(success: bool) -> (verdict: IndicatedUpdateRequirement)
        ensures
            verdict == IndicatedUpdateRequirement::of_exit(success),
            verdict == IndicatedUpdateRequirement::UpToDate <==> success,
    {
        if success {
            IndicatedUpdateRequirement::UpToDate
        } else {
            IndicatedUpdateRequirement::UpdateRequired
        }
    }
}

/// What one run of the tool left behind, apart from its report.
#[derive(Debug, Clone, PartialEq, Eq)]
pub struct ToolRun {
    /// Whether the tool exited with success.
    pub success: bool,
    /// The bytes the tool wrote to its standard output.
    pub stdout: Vec<u8>,
    /// The bytes the tool wrote to its standard error.
    pub stderr: Vec<u8>,
}

/// The mathematical content of a [`ToolRun`].
pub struct ToolRunView {
    pub success: bool,
    pub stdout: Seq<u8>,
    pub stderr: Seq<u8>,
}

impl View for ToolRun {
    type V = ToolRunView;

    open spec fn view(&self) -> ToolRunView {
        ToolRunView { success: self.success, stdout: self.stdout@, stderr: self.stderr@ }
    }
}

/// One of the two captured streams.
#[derive(Debug, Clone, Copy, PartialEq, Eq, Structural)]
pub enum Stream {
    Stdout,
    Stderr,
}

/// How loud a diagnostic is.
#[derive(Debug, Clone, Copy, PartialEq, Eq, Structural)]
pub enum Level {
    Warn,
    Debug,
}

/// Something to write to the log after a run that did not exit with success.
#[derive(Debug, Clone, PartialEq, Eq)]
pub enum Diagnostic {
    /// The tool did not exit with success.
    ExitFailure,
    /// What the tool wrote to its standard output.
    Output(String),
    /// What the tool wrote to its standard error.
    ErrorOutput(String),
}

/// The mathematical content of a [`Diagnostic`].
pub enum DiagnosticView {
    ExitFailure,
    Output(Seq<char>),
    ErrorOutput(Seq<char>),
}

impl View for Diagnostic {
    type V = DiagnosticView;

    open spec fn view(&self) -> DiagnosticView {
        match self {
            Diagnostic::ExitFailure => DiagnosticView::ExitFailure,
            Diagnostic::Output(text) => DiagnosticView::Output(text@),
            Diagnostic::ErrorOutput(text) => DiagnosticView::ErrorOutput(text@),
        }
    }
}

impl DiagnosticView {
    /// The exit status and the error stream are warnings; the output stream
    /// is for debugging.
    pub open spec fn level(self) -> Level {
        match self {
            DiagnosticView::ExitFailure => Level::Warn,
            DiagnosticView::Output(_) => Level::Debug,
            DiagnosticView::ErrorOutput(_) => Level::Warn,
        }
    }
}

impl Diagnostic {
    /// How loud this diagnostic is.
    pub fn level(&self) -> (level: Level)
        ensures
            level == self@.level(),
    {
        match self {
            Diagnostic::ExitFailure => Level::Warn,
            Diagnostic::Output(_) => Level::Debug,
            Diagnostic::ErrorOutput(_) => Level::Warn,
        }
    }
}

/// `core::str::Utf8Error`, the standard library's account of where bytes
/// stop being UTF-8.
#[verifier::external_type_specification]
#[verifier::external_body]
pub struct ExUtf8Error(core::str::Utf8Error);

/// What there is to log after a run, and the stream, if any, at which the
/// logging had to stop because its bytes are not UTF-8.
#[derive(Debug, Clone, PartialEq, Eq)]
pub struct Diagnosis {
    /// What to log, in order.
    pub lines: Vec<Diagnostic>,
    /// The stream that is not text, if the logging stopped at one.
    pub failure: Option<Stream>,
}

/// The mathematical content of a [`Diagnosis`].
pub struct DiagnosisView {
    pub lines: Seq<DiagnosticView>,
    pub failure: Option<Stream>,
}

impl View for Diagnosis {
    type V = DiagnosisView;

    open spec fn view(&self) -> DiagnosisView {
        DiagnosisView { lines: views_of(self.lines@), failure: self.failure }
    }
}

/// What is logged for a run.
///
/// Nothing for a run that exited with success. Otherwise the exit status,
/// then the standard output, then the standard error unless it is empty;
/// the first of the two streams that is not UTF-8 ends the list and is the
/// failure.
pub open spec fn spec_diagnose(run: ToolRunView) -> DiagnosisView {
    if run.success {
        DiagnosisView { lines: Seq::empty(), failure: None }
    } else if !valid_utf8(run.stdout) {
        DiagnosisView { lines: seq![DiagnosticView::ExitFailure], failure: Some(Stream::Stdout) }
    } else if run.stderr.len() == 0 {
        DiagnosisView {
            lines: seq![
                DiagnosticView::ExitFailure,
                DiagnosticView::Output(decode_utf8(run.stdout)),
            ],
            failure: None,
        }
    } else if !valid_utf8(run.stderr) {
        DiagnosisView {
            lines: seq![
                DiagnosticView::ExitFailure,
                DiagnosticView::Output(decode_utf8(run.stdout)),
            ],
            failure: Some(Stream::Stderr),
        }
    } else {
        DiagnosisView {
            lines: seq![
                DiagnosticView::ExitFailure,
                DiagnosticView::Output(decode_utf8(run.stdout)),
                DiagnosticView::ErrorOutput(decode_utf8(run.stderr)),
            ],
            failure: None,
        }
    }
}

/// Decodes bytes as UTF-8 with `core::str::from_utf8`: succeeds exactly on
/// well-formed UTF-8, and then gives the characters that the bytes encode.
#[verifier::external_body]
fn text_of_bytes(bytes: &[u8]) -> (r: Result<&str, core::str::Utf8Error>)
    ensures
        r is Ok <==> valid_utf8(bytes@),
        r matches Ok(text) ==> text@ == decode_utf8(bytes@),
{
    core::str::from_utf8(bytes)
}

/// Decides what to log for a run, decoding the captured streams as far as
/// they are needed.
pub fn diagnose(run: &ToolRun) -> (d: Diagnosis)
    ensures
        d@ == spec_diagnose(run@),
{
    let mut lines: Vec<Diagnostic> = Vec::new();
    if run.success {
        let d = Diagnosis { lines, failure: None };
        assert(d@.lines =~= Seq::<DiagnosticView>::empty());
        return d;
    }
    lines.push(Diagnostic::ExitFailure);
    match text_of_bytes(run.stdout.as_slice()) {
        Err(_) => {
            let d = Diagnosis { lines, failure: Some(Stream::Stdout) };
            assert(d@.lines =~= seq![DiagnosticView::ExitFailure]);
            return d;
        },
        Ok(text) => {
            lines.push(Diagnostic::Output(String::from_str(text)));
        },
    }
    if run.stderr.len() == 0 {
        let d = Diagnosis { lines, failure: None };
        assert(d@.lines =~= spec_diagnose(run@).lines);
        return d;
    }
    match text_of_bytes(run.stderr.as_slice()) {
        Err(_) => {
            let d = Diagnosis { lines, failure: Some(Stream::Stderr) };
            assert(d@.lines =~= spec_diagnose(run@).lines);
            d
        },
        Ok(text) => {
            lines.push(Diagnostic::ErrorOutput(String::from_str(text)));
            let d = Diagnosis { lines, failure: None };
            assert(d@.lines =~= spec_diagnose(run@).lines);
            d
        },
    }
}

/// Why a finished run gives no result.
#[derive(Debug, Clone, PartialEq, Eq)]
pub enum EngineError {
    /// A captured stream had to be logged and is not text.
    Capture(Stream),
    /// The report could not be read.
    Report(ReportError),
}

/// The mathematical content of an [`EngineError`].
pub enum EngineErrorView {
    Capture(Stream),
    Report(ReportErrorView),
}

impl View for EngineError {
    type V = EngineErrorView;

    open spec fn view(&self) -> EngineErrorView {
        match self {
            EngineError::Capture(stream) => EngineErrorView::Capture(*stream),
            EngineError::Report(e) => EngineErrorView::Report(e@),
        }
    }
}

/// The view of what reconciling a run gave.
pub open spec fn outcome_view(
    r: Result<(IndicatedUpdateRequirement, DotnetOutdatedData), EngineError>,
) -> Result<(IndicatedUpdateRequirement, ReportView), EngineErrorView> {
    match r {
        Ok((verdict, data)) => Ok((verdict, data@)),
        Err(e) => Err(e@),
    }
}

/// The result of a run, given what the JSON reader made of the report text.
///
/// A captured stream that had to be logged and is not text fails the run
/// before the report is looked at. Otherwise the report decides between
/// success and failure, and the exit status alone decides the verdict.
pub open spec fn spec_conclude(
    run: ToolRunView,
    parsed: Result<JsonValue, SyntaxFaultView>,
) -> Result<(IndicatedUpdateRequirement, ReportView), EngineErrorView> {
    match spec_diagnose(run).failure {
        Some(stream) => Err(EngineErrorView::Capture(stream)),
        None => match spec_report_of_parse(parsed) {
            Ok(report) => Ok((IndicatedUpdateRequirement::of_exit(run.success), report)),
            Err(e) => Err(EngineErrorView::Report(e)),
        },
    }
}

/// Whenever a run gives a result, the verdict is `UpToDate` exactly when the
/// tool exited with success, whatever the report holds: two reports that
/// both decode give the same verdict for the same run, be their project
/// lists empty or not.
pub proof fn lemma_verdict_follows_exit_status(
    run: ToolRunView,
    parsed: Result<JsonValue, SyntaxFaultView>,
    other: Result<JsonValue, SyntaxFaultView>,
)
    ensures
        spec_conclude(run, parsed) matches Ok(outcome) ==> (outcome.0
            == IndicatedUpdateRequirement::UpToDate <==> run.success),
        spec_conclude(run, parsed) is Ok && spec_conclude(run, other) is Ok ==> spec_conclude(
            run,
            parsed,
        )->Ok_0.0 == spec_conclude(run, other)->Ok_0.0,
{
}

/// Reconciles a run with what the JSON reader made of its report.
pub fn conclude(run: &ToolRun, parsed: Result<Json, SyntaxFault>) -> (r: Result<
    (IndicatedUpdateRequirement, DotnetOutdatedData),
    EngineError,
>)
    ensures
        outcome_view(r) == spec_conclude(run@, parse_view(parsed)),
        r matches Ok(outcome) ==> (outcome.0 == IndicatedUpdateRequirement::UpToDate
            <==> run.success),
{
    let diagnosis = diagnose(run);
    match diagnosis.failure {
        Some(stream) => Err(EngineError::Capture(stream)),
        None => match report_of_parse(parsed) {
            Ok(data) => Ok((IndicatedUpdateRequirement::from_exit(run.success), data)),
            Err(e) => Err(EngineError::Report(e)),
        },
    }
}

/// Reconciles a run with the text of the report that it wrote: the verdict
/// of the exit status together with the decoded report, or the reason why
/// there is no result.
pub fn reconcile(run: &ToolRun, report_text: &str) -> (r: Result<
    (IndicatedUpdateRequirement, DotnetOutdatedData),
    EngineError,
>)
    ensures
        outcome_view(r) == spec_conclude(run@, parsed_text(report_text@)),
        r matches Ok(outcome) ==> (outcome.0 == IndicatedUpdateRequirement::UpToDate
            <==> run.success),
{
    conclude(run, Json::parse(report_text))
}

} // verus!
