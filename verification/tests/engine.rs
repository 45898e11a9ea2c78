use dotnet_outdated::engine::{
    conclude, diagnose, reconcile, Diagnostic, EngineError, IndicatedUpdateRequirement, Level,
    Stream, ToolRun,
};
use dotnet_outdated::json::{Json, JsonKind, SyntaxFault};
use dotnet_outdated::report::{Dependency, DotnetOutdatedData, Framework, Project, Severity};
use dotnet_outdated::decode::ReportError;
use dotnet_outdated::schema::{Mismatch, PathSegment, ShapeError};

const EMPTY_REPORT: &str = "{\"Projects\": []}";

const FULL_REPORT: &str = "{\"Projects\": [{\"Name\": \"App\", \"FilePath\": \"App.csproj\", \
    \"TargetFrameworks\": [{\"Name\": \"net6.0\", \"Dependencies\": [{\"Name\": \"Foo\", \
    \"ResolvedVersion\": \"1.0.0\", \"LatestVersion\": \"2.0.0\", \"UpgradeSeverity\": \"Major\"}]}]}]}";

fn run(success: bool, stdout: &[u8], stderr: &[u8]) -> ToolRun {
    ToolRun { success, stdout: stdout.to_vec(), stderr: stderr.to_vec() }
}

fn full_report() -> DotnetOutdatedData {
    DotnetOutdatedData {
        projects: vec![Project {
            name: "App".to_string(),
            file_path: "App.csproj".to_string(),
            target_frameworks: vec![Framework {
                name: "net6.0".to_string(),
                dependencies: vec![Dependency {
                    name: "Foo".to_string(),
                    resolved_version: "1.0.0".to_string(),
                    latest_version: "2.0.0".to_string(),
                    upgrade_severity: Severity::Major,
                }],
            }],
        }],
    }
}

#[test]
fn verdict_renders_in_lower_case_with_dashes() {
    assert_eq!(IndicatedUpdateRequirement::UpToDate.to_string(), "up-to-date");
    assert_eq!(IndicatedUpdateRequirement::UpdateRequired.to_string(), "update-required");
    assert_eq!(IndicatedUpdateRequirement::UpToDate.as_str(), "up-to-date");
    assert_eq!(IndicatedUpdateRequirement::UpdateRequired.as_str(), "update-required");
}

#[test]
fn verdict_follows_the_exit_status() {
    assert_eq!(IndicatedUpdateRequirement::from_exit(true), IndicatedUpdateRequirement::UpToDate);
    assert_eq!(
        IndicatedUpdateRequirement::from_exit(false),
        IndicatedUpdateRequirement::UpdateRequired
    );
}

#[test]
fn verdict_does_not_depend_on_the_report() {
    let ok = run(true, b"", b"");
    let failed = run(false, b"", b"");
    assert_eq!(
        reconcile(&ok, EMPTY_REPORT),
        Ok((IndicatedUpdateRequirement::UpToDate, DotnetOutdatedData { projects: Vec::new() }))
    );
    assert_eq!(
        reconcile(&ok, FULL_REPORT),
        Ok((IndicatedUpdateRequirement::UpToDate, full_report()))
    );
    assert_eq!(
        reconcile(&failed, EMPTY_REPORT),
        Ok((IndicatedUpdateRequirement::UpdateRequired, DotnetOutdatedData { projects: Vec::new() }))
    );
    assert_eq!(
        reconcile(&failed, FULL_REPORT),
        Ok((IndicatedUpdateRequirement::UpdateRequired, full_report()))
    );
}

#[test]
fn a_run_that_succeeded_logs_nothing() {
    let d = diagnose(&run(true, b"all good", b"some noise"));
    assert_eq!(d.lines, Vec::new());
    assert_eq!(d.failure, None);
}

#[test]
fn a_run_that_succeeded_does_not_decode_its_streams() {
    let d = diagnose(&run(true, &[0xff, 0xfe], &[0x80]));
    assert_eq!(d.lines, Vec::new());
    assert_eq!(d.failure, None);
    assert_eq!(
        reconcile(&run(true, &[0xff, 0xfe], &[0x80]), EMPTY_REPORT),
        Ok((IndicatedUpdateRequirement::UpToDate, DotnetOutdatedData { projects: Vec::new() }))
    );
}

#[test]
fn a_failed_run_logs_status_and_output() {
    let d = diagnose(&run(false, b"Foo 1.0.0 -> 2.0.0\n", b""));
    assert_eq!(
        d.lines,
        vec![Diagnostic::ExitFailure, Diagnostic::Output("Foo 1.0.0 -> 2.0.0\n".to_string())]
    );
    assert_eq!(d.failure, None);
}

#[test]
fn a_failed_run_logs_its_error_stream_when_there_is_one() {
    let d = diagnose(&run(false, b"", "warn: gr\u{fc}n".as_bytes()));
    assert_eq!(
        d.lines,
        vec![
            Diagnostic::ExitFailure,
            Diagnostic::Output(String::new()),
            Diagnostic::ErrorOutput("warn: gr\u{fc}n".to_string()),
        ]
    );
    assert_eq!(d.failure, None);
}

#[test]
fn diagnostics_have_their_levels() {
    assert_eq!(Diagnostic::ExitFailure.level(), Level::Warn);
    assert_eq!(Diagnostic::Output("x".to_string()).level(), Level::Debug);
    assert_eq!(Diagnostic::ErrorOutput("x".to_string()).level(), Level::Warn);
}

#[test]
fn output_that_is_no_text_fails_a_failed_run() {
    let d = diagnose(&run(false, &[b'o', b'k', 0xff], b"fine"));
    assert_eq!(d.lines, vec![Diagnostic::ExitFailure]);
    assert_eq!(d.failure, Some(Stream::Stdout));
}

#[test]
fn error_output_that_is_no_text_fails_a_failed_run() {
    let d = diagnose(&run(false, b"ok", &[0xc3]));
    assert_eq!(d.lines, vec![Diagnostic::ExitFailure, Diagnostic::Output("ok".to_string())]);
    assert_eq!(d.failure, Some(Stream::Stderr));
}

#[test]
fn overlong_and_surrogate_bytes_are_no_text() {
    assert_eq!(diagnose(&run(false, &[0xc0, 0x80], b"")).failure, Some(Stream::Stdout));
    assert_eq!(diagnose(&run(false, &[0xed, 0xa0, 0x80], b"")).failure, Some(Stream::Stdout));
    assert_eq!(
        diagnose(&run(false, &[0xf4, 0x90, 0x80, 0x80], b"")).failure,
        Some(Stream::Stdout)
    );
    assert_eq!(diagnose(&run(false, &[0xf4, 0x8f, 0xbf, 0xbf], b"")).failure, None);
    assert_eq!(
        diagnose(&run(false, &[0xf4, 0x8f, 0xbf, 0xbf], b"")).lines,
        vec![Diagnostic::ExitFailure, Diagnostic::Output("\u{10ffff}".to_string())]
    );
}

#[test]
fn a_stream_that_is_no_text_comes_before_the_report() {
    let broken = run(false, &[0xff], b"");
    assert_eq!(reconcile(&broken, EMPTY_REPORT), Err(EngineError::Capture(Stream::Stdout)));
    assert_eq!(reconcile(&broken, "not a report"), Err(EngineError::Capture(Stream::Stdout)));
    let broken_late = run(false, b"fine", &[0x80]);
    assert_eq!(reconcile(&broken_late, EMPTY_REPORT), Err(EngineError::Capture(Stream::Stderr)));
}

#[test]
fn a_report_that_cannot_be_read_fails_the_run() {
    assert_eq!(
        reconcile(&run(true, b"", b""), "{\"Projects\": {}}"),
        Err(EngineError::Report(ReportError::Shape(
            ShapeError::wrong_kind(JsonKind::Array, JsonKind::Object)
                .under(PathSegment::Key("Projects".to_string()))
        )))
    );
    assert_eq!(
        reconcile(&run(false, b"", b""), "{}"),
        Err(EngineError::Report(ReportError::Shape(ShapeError::here(Mismatch::MissingField(
            "Projects".to_string()
        )))))
    );
    assert_eq!(
        reconcile(&run(false, b"", b""), ""),
        Err(EngineError::Report(ReportError::Syntax(SyntaxFault {
            path: ".".to_string(),
            message: "EOF while parsing a value at line 1 column 0".to_string(),
        })))
    );
}

#[test]
fn conclude_takes_what_the_reader_gave() {
    let tree = Json::Object(vec![("Projects".to_string(), Json::Array(Vec::new()))]);
    assert_eq!(
        conclude(&run(false, b"", b""), Ok(tree)),
        Ok((IndicatedUpdateRequirement::UpdateRequired, DotnetOutdatedData { projects: Vec::new() }))
    );
    let fault = SyntaxFault { path: "Projects".to_string(), message: "bad".to_string() };
    assert_eq!(
        conclude(&run(true, b"", b""), Err(fault)),
        Err(EngineError::Report(ReportError::Syntax(SyntaxFault {
            path: "Projects".to_string(),
            message: "bad".to_string(),
        })))
    );
}
