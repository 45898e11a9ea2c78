use dotnet_outdated::json::{Json, JsonKind, SyntaxFault};
use dotnet_outdated::report::{Dependency, DotnetOutdatedData, Framework, Project, Severity};
use dotnet_outdated::decode::{
    decode_dependency, decode_framework, decode_project, decode_report, decode_severity,
    decode_text, parse_report, report_of_parse, ReportError,
};
use dotnet_outdated::encode::{encode_dependency, encode_framework, encode_project, encode_report};
use dotnet_outdated::schema::{Mismatch, PathSegment, ShapeError};

const ONE_DEPENDENCY: &str = r#"{
  "Projects": [
    {
      "Name": "App",
      "FilePath": "/src/App/App.csproj",
      "TargetFrameworks": [
        {
          "Name": "net6.0",
          "Dependencies": [
            {
              "Name": "Foo",
              "ResolvedVersion": "1.0.0",
              "LatestVersion": "2.0.0",
              "UpgradeSeverity": "Major"
            }
          ]
        }
      ]
    }
  ]
}"#;

fn key(name: &str) -> PathSegment {
    PathSegment::Key(name.to_string())
}

fn text(s: &str) -> Json {
    Json::Text(s.to_string())
}

fn object(members: Vec<(&str, Json)>) -> Json {
    Json::Object(members.into_iter().map(|(k, v)| (k.to_string(), v)).collect())
}

fn dependency(name: &str, resolved: &str, latest: &str, severity: Severity) -> Dependency {
    Dependency {
        name: name.to_string(),
        resolved_version: resolved.to_string(),
        latest_version: latest.to_string(),
        upgrade_severity: severity,
    }
}

fn sample_report() -> DotnetOutdatedData {
    DotnetOutdatedData {
        projects: vec![
            Project {
                name: "App".to_string(),
                file_path: "/src/App/App.csproj".to_string(),
                target_frameworks: vec![
                    Framework {
                        name: "net6.0".to_string(),
                        dependencies: vec![
                            dependency("Foo", "1.0.0", "2.0.0", Severity::Major),
                            dependency("Bar \"quoted\"", "1.2.3", "1.3.0", Severity::Minor),
                        ],
                    },
                    Framework { name: "net48".to_string(), dependencies: Vec::new() },
                ],
            },
            Project {
                name: "Tests".to_string(),
                file_path: "C:\\src\\Tests\\Tests.csproj".to_string(),
                target_frameworks: vec![Framework {
                    name: "net6.0".to_string(),
                    dependencies: vec![dependency("Baz", "0.1.0", "0.1.1", Severity::Patch)],
                }],
            },
            Project {
                name: "Empty".to_string(),
                file_path: String::new(),
                target_frameworks: Vec::new(),
            },
        ],
    }
}

fn to_value(tree: &Json) -> serde_json::Value {
    match tree {
        Json::Null => serde_json::Value::Null,
        Json::Bool(b) => serde_json::Value::Bool(*b),
        Json::Number(n) => serde_json::Value::Number(n.parse().unwrap()),
        Json::Text(s) => serde_json::Value::String(s.clone()),
        Json::Array(items) => serde_json::Value::Array(items.iter().map(to_value).collect()),
        Json::Object(members) => serde_json::Value::Object(
            members.iter().map(|(k, v)| (k.clone(), to_value(v))).collect(),
        ),
    }
}

fn shape_error(r: Result<DotnetOutdatedData, ReportError>) -> ShapeError {
    match r {
        Err(ReportError::Shape(e)) => e,
        other => panic!("expected a shape error, got {:?}", other),
    }
}

#[test]
fn severity_renders_as_in_the_report() {
    assert_eq!(Severity::Major.to_string(), "Major");
    assert_eq!(Severity::Minor.to_string(), "Minor");
    assert_eq!(Severity::Patch.to_string(), "Patch");
    assert_eq!(Severity::Major.as_str(), "Major");
    assert_eq!(Severity::Minor.as_str(), "Minor");
    assert_eq!(Severity::Patch.as_str(), "Patch");
}

#[test]
fn severity_is_read_from_its_exact_name() {
    assert_eq!(Severity::from_name("Major"), Some(Severity::Major));
    assert_eq!(Severity::from_name("Minor"), Some(Severity::Minor));
    assert_eq!(Severity::from_name("Patch"), Some(Severity::Patch));
    assert_eq!(Severity::from_name("major"), None);
    assert_eq!(Severity::from_name("Major "), None);
    assert_eq!(Severity::from_name(""), None);
    assert_eq!(Severity::from_name("None"), None);
}

#[test]
fn report_with_one_dependency_is_read() {
    let data = parse_report(ONE_DEPENDENCY).unwrap();
    assert_eq!(data.projects.len(), 1);
    assert_eq!(data.projects[0].name, "App");
    assert_eq!(data.projects[0].file_path, "/src/App/App.csproj");
    assert_eq!(data.projects[0].target_frameworks.len(), 1);
    assert_eq!(data.projects[0].target_frameworks[0].name, "net6.0");
    assert_eq!(data.projects[0].target_frameworks[0].dependencies.len(), 1);
    let found = &data.projects[0].target_frameworks[0].dependencies[0];
    assert_eq!(found.name, "Foo");
    assert_eq!(found.resolved_version, "1.0.0");
    assert_eq!(found.latest_version, "2.0.0");
    assert_eq!(found.upgrade_severity, Severity::Major);
}

#[test]
fn report_without_projects_is_read() {
    assert_eq!(
        parse_report("{\"Projects\": []}"),
        Ok(DotnetOutdatedData { projects: Vec::new() })
    );
}

#[test]
fn text_behind_the_report_is_not_looked_at() {
    assert_eq!(
        parse_report("{\"Projects\": []}\nnot json"),
        Ok(DotnetOutdatedData { projects: Vec::new() })
    );
}

#[test]
fn members_outside_the_shape_are_passed_over() {
    let data = parse_report(
        "{\"Version\": 3, \"Projects\": [{\"Name\": \"P\", \"Extra\": [1], \
         \"FilePath\": \"f\", \"TargetFrameworks\": []}]}",
    )
    .unwrap();
    assert_eq!(
        data,
        DotnetOutdatedData {
            projects: vec![Project {
                name: "P".to_string(),
                file_path: "f".to_string(),
                target_frameworks: Vec::new(),
            }],
        }
    );
}

#[test]
fn unknown_severity_is_refused_at_its_path() {
    let bad = ONE_DEPENDENCY.replace("\"Major\"", "\"Huge\"");
    let e = shape_error(parse_report(&bad));
    assert_eq!(
        e.path,
        vec![
            key("Projects"),
            PathSegment::Index(0),
            key("TargetFrameworks"),
            PathSegment::Index(0),
            key("Dependencies"),
            PathSegment::Index(0),
            key("UpgradeSeverity"),
        ]
    );
    assert_eq!(e.mismatch, Mismatch::UnknownSeverity("Huge".to_string()));
    assert_eq!(e.path_text(), "Projects[0].TargetFrameworks[0].Dependencies[0].UpgradeSeverity");
}

#[test]
fn severity_in_another_case_is_refused() {
    let bad = ONE_DEPENDENCY.replace("\"Major\"", "\"major\"");
    let e = shape_error(parse_report(&bad));
    assert_eq!(e.mismatch, Mismatch::UnknownSeverity("major".to_string()));
}

#[test]
fn severity_of_another_kind_is_refused() {
    let bad = ONE_DEPENDENCY.replace("\"Major\"", "2");
    let e = shape_error(parse_report(&bad));
    assert_eq!(e.path_text(), "Projects[0].TargetFrameworks[0].Dependencies[0].UpgradeSeverity");
    assert_eq!(
        e.mismatch,
        Mismatch::WrongKind { expected: JsonKind::Text, found: JsonKind::Number }
    );
}

#[test]
fn missing_field_is_reported_at_its_object() {
    let e = shape_error(parse_report("{\"Projects\": [{\"Name\": \"P\", \"TargetFrameworks\": []}]}"));
    assert_eq!(e.path, vec![key("Projects"), PathSegment::Index(0)]);
    assert_eq!(e.mismatch, Mismatch::MissingField("FilePath".to_string()));
    assert_eq!(e.path_text(), "Projects[0]");
}

#[test]
fn missing_projects_is_reported_at_the_top() {
    let e = shape_error(parse_report("{}"));
    assert_eq!(e.path, Vec::new());
    assert_eq!(e.mismatch, Mismatch::MissingField("Projects".to_string()));
    assert_eq!(e.path_text(), ".");
}

#[test]
fn field_names_are_case_sensitive() {
    let e = shape_error(parse_report("{\"projects\": []}"));
    assert_eq!(e.mismatch, Mismatch::MissingField("Projects".to_string()));
}

#[test]
fn a_report_that_is_no_object_is_refused() {
    let e = shape_error(parse_report("[]"));
    assert_eq!(e.path, Vec::new());
    assert_eq!(
        e.mismatch,
        Mismatch::WrongKind { expected: JsonKind::Object, found: JsonKind::Array }
    );
}

#[test]
fn projects_of_the_wrong_kind_are_refused() {
    let e = shape_error(parse_report("{\"Projects\": 3}"));
    assert_eq!(e.path, vec![key("Projects")]);
    assert_eq!(
        e.mismatch,
        Mismatch::WrongKind { expected: JsonKind::Array, found: JsonKind::Number }
    );
    assert_eq!(e.path_text(), "Projects");
}

#[test]
fn a_project_written_as_an_array_is_refused() {
    let e = shape_error(parse_report("{\"Projects\": [[\"P\", \"f\", []]]}"));
    assert_eq!(e.path, vec![key("Projects"), PathSegment::Index(0)]);
    assert_eq!(
        e.mismatch,
        Mismatch::WrongKind { expected: JsonKind::Object, found: JsonKind::Array }
    );
}

#[test]
fn the_first_item_that_does_not_fit_is_reported() {
    let e = shape_error(parse_report(
        "{\"Projects\": [{\"Name\": \"A\", \"FilePath\": \"a\", \"TargetFrameworks\": []}, \
         {\"Name\": null, \"FilePath\": \"b\", \"TargetFrameworks\": []}, \
         {\"Name\": 1, \"FilePath\": 2, \"TargetFrameworks\": 3}]}",
    ));
    assert_eq!(e.path, vec![key("Projects"), PathSegment::Index(1), key("Name")]);
    assert_eq!(e.mismatch, Mismatch::WrongKind { expected: JsonKind::Text, found: JsonKind::Null });
    assert_eq!(e.path_text(), "Projects[1].Name");
}

#[test]
fn fields_are_examined_in_the_order_of_the_shape() {
    let e = shape_error(parse_report(
        "{\"Projects\": [{\"TargetFrameworks\": 0, \"FilePath\": 1, \"Name\": \"A\"}]}",
    ));
    assert_eq!(e.path_text(), "Projects[0].FilePath");
}

#[test]
fn text_that_is_no_json_is_a_syntax_error() {
    assert_eq!(
        parse_report("{\"Projects\": [}"),
        Err(ReportError::Syntax(SyntaxFault {
            path: "Projects[0]".to_string(),
            message: "expected value at line 1 column 15".to_string(),
        }))
    );
}

#[test]
fn syntax_errors_come_before_shape_errors() {
    let r = parse_report("{\"Projects\": 3,");
    match r {
        Err(ReportError::Syntax(fault)) => {
            assert_eq!(fault.path, "?");
            assert_eq!(fault.message, "EOF while parsing a value at line 1 column 15");
        },
        other => panic!("expected a syntax error, got {:?}", other),
    }
}

#[test]
fn report_error_gives_its_path_as_text() {
    let syntax = ReportError::Syntax(SyntaxFault {
        path: "Projects[2]".to_string(),
        message: "m".to_string(),
    });
    assert_eq!(syntax.path_text(), "Projects[2]");
    let shape = ReportError::Shape(ShapeError {
        path: vec![key("a"), key("b"), PathSegment::Index(10), PathSegment::Index(0), key("c")],
        mismatch: Mismatch::MissingField("d".to_string()),
    });
    assert_eq!(shape.path_text(), "a.b[10][0].c");
}

#[test]
fn path_text_of_special_paths() {
    let here = ShapeError::here(Mismatch::MissingField("x".to_string()));
    assert_eq!(here.path_text(), ".");
    let index_first = here.under(PathSegment::Index(7));
    assert_eq!(index_first.path_text(), "[7]");
    let below_key = index_first.under(key("k"));
    assert_eq!(below_key.path_text(), "k[7]");
    assert_eq!(below_key.path, vec![key("k"), PathSegment::Index(7)]);
}

#[test]
fn report_of_parse_passes_a_syntax_fault_on() {
    let fault = SyntaxFault { path: ".".to_string(), message: "no".to_string() };
    assert_eq!(
        report_of_parse(Err(fault)),
        Err(ReportError::Syntax(SyntaxFault { path: ".".to_string(), message: "no".to_string() }))
    );
}

#[test]
fn report_of_parse_decodes_a_tree() {
    let tree = object(vec![("Projects", Json::Array(Vec::new()))]);
    assert_eq!(report_of_parse(Ok(tree)), Ok(DotnetOutdatedData { projects: Vec::new() }));
}

#[test]
fn decoders_of_the_parts_read_their_part() {
    assert_eq!(decode_text(&text("x")), Ok("x".to_string()));
    assert_eq!(
        decode_text(&Json::Bool(true)),
        Err(ShapeError::wrong_kind(JsonKind::Text, JsonKind::Bool))
    );
    assert_eq!(decode_severity(&text("Patch")), Ok(Severity::Patch));
    assert_eq!(
        decode_severity(&text("patch")),
        Err(ShapeError::here(Mismatch::UnknownSeverity("patch".to_string())))
    );
    let d = object(vec![
        ("Name", text("Foo")),
        ("ResolvedVersion", text("1")),
        ("LatestVersion", text("2")),
        ("UpgradeSeverity", text("Minor")),
    ]);
    assert_eq!(decode_dependency(&d), Ok(dependency("Foo", "1", "2", Severity::Minor)));
    let f = object(vec![("Name", text("net6.0")), ("Dependencies", Json::Array(vec![d]))]);
    assert_eq!(
        decode_framework(&f),
        Ok(Framework {
            name: "net6.0".to_string(),
            dependencies: vec![dependency("Foo", "1", "2", Severity::Minor)],
        })
    );
    let p = object(vec![
        ("Name", text("P")),
        ("FilePath", text("p.csproj")),
        ("TargetFrameworks", Json::Array(vec![f])),
    ]);
    let decoded = decode_project(&p).unwrap();
    assert_eq!(decoded.name, "P");
    assert_eq!(decoded.file_path, "p.csproj");
    assert_eq!(decoded.target_frameworks.len(), 1);
}

#[test]
fn a_repeated_member_is_read_from_its_first_occurrence() {
    let d = object(vec![
        ("Name", text("first")),
        ("Name", Json::Null),
        ("ResolvedVersion", text("1")),
        ("LatestVersion", text("2")),
        ("UpgradeSeverity", text("Major")),
    ]);
    assert_eq!(decode_dependency(&d), Ok(dependency("first", "1", "2", Severity::Major)));
}

#[test]
fn encoding_writes_the_shape_of_the_report() {
    let tree = encode_dependency(&dependency("Foo", "1.0.0", "2.0.0", Severity::Major));
    assert_eq!(
        tree,
        object(vec![
            ("Name", text("Foo")),
            ("ResolvedVersion", text("1.0.0")),
            ("LatestVersion", text("2.0.0")),
            ("UpgradeSeverity", text("Major")),
        ])
    );
    let report = encode_report(&DotnetOutdatedData { projects: Vec::new() });
    assert_eq!(report, object(vec![("Projects", Json::Array(Vec::new()))]));
    assert_eq!(to_value(&report).to_string(), "{\"Projects\":[]}");
}

#[test]
fn encoding_the_parts_then_decoding_gives_them_back() {
    let data = sample_report();
    for project in &data.projects {
        assert_eq!(decode_project(&encode_project(project)).as_ref(), Ok(project));
        for framework in &project.target_frameworks {
            assert_eq!(decode_framework(&encode_framework(framework)).as_ref(), Ok(framework));
            for found in &framework.dependencies {
                assert_eq!(decode_dependency(&encode_dependency(found)).as_ref(), Ok(found));
            }
        }
    }
}

#[test]
fn encoding_then_decoding_gives_the_report_back() {
    let data = sample_report();
    let tree = encode_report(&data);
    assert_eq!(decode_report(&tree), Ok(sample_report()));
}

#[test]
fn encoding_survives_a_trip_through_json_text() {
    let data = sample_report();
    let written = to_value(&encode_report(&data)).to_string();
    assert_eq!(parse_report(&written), Ok(sample_report()));
    let pretty = serde_json::to_string_pretty(&to_value(&encode_report(&data))).unwrap();
    assert_eq!(parse_report(&pretty), Ok(sample_report()));
}

#[test]
fn the_sample_text_is_what_encoding_gives() {
    let data = parse_report(ONE_DEPENDENCY).unwrap();
    let written = serde_json::to_string_pretty(&to_value(&encode_report(&data))).unwrap();
    let reread: serde_json::Value = serde_json::from_str(ONE_DEPENDENCY).unwrap();
    assert_eq!(to_value(&encode_report(&data)), reread);
    assert_eq!(parse_report(&written), Ok(data));
}
