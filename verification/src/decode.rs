//! Reads a report: from a JSON tree into the typed model, or from the text
//! that the tool wrote.
//!
//! Every function here returns what [`crate::schema`] says decoding gives.
use crate::json::{
    lemma_array_view, member, parse_view, parsed_text, Json, JsonKind, JsonValue, SyntaxFault,
    SyntaxFaultView,
};
use crate::report::{
    views_of, Dependency, DependencyView, DotnetOutdatedData, Framework, FrameworkView, Project,
    ProjectView, ReportView, Severity,
};
use crate::schema::{
    dependency_decoder, framework_decoder, lemma_items_extend, lemma_items_fail_at, project_decoder,
    spec_decode_dependency, spec_decode_framework, spec_decode_items, spec_decode_project,
    spec_decode_report, spec_decode_severity, spec_decode_text, spec_path_text,
    spec_severity_field, spec_text_field, step_text, steps_text, Mismatch, MismatchView,
    PathSegment, ShapeError, ShapeErrorView, Step,
};
use crate::text::push_decimal;
use vstd::prelude::*;
use vstd::string::*;

verus! {

/// The view of what a decoder gave.
pub open spec fn decoded<T: View>(r: Result<T, ShapeError>) -> Result<T::V, ShapeErrorView> {
    match r {
        Ok(value) => Ok(value@),
        Err(e) => Err(e@),
    }
}

/// The view of what a decoder of arrays gave.
pub open spec fn decoded_items<T: View>(r: Result<Vec<T>, ShapeError>) -> Result<
    Seq<T::V>,
    ShapeErrorView,
> {
    match r {
        Ok(values) => Ok(views_of(values@)),
        Err(e) => Err(e@),
    }
}

impl ShapeError {
    /// A mismatch of the very value that was looked at.
    pub fn here(mismatch: Mismatch) -> (e: ShapeError)
        ensures
            e@ == ShapeErrorView::here(mismatch@),
    {
        let e = ShapeError { path: Vec::new(), mismatch };
        assert(views_of(e.path@) =~= Seq::<Step>::empty());
        e
    }

    /// The error for a value of kind `found` where `expected` was asked for.
    pub fn wrong_kind(expected: JsonKind, found: JsonKind) -> (e: ShapeError)
        ensures
            e@ == ShapeErrorView::wrong_kind(expected, found),
    {
        ShapeError::here(Mismatch::WrongKind { expected, found })
    }

    /// The same mismatch, seen from the value that `segment` leads out of.
    pub fn under(self, segment: PathSegment) -> (e: ShapeError)
        ensures
            e@ == self@.under(segment@),
    {
        let mut path = self.path;
        let ghost before = path@;
        path.insert(0, segment);
        assert(views_of(path@) =~= seq![segment@] + views_of(before));
        ShapeError { path, mismatch: self.mismatch }
    }
}

/// Reads a text.
pub fn decode_text(v: &Json) -> (r: Result<String, ShapeError>)
    ensures
        decoded(r) == spec_decode_text(v@),
{
    match v {
        Json::Text(text) => Ok(text.clone()),
        _ => Err(ShapeError::wrong_kind(JsonKind::Text, v.kind())),
    }
}

/// Reads a severity from its name.
pub fn decode_severity(v: &Json) -> (r: Result<Severity, ShapeError>)
    ensures
        match r {
            Ok(severity) => spec_decode_severity(v@) == Ok::<Severity, ShapeErrorView>(severity),
            Err(e) => spec_decode_severity(v@) == Err::<Severity, ShapeErrorView>(e@),
        },
{
    match v {
        Json::Text(text) => match Severity::from_name(text.as_str()) {
            Some(severity) => Ok(severity),
            None => Err(ShapeError::here(Mismatch::UnknownSeverity(text.clone()))),
        },
        _ => Err(ShapeError::wrong_kind(JsonKind::Text, v.kind())),
    }
}

fn text_field(object: &Json, name: &str) -> (r: Result<String, ShapeError>)
    requires
        object@ is Object,
    ensures
        decoded(r) == spec_text_field(object@->Object_0, name@),
{
    match object.get(name) {
        None => Err(ShapeError::here(Mismatch::MissingField(String::from_str(name)))),
        Some(v) => match decode_text(v) {
            Ok(text) => Ok(text),
            Err(e) => Err(e.under(PathSegment::Key(String::from_str(name)))),
        },
    }
}

fn severity_field(object: &Json, name: &str) -> (r: Result<Severity, ShapeError>)
    requires
        object@ is Object,
    ensures
        match r {
            Ok(severity) => spec_severity_field(object@->Object_0, name@) == Ok::<
                Severity,
                ShapeErrorView,
            >(severity),
            Err(e) => spec_severity_field(object@->Object_0, name@) == Err::<
                Severity,
                ShapeErrorView,
            >(e@),
        },
{
    match object.get(name) {
        None => Err(ShapeError::here(Mismatch::MissingField(String::from_str(name)))),
        Some(v) => match decode_severity(v) {
            Ok(severity) => Ok(severity),
            Err(e) => Err(e.under(PathSegment::Key(String::from_str(name)))),
        },
    }
}

/// The items of the array under `name`, or the error that there is no such
/// member or that it is no array.
fn array_field<'a>(object: &'a Json, name: &str) -> (r: Result<&'a Vec<Json>, ShapeError>)
    requires
        object@ is Object,
    ensures
        match r {
            Ok(items) => member(object@->Object_0, name@) == Some(
                JsonValue::Array(views_of(items@)),
            ),
            Err(e) => match member(object@->Object_0, name@) {
                None => e@ == ShapeErrorView::here(MismatchView::MissingField(name@)),
                Some(v) => !(v is Array) && e@ == ShapeErrorView::wrong_kind(
                    JsonKind::Array,
                    v.kind(),
                ).under(Step::Key(name@)),
            },
        },
{
    match object.get(name) {
        None => Err(ShapeError::here(Mismatch::MissingField(String::from_str(name)))),
        Some(v) => match v {
            Json::Array(items) => {
                proof {
                    lemma_array_view(*items);
                    assert(v@->Array_0 =~= views_of(items@));
                }
                Ok(items)
            },
            _ => Err(
                ShapeError::wrong_kind(JsonKind::Array, v.kind()).under(
                    PathSegment::Key(String::from_str(name)),
                ),
            ),
        },
    }
}

/// Reads one dependency.
pub fn decode_dependency(v: &Json) -> (r: Result<Dependency, ShapeError>)
    ensures
        decoded(r) == spec_decode_dependency(v@),
{
    match v {
        Json::Object(_) => {
            let name = match text_field(v, "Name") {
                Ok(text) => text,
                Err(e) => { return Err(e); },
            };
            let resolved_version = match text_field(v, "ResolvedVersion") {
                Ok(text) => text,
                Err(e) => { return Err(e); },
            };
            let latest_version = match text_field(v, "LatestVersion") {
                Ok(text) => text,
                Err(e) => { return Err(e); },
            };
            let upgrade_severity = match severity_field(v, "UpgradeSeverity") {
                Ok(severity) => severity,
                Err(e) => { return Err(e); },
            };
            Ok(Dependency { name, resolved_version, latest_version, upgrade_severity })
        },
        _ => Err(ShapeError::wrong_kind(JsonKind::Object, v.kind())),
    }
}

fn decode_dependencies(items: &Vec<Json>) -> (r: Result<Vec<Dependency>, ShapeError>)
    ensures
        decoded_items(r) == spec_decode_items(views_of(items@), dependency_decoder()),
{
    let ghost all = views_of(items@);
    let mut out: Vec<Dependency> = Vec::new();
    let mut i: usize = 0;
    assert(all.take(0) =~= Seq::<JsonValue>::empty());
    assert(views_of(out@) =~= Seq::<DependencyView>::empty());
    while i < items.len()
        invariant
            i <= items.len(),
            all == views_of(items@),
            spec_decode_items(all.take(i as int), dependency_decoder()) == Ok::<
                Seq<DependencyView>,
                ShapeErrorView,
            >(views_of(out@)),
        decreases items.len() - i,
    {
        assert(all[i as int] == items@[i as int]@);
        match decode_dependency(&items[i]) {
            Ok(item) => {
                let ghost before = views_of(out@);
                out.push(item);
                proof {
                    lemma_items_extend(all, i as int, dependency_decoder());
                    assert(views_of(out@) =~= before.push(item@));
                }
            },
            Err(e) => {
                proof {
                    lemma_items_fail_at(all, i as int, dependency_decoder());
                }
                return Err(e.under(PathSegment::Index(i)));
            },
        }
        i += 1;
    }
    assert(all.take(items.len() as int) =~= all);
    Ok(out)
}

/// Reads one framework.
pub fn decode_framework(v: &Json) -> (r: Result<Framework, ShapeError>)
    ensures
        decoded(r) == spec_decode_framework(v@),
{
    match v {
        Json::Object(_) => {
            let name = match text_field(v, "Name") {
                Ok(text) => text,
                Err(e) => { return Err(e); },
            };
            let items = match array_field(v, "Dependencies") {
                Ok(items) => items,
                Err(e) => { return Err(e); },
            };
            let dependencies = match decode_dependencies(items) {
                Ok(decoded) => decoded,
                Err(e) => {
                    return Err(e.under(PathSegment::Key(String::from_str("Dependencies"))));
                },
            };
            Ok(Framework { name, dependencies })
        },
        _ => Err(ShapeError::wrong_kind(JsonKind::Object, v.kind())),
    }
}

fn decode_frameworks(items: &Vec<Json>) -> (r: Result<Vec<Framework>, ShapeError>)
    ensures
        decoded_items(r) == spec_decode_items(views_of(items@), framework_decoder()),
{
    let ghost all = views_of(items@);
    let mut out: Vec<Framework> = Vec::new();
    let mut i: usize = 0;
    assert(all.take(0) =~= Seq::<JsonValue>::empty());
    assert(views_of(out@) =~= Seq::<FrameworkView>::empty());
    while i < items.len()
        invariant
            i <= items.len(),
            all == views_of(items@),
            spec_decode_items(all.take(i as int), framework_decoder()) == Ok::<
                Seq<FrameworkView>,
                ShapeErrorView,
            >(views_of(out@)),
        decreases items.len() - i,
    {
        assert(all[i as int] == items@[i as int]@);
        match decode_framework(&items[i]) {
            Ok(item) => {
                let ghost before = views_of(out@);
                out.push(item);
                proof {
                    lemma_items_extend(all, i as int, framework_decoder());
                    assert(views_of(out@) =~= before.push(item@));
                }
            },
            Err(e) => {
                proof {
                    lemma_items_fail_at(all, i as int, framework_decoder());
                }
                return Err(e.under(PathSegment::Index(i)));
            },
        }
        i += 1;
    }
    assert(all.take(items.len() as int) =~= all);
    Ok(out)
}

/// Reads one project.
pub fn decode_project(v: &Json) -> (r: Result<Project, ShapeError>)
    ensures
        decoded(r) == spec_decode_project(v@),
{
    match v {
        Json::Object(_) => {
            let name = match text_field(v, "Name") {
                Ok(text) => text,
                Err(e) => { return Err(e); },
            };
            let file_path = match text_field(v, "FilePath") {
                Ok(text) => text,
                Err(e) => { return Err(e); },
            };
            let items = match array_field(v, "TargetFrameworks") {
                Ok(items) => items,
                Err(e) => { return Err(e); },
            };
            let target_frameworks = match decode_frameworks(items) {
                Ok(decoded) => decoded,
                Err(e) => {
                    return Err(e.under(PathSegment::Key(String::from_str("TargetFrameworks"))));
                },
            };
            Ok(Project { name, file_path, target_frameworks })
        },
        _ => Err(ShapeError::wrong_kind(JsonKind::Object, v.kind())),
    }
}

fn decode_projects(items: &Vec<Json>) -> (r: Result<Vec<Project>, ShapeError>)
    ensures
        decoded_items(r) == spec_decode_items(views_of(items@), project_decoder()),
{
    let ghost all = views_of(items@);
    let mut out: Vec<Project> = Vec::new();
    let mut i: usize = 0;
    assert(all.take(0) =~= Seq::<JsonValue>::empty());
    assert(views_of(out@) =~= Seq::<ProjectView>::empty());
    while i < items.len()
        invariant
            i <= items.len(),
            all == views_of(items@),
            spec_decode_items(all.take(i as int), project_decoder()) == Ok::<
                Seq<ProjectView>,
                ShapeErrorView,
            >(views_of(out@)),
        decreases items.len() - i,
    {
        assert(all[i as int] == items@[i as int]@);
        match decode_project(&items[i]) {
            Ok(item) => {
                let ghost before = views_of(out@);
                out.push(item);
                proof {
                    lemma_items_extend(all, i as int, project_decoder());
                    assert(views_of(out@) =~= before.push(item@));
                }
            },
            Err(e) => {
                proof {
                    lemma_items_fail_at(all, i as int, project_decoder());
                }
                return Err(e.under(PathSegment::Index(i)));
            },
        }
        i += 1;
    }
    assert(all.take(items.len() as int) =~= all);
    Ok(out)
}

/// Reads a whole report from its JSON tree: the typed model when the tree has
/// the report's shape, and otherwise the first value that does not fit.
pub fn decode_report(tree: &Json) -> (r: Result<DotnetOutdatedData, ShapeError>)
    ensures
        decoded(r) == spec_decode_report(tree@),
{
    match tree {
        Json::Object(_) => {
            let items = match array_field(tree, "Projects") {
                Ok(items) => items,
                Err(e) => { return Err(e); },
            };
            let projects = match decode_projects(items) {
                Ok(decoded) => decoded,
                Err(e) => {
                    return Err(e.under(PathSegment::Key(String::from_str("Projects"))));
                },
            };
            Ok(DotnetOutdatedData { projects })
        },
        _ => Err(ShapeError::wrong_kind(JsonKind::Object, tree.kind())),
    }
}

impl ShapeError {
    /// The path of this error as text, in the form in which the JSON reader
    /// writes the paths of its own errors.
    pub fn path_text(&self) -> (text: String)
        ensures
            text@ == spec_path_text(self@.path),
    {
        if self.path.len() == 0 {
            return String::from_str(".");
        }
        let ghost steps = views_of(self.path@);
        let mut text = String::new();
        let mut i: usize = 0;
        assert(steps.take(0) =~= Seq::<Step>::empty());
        while i < self.path.len()
            invariant
                i <= self.path.len(),
                steps == views_of(self.path@),
                text@ == steps_text(steps.take(i as int)),
            decreases self.path.len() - i,
        {
            let ghost before = text@;
            match &self.path[i] {
                PathSegment::Key(key) => {
                    if i > 0 {
                        text.append(".");
                    }
                    text.append(key.as_str());
                },
                PathSegment::Index(index) => {
                    text.append("[");
                    push_decimal(&mut text, *index as u64);
                    text.append("]");
                },
            }
            proof {
                let longer = steps.take(i + 1);
                assert(longer.drop_last() =~= steps.take(i as int));
                assert(longer.last() == self.path@[i as int]@);
                assert(text@ =~= before + step_text(longer.last(), longer.len() == 1));
            }
            i += 1;
        }
        assert(steps.take(self.path.len() as int) =~= steps);
        text
    }
}

/// Why a text is not a report.
#[derive(Debug, Clone, PartialEq, Eq)]
pub enum ReportError {
    /// The text is not JSON.
    Syntax(SyntaxFault),
    /// The text is JSON, but not of the report's shape.
    Shape(ShapeError),
}

/// The mathematical content of a [`ReportError`].
pub enum ReportErrorView {
    Syntax(SyntaxFaultView),
    Shape(ShapeErrorView),
}

impl View for ReportError {
    type V = ReportErrorView;

    open spec fn view(&self) -> ReportErrorView {
        match self {
            ReportError::Syntax(fault) => ReportErrorView::Syntax(fault@),
            ReportError::Shape(e) => ReportErrorView::Shape(e@),
        }
    }
}

impl ReportErrorView {
    /// The path of the error as text.
    pub open spec fn path_text(self) -> Seq<char> {
        match self {
            ReportErrorView::Syntax(fault) => fault.path,
            ReportErrorView::Shape(e) => spec_path_text(e.path),
        }
    }
}

impl ReportError {
    /// Where in the document the error lies, as text.
    pub fn path_text(&self) -> (text: String)
        ensures
            text@ == self@.path_text(),
    {
        match self {
            ReportError::Syntax(fault) => fault.path.clone(),
            ReportError::Shape(e) => e.path_text(),
        }
    }
}

/// The view of what reading a report gave.
pub open spec fn report_view(r: Result<DotnetOutdatedData, ReportError>) -> Result<
    ReportView,
    ReportErrorView,
> {
    match r {
        Ok(data) => Ok(data@),
        Err(e) => Err(e@),
    }
}

/// The report in what the JSON reader gave: the reader's own failure, or the
/// decoded tree, or the first value of the tree that does not fit.
pub open spec fn spec_report_of_parse(
    parsed: Result<JsonValue, SyntaxFaultView>,
) -> Result<ReportView, ReportErrorView> {
    match parsed {
        Err(fault) => Err(ReportErrorView::Syntax(fault)),
        Ok(tree) => match spec_decode_report(tree) {
            Ok(report) => Ok(report),
            Err(e) => Err(ReportErrorView::Shape(e)),
        },
    }
}

/// Makes a report of what the JSON reader gave.
pub fn report_of_parse(parsed: Result<Json, SyntaxFault>) -> (r: Result<
    DotnetOutdatedData,
    ReportError,
>)
    ensures
        report_view(r) == spec_report_of_parse(parse_view(parsed)),
{
    match parsed {
        Err(fault) => Err(ReportError::Syntax(fault)),
        Ok(tree) => match decode_report(&tree) {
            Ok(data) => Ok(data),
            Err(e) => Err(ReportError::Shape(e)),
        },
    }
}

/// Reads a report from the text that the tool wrote.
///
/// Succeeds exactly when the text begins with a JSON document of the
/// report's shape; text behind the document is not looked at.
pub fn parse_report(text: &str) -> (r: Result<DotnetOutdatedData, ReportError>)
    ensures
        report_view(r) == spec_report_of_parse(parsed_text(text@)),
{
    report_of_parse(Json::parse(text))
}

} // verus!
