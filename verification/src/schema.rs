//! The shape of the report as a function on JSON trees.
//!
//! ```text
//! { "Projects": [ { "Name": str, "FilePath": str,
//!     "TargetFrameworks": [ { "Name": str,
//!         "Dependencies": [ { "Name": str, "ResolvedVersion": str,
//!             "LatestVersion": str, "UpgradeSeverity": "Major"|"Minor"|"Patch" } ] } ] } ] }
//! ```
//!
//! The fields of an object are examined in the order written above and the
//! items of an array from the first on; the first value that does not fit is
//! reported, with the path that leads to it from the top of the document.
//! Members that the shape does not name are passed over.
//!
//! This module says what decoding gives and proves what holds of it; the
//! code that does it is in [`crate::decode`].
use crate::json::{member, JsonKind, JsonValue};
use crate::report::{
    views_of, DependencyView, FrameworkView, ProjectView, ReportView, Severity,
};
use crate::text::decimal;
use vstd::prelude::*;

verus! {

/// One step from a JSON value into it: to the member under a key, or to the
/// item at an index.
#[derive(Debug, Clone, PartialEq, Eq)]
pub enum PathSegment {
    Key(String),
    Index(usize),
}

/// The mathematical content of a [`PathSegment`].
pub enum Step {
    Key(Seq<char>),
    Index(nat),
}

impl View for PathSegment {
    type V = Step;

    open spec fn view(&self) -> Step {
        match self {
            PathSegment::Key(key) => Step::Key(key@),
            PathSegment::Index(index) => Step::Index(*index as nat),
        }
    }
}

/// What is wrong with a value of the tree.
#[derive(Debug, Clone, PartialEq, Eq)]
pub enum Mismatch {
    /// The value is of another kind than the shape asks for.
    WrongKind { expected: JsonKind, found: JsonKind },
    /// The value is an object, but has no member of this name.
    MissingField(String),
    /// The value is a text, but not the name of a severity.
    UnknownSeverity(String),
}

/// The mathematical content of a [`Mismatch`].
pub enum MismatchView {
    WrongKind { expected: JsonKind, found: JsonKind },
    MissingField(Seq<char>),
    UnknownSeverity(Seq<char>),
}

impl View for Mismatch {
    type V = MismatchView;

    open spec fn view(&self) -> MismatchView {
        match self {
            Mismatch::WrongKind { expected, found } => MismatchView::WrongKind {
                expected: *expected,
                found: *found,
            },
            Mismatch::MissingField(name) => MismatchView::MissingField(name@),
            Mismatch::UnknownSeverity(text) => MismatchView::UnknownSeverity(text@),
        }
    }
}

/// A value of the tree that does not fit the shape: the path to it, and what
/// is wrong with it.
#[derive(Debug, Clone, PartialEq, Eq)]
pub struct ShapeError {
    pub path: Vec<PathSegment>,
    pub mismatch: Mismatch,
}

/// The mathematical content of a [`ShapeError`].
pub struct ShapeErrorView {
    pub path: Seq<Step>,
    pub mismatch: MismatchView,
}

impl View for ShapeError {
    type V = ShapeErrorView;

    open spec fn view(&self) -> ShapeErrorView {
        ShapeErrorView { path: views_of(self.path@), mismatch: self.mismatch@ }
    }
}

impl ShapeErrorView {
    /// A mismatch of the very value that was looked at.
    pub open spec fn here(mismatch: MismatchView) -> ShapeErrorView {
        ShapeErrorView { path: Seq::empty(), mismatch }
    }

    /// The same mismatch, seen from the value that `step` leads out of.
    pub open spec fn under(self, step: Step) -> ShapeErrorView {
        ShapeErrorView { path: seq![step] + self.path, mismatch: self.mismatch }
    }

    /// The error for a value of kind `found` where `expected` was asked for.
    pub open spec fn wrong_kind(expected: JsonKind, found: JsonKind) -> ShapeErrorView {
        ShapeErrorView::here(MismatchView::WrongKind { expected, found })
    }
}

/// A text, or the error that `v` is none.
pub open spec fn spec_decode_text(v: JsonValue) -> Result<Seq<char>, ShapeErrorView> {
    match v {
        JsonValue::Text(text) => Ok(text),
        _ => Err(ShapeErrorView::wrong_kind(JsonKind::Text, v.kind())),
    }
}

/// A severity from its name. A text that names none is an error, never some
/// severity chosen in its place.
pub open spec fn spec_decode_severity(v: JsonValue) -> Result<Severity, ShapeErrorView> {
    match v {
        JsonValue::Text(text) => match Severity::named(text) {
            Some(severity) => Ok(severity),
            None => Err(ShapeErrorView::here(MismatchView::UnknownSeverity(text))),
        },
        _ => Err(ShapeErrorView::wrong_kind(JsonKind::Text, v.kind())),
    }
}

/// The text under `name` in an object with these members.
pub open spec fn spec_text_field(members: Seq<(Seq<char>, JsonValue)>, name: Seq<char>) -> Result<
    Seq<char>,
    ShapeErrorView,
> {
    match member(members, name) {
        None => Err(ShapeErrorView::here(MismatchView::MissingField(name))),
        Some(v) => match spec_decode_text(v) {
            Ok(text) => Ok(text),
            Err(e) => Err(e.under(Step::Key(name))),
        },
    }
}

/// The severity under `name` in an object with these members.
pub open spec fn spec_severity_field(
    members: Seq<(Seq<char>, JsonValue)>,
    name: Seq<char>,
) -> Result<Severity, ShapeErrorView> {
    match member(members, name) {
        None => Err(ShapeErrorView::here(MismatchView::MissingField(name))),
        Some(v) => match spec_decode_severity(v) {
            Ok(severity) => Ok(severity),
            Err(e) => Err(e.under(Step::Key(name))),
        },
    }
}

/// The items of an array, each decoded by `decode`: all of them in order, or
/// the error of the first item that fails, seen from the array.
pub open spec fn spec_decode_items<T>(
    items: Seq<JsonValue>,
    decode: spec_fn(JsonValue) -> Result<T, ShapeErrorView>,
) -> Result<Seq<T>, ShapeErrorView>
    decreases items.len(),
{
    if items.len() == 0 {
        Ok(Seq::empty())
    } else {
        match spec_decode_items(items.drop_last(), decode) {
            Err(e) => Err(e),
            Ok(front) => match decode(items.last()) {
                Ok(item) => Ok(front.push(item)),
                Err(e) => Err(e.under(Step::Index((items.len() - 1) as nat))),
            },
        }
    }
}

/// The array under `name` in an object with these members, each item decoded
/// by `decode`.
pub open spec fn spec_items_field<T>(
    members: Seq<(Seq<char>, JsonValue)>,
    name: Seq<char>,
    decode: spec_fn(JsonValue) -> Result<T, ShapeErrorView>,
) -> Result<Seq<T>, ShapeErrorView> {
    match member(members, name) {
        None => Err(ShapeErrorView::here(MismatchView::MissingField(name))),
        Some(v) => match v {
            JsonValue::Array(items) => match spec_decode_items(items, decode) {
                Ok(decoded) => Ok(decoded),
                Err(e) => Err(e.under(Step::Key(name))),
            },
            _ => Err(ShapeErrorView::wrong_kind(JsonKind::Array, v.kind()).under(Step::Key(name))),
        },
    }
}

/// One dependency: an object with `Name`, `ResolvedVersion`, `LatestVersion`
/// and `UpgradeSeverity`.
pub open spec fn spec_decode_dependency(v: JsonValue) -> Result<DependencyView, ShapeErrorView> {
    match v {
        JsonValue::Object(members) => match spec_text_field(members, "Name"@) {
            Err(e) => Err(e),
            Ok(name) => match spec_text_field(members, "ResolvedVersion"@) {
                Err(e) => Err(e),
                Ok(resolved_version) => match spec_text_field(members, "LatestVersion"@) {
                    Err(e) => Err(e),
                    Ok(latest_version) => match spec_severity_field(members, "UpgradeSeverity"@) {
                        Err(e) => Err(e),
                        Ok(upgrade_severity) => Ok(
                            DependencyView {
                                name,
                                resolved_version,
                                latest_version,
                                upgrade_severity,
                            },
                        ),
                    },
                },
            },
        },
        _ => Err(ShapeErrorView::wrong_kind(JsonKind::Object, v.kind())),
    }
}

/// [`spec_decode_dependency`] as a value, to hand to [`spec_decode_items`].
pub open spec fn dependency_decoder() -> spec_fn(JsonValue) -> Result<
    DependencyView,
    ShapeErrorView,
> {
    |v: JsonValue| spec_decode_dependency(v)
}

/// One framework: an object with `Name` and `Dependencies`.
pub open spec fn spec_decode_framework(v: JsonValue) -> Result<FrameworkView, ShapeErrorView> {
    match v {
        JsonValue::Object(members) => match spec_text_field(members, "Name"@) {
            Err(e) => Err(e),
            Ok(name) => match spec_items_field(members, "Dependencies"@, dependency_decoder()) {
                Err(e) => Err(e),
                Ok(dependencies) => Ok(FrameworkView { name, dependencies }),
            },
        },
        _ => Err(ShapeErrorView::wrong_kind(JsonKind::Object, v.kind())),
    }
}

/// [`spec_decode_framework`] as a value, to hand to [`spec_decode_items`].
pub open spec fn framework_decoder() -> spec_fn(JsonValue) -> Result<
    FrameworkView,
    ShapeErrorView,
> {
    |v: JsonValue| spec_decode_framework(v)
}

/// One project: an object with `Name`, `FilePath` and `TargetFrameworks`.
pub open spec fn spec_decode_project(v: JsonValue) -> Result<ProjectView, ShapeErrorView> {
    match v {
        JsonValue::Object(members) => match spec_text_field(members, "Name"@) {
            Err(e) => Err(e),
            Ok(name) => match spec_text_field(members, "FilePath"@) {
                Err(e) => Err(e),
                Ok(file_path) => match spec_items_field(
                    members,
                    "TargetFrameworks"@,
                    framework_decoder(),
                ) {
                    Err(e) => Err(e),
                    Ok(target_frameworks) => Ok(ProjectView { name, file_path, target_frameworks }),
                },
            },
        },
        _ => Err(ShapeErrorView::wrong_kind(JsonKind::Object, v.kind())),
    }
}

/// [`spec_decode_project`] as a value, to hand to [`spec_decode_items`].
pub open spec fn project_decoder() -> spec_fn(JsonValue) -> Result<ProjectView, ShapeErrorView> {
    |v: JsonValue| spec_decode_project(v)
}

/// A whole report: an object with `Projects`.
pub open spec fn spec_decode_report(v: JsonValue) -> Result<ReportView, ShapeErrorView> {
    match v {
        JsonValue::Object(members) => match spec_items_field(
            members,
            "Projects"@,
            project_decoder(),
        ) {
            Err(e) => Err(e),
            Ok(projects) => Ok(ReportView { projects }),
        },
        _ => Err(ShapeErrorView::wrong_kind(JsonKind::Object, v.kind())),
    }
}

/// How one step of a path is written: a key as it is, with a dot before it
/// unless it is the first step; an index in square brackets.
pub open spec fn step_text(step: Step, first: bool) -> Seq<char> {
    match step {
        Step::Key(key) => if first {
            key
        } else {
            "."@ + key
        },
        Step::Index(index) => "["@ + decimal(index) + "]"@,
    }
}

/// The steps of a path, written one behind the other.
pub open spec fn steps_text(path: Seq<Step>) -> Seq<char>
    decreases path.len(),
{
    if path.len() == 0 {
        Seq::empty()
    } else {
        steps_text(path.drop_last()) + step_text(path.last(), path.len() == 1)
    }
}

/// A path as text, such as `Projects[0].Name`; the empty path is written `.`.
pub open spec fn spec_path_text(path: Seq<Step>) -> Seq<char> {
    if path.len() == 0 {
        "."@
    } else {
        steps_text(path)
    }
}

/// If the items before `i` decode and item `i` does not, the array fails with
/// the error of item `i`, whatever follows it.
pub proof fn lemma_items_fail_at<T>(
    items: Seq<JsonValue>,
    i: int,
    decode: spec_fn(JsonValue) -> Result<T, ShapeErrorView>,
)
    requires
        0 <= i < items.len(),
        spec_decode_items(items.take(i), decode) is Ok,
        decode(items[i]) is Err,
    ensures
        spec_decode_items(items, decode) == Err::<Seq<T>, ShapeErrorView>(
            decode(items[i])->Err_0.under(Step::Index(i as nat)),
        ),
    decreases items.len(),
{
    if i == items.len() - 1 {
        assert(items.drop_last() =~= items.take(i));
    } else {
        let front = items.drop_last();
        assert(front.take(i) =~= items.take(i));
        lemma_items_fail_at(front, i, decode);
    }
}

/// Decoding one more item extends what the items before it gave.
pub proof fn lemma_items_extend<T>(
    items: Seq<JsonValue>,
    i: int,
    decode: spec_fn(JsonValue) -> Result<T, ShapeErrorView>,
)
    requires
        0 <= i < items.len(),
        spec_decode_items(items.take(i), decode) is Ok,
        decode(items[i]) is Ok,
    ensures
        spec_decode_items(items.take(i + 1), decode) == Ok::<Seq<T>, ShapeErrorView>(
            spec_decode_items(items.take(i), decode)->Ok_0.push(decode(items[i])->Ok_0),
        ),
{
    let longer = items.take(i + 1);
    assert(longer.drop_last() =~= items.take(i));
    assert(longer.last() == items[i]);
}

/// The value that `path` leads to from `v`, if the path can be walked.
pub open spec fn value_at(v: JsonValue, path: Seq<Step>) -> Option<JsonValue>
    decreases path.len(),
{
    if path.len() == 0 {
        Some(v)
    } else {
        match (v, path[0]) {
            (JsonValue::Object(members), Step::Key(key)) => match member(members, key) {
                Some(inner) => value_at(inner, path.drop_first()),
                None => None,
            },
            (JsonValue::Array(items), Step::Index(index)) => if index < items.len() {
                value_at(items[index as int], path.drop_first())
            } else {
                None
            },
            _ => None,
        }
    }
}

/// Whether `v` itself shows the mismatch.
pub open spec fn exhibits(v: JsonValue, mismatch: MismatchView) -> bool {
    match mismatch {
        MismatchView::WrongKind { expected, found } => v.kind() == found && found != expected,
        MismatchView::MissingField(name) => v matches JsonValue::Object(members) && member(
            members,
            name,
        ) is None,
        MismatchView::UnknownSeverity(text) => v == JsonValue::Text(text) && Severity::named(
            text,
        ) is None,
    }
}

/// Whether the path of `e` leads, from `v`, to a value that shows the
/// mismatch of `e`.
pub open spec fn located(v: JsonValue, e: ShapeErrorView) -> bool {
    match value_at(v, e.path) {
        Some(culprit) => exhibits(culprit, e.mismatch),
        None => false,
    }
}

proof fn lemma_located_under_key(
    members: Seq<(Seq<char>, JsonValue)>,
    name: Seq<char>,
    e: ShapeErrorView,
)
    requires
        member(members, name) matches Some(inner) && located(inner, e),
    ensures
        located(JsonValue::Object(members), e.under(Step::Key(name))),
{
    let path = e.under(Step::Key(name)).path;
    assert(path.drop_first() =~= e.path);
}

proof fn lemma_located_under_index(items: Seq<JsonValue>, i: int, e: ShapeErrorView)
    requires
        0 <= i < items.len(),
        located(items[i], e),
    ensures
        located(JsonValue::Array(items), e.under(Step::Index(i as nat))),
{
    let path = e.under(Step::Index(i as nat)).path;
    assert(path.drop_first() =~= e.path);
}

/// When an array fails to decode, one of its items failed, and the error is
/// that item's, seen from the array.
pub proof fn lemma_items_failure_form<T>(
    items: Seq<JsonValue>,
    decode: spec_fn(JsonValue) -> Result<T, ShapeErrorView>,
) -> (i: int)
    requires
        spec_decode_items(items, decode) is Err,
    ensures
        0 <= i < items.len(),
        decode(items[i]) is Err,
        spec_decode_items(items, decode)->Err_0 == decode(items[i])->Err_0.under(
            Step::Index(i as nat),
        ),
    decreases items.len(),
{
    if spec_decode_items(items.drop_last(), decode) is Err {
        let i = lemma_items_failure_form(items.drop_last(), decode);
        assert(items.drop_last()[i] == items[i]);
        i
    } else {
        items.len() - 1
    }
}

proof fn lemma_text_field_located(members: Seq<(Seq<char>, JsonValue)>, name: Seq<char>)
    ensures
        spec_text_field(members, name) matches Err(e) ==> located(JsonValue::Object(members), e),
{
    match member(members, name) {
        Some(v) => {
            if spec_decode_text(v) is Err {
                lemma_located_under_key(members, name, spec_decode_text(v)->Err_0);
            }
        },
        None => {},
    }
}

proof fn lemma_severity_field_located(members: Seq<(Seq<char>, JsonValue)>, name: Seq<char>)
    ensures
        spec_severity_field(members, name) matches Err(e) ==> located(
            JsonValue::Object(members),
            e,
        ),
{
    match member(members, name) {
        Some(v) => {
            if spec_decode_severity(v) is Err {
                lemma_located_under_key(members, name, spec_decode_severity(v)->Err_0);
            }
        },
        None => {},
    }
}

proof fn lemma_items_field_located<T>(
    members: Seq<(Seq<char>, JsonValue)>,
    name: Seq<char>,
    decode: spec_fn(JsonValue) -> Result<T, ShapeErrorView>,
)
    requires
        forall|v: JsonValue| (#[trigger] decode(v)) is Err ==> located(v, decode(v)->Err_0),
    ensures
        spec_items_field(members, name, decode) matches Err(e) ==> located(
            JsonValue::Object(members),
            e,
        ),
{
    match member(members, name) {
        Some(v) => {
            match v {
                JsonValue::Array(items) => {
                    if spec_decode_items(items, decode) is Err {
                        let i = lemma_items_failure_form(items, decode);
                        let inner = decode(items[i])->Err_0;
                        lemma_located_under_index(items, i, inner);
                        lemma_located_under_key(
                            members,
                            name,
                            inner.under(Step::Index(i as nat)),
                        );
                    }
                },
                _ => {
                    lemma_located_under_key(
                        members,
                        name,
                        ShapeErrorView::wrong_kind(JsonKind::Array, v.kind()),
                    );
                },
            }
        },
        None => {},
    }
}

proof fn lemma_dependency_located(v: JsonValue)
    ensures
        spec_decode_dependency(v) matches Err(e) ==> located(v, e),
{
    match v {
        JsonValue::Object(members) => {
            lemma_text_field_located(members, "Name"@);
            lemma_text_field_located(members, "ResolvedVersion"@);
            lemma_text_field_located(members, "LatestVersion"@);
            lemma_severity_field_located(members, "UpgradeSeverity"@);
        },
        _ => {},
    }
}

proof fn lemma_framework_located(v: JsonValue)
    ensures
        spec_decode_framework(v) matches Err(e) ==> located(v, e),
{
    match v {
        JsonValue::Object(members) => {
            lemma_text_field_located(members, "Name"@);
            assert forall|x: JsonValue| (#[trigger] dependency_decoder()(x)) is Err implies located(
                x,
                dependency_decoder()(x)->Err_0,
            ) by {
                lemma_dependency_located(x);
            }
            lemma_items_field_located(members, "Dependencies"@, dependency_decoder());
        },
        _ => {},
    }
}

proof fn lemma_project_located(v: JsonValue)
    ensures
        spec_decode_project(v) matches Err(e) ==> located(v, e),
{
    match v {
        JsonValue::Object(members) => {
            lemma_text_field_located(members, "Name"@);
            lemma_text_field_located(members, "FilePath"@);
            assert forall|x: JsonValue| (#[trigger] framework_decoder()(x)) is Err implies located(
                x,
                framework_decoder()(x)->Err_0,
            ) by {
                lemma_framework_located(x);
            }
            lemma_items_field_located(members, "TargetFrameworks"@, framework_decoder());
        },
        _ => {},
    }
}

/// A report that does not decode is never answered with a made-up value: the
/// error names a path that can be walked in the document, and the value at
/// its end is the one at fault. It is of another kind than the shape asks
/// for, or an object without the field that is missing, or a text that names
/// no severity.
pub proof fn lemma_error_is_located(tree: JsonValue)
    ensures
        spec_decode_report(tree) matches Err(e) ==> located(tree, e),
{
    match tree {
        JsonValue::Object(members) => {
            assert forall|x: JsonValue| (#[trigger] project_decoder()(x)) is Err implies located(
                x,
                project_decoder()(x)->Err_0,
            ) by {
                lemma_project_located(x);
            }
            lemma_items_field_located(members, "Projects"@, project_decoder());
        },
        _ => {},
    }
}

/// A severity is decoded only from its own name: whatever else stands in the
/// document is refused, with the text that was found.
pub proof fn lemma_severity_is_read(v: JsonValue)
    ensures
        spec_decode_severity(v) matches Ok(severity) ==> v == JsonValue::Text(
            severity.rendering(),
        ),
        forall|text: Seq<char>|
            v == JsonValue::Text(text) && text != "Major"@ && text != "Minor"@ && text != "Patch"@
                ==> spec_decode_severity(v) == Err::<Severity, ShapeErrorView>(
                ShapeErrorView::here(MismatchView::UnknownSeverity(text)),
            ),
{
}

} // verus!
