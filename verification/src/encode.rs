//! Writes a report as a JSON tree of the shape in which the tool writes it,
//! and proves that decoding gives the report back.
use crate::json::{lemma_array_view, lemma_object_view, member, Json, JsonValue};
use crate::report::{
    views_of, Dependency, DependencyView, DotnetOutdatedData, Framework, FrameworkView, Project,
    ProjectView, ReportView,
};
use crate::schema::{
    dependency_decoder, framework_decoder, project_decoder, spec_decode_dependency,
    spec_decode_framework, spec_decode_items, spec_decode_project, spec_decode_report,
    ShapeErrorView,
};
use vstd::prelude::*;
use vstd::string::*;

verus! {

/// The JSON tree of one dependency.
pub open spec fn spec_encode_dependency(d: DependencyView) -> JsonValue {
    JsonValue::Object(
        seq![
            ("Name"@, JsonValue::Text(d.name)),
            ("ResolvedVersion"@, JsonValue::Text(d.resolved_version)),
            ("LatestVersion"@, JsonValue::Text(d.latest_version)),
            ("UpgradeSeverity"@, JsonValue::Text(d.upgrade_severity.rendering())),
        ],
    )
}

/// The JSON tree of one framework.
pub open spec fn spec_encode_framework(f: FrameworkView) -> JsonValue {
    JsonValue::Object(
        seq![
            ("Name"@, JsonValue::Text(f.name)),
            (
                "Dependencies"@,
                JsonValue::Array(
                    Seq::new(f.dependencies.len(), |i: int| spec_encode_dependency(f.dependencies[i])),
                ),
            ),
        ],
    )
}

/// The JSON tree of one project.
pub open spec fn spec_encode_project(p: ProjectView) -> JsonValue {
    JsonValue::Object(
        seq![
            ("Name"@, JsonValue::Text(p.name)),
            ("FilePath"@, JsonValue::Text(p.file_path)),
            (
                "TargetFrameworks"@,
                JsonValue::Array(
                    Seq::new(
                        p.target_frameworks.len(),
                        |i: int| spec_encode_framework(p.target_frameworks[i]),
                    ),
                ),
            ),
        ],
    )
}

/// The JSON tree of a whole report.
pub open spec fn spec_encode_report(r: ReportView) -> JsonValue {
    JsonValue::Object(
        seq![
            (
                "Projects"@,
                JsonValue::Array(
                    Seq::new(r.projects.len(), |i: int| spec_encode_project(r.projects[i])),
                ),
            ),
        ],
    )
}

/// Brings the spelling of the field names into scope: no two fields of one
/// object share a name.
proof fn lemma_field_spellings()
    ensures
        "Name"@ != "ResolvedVersion"@,
        "Name"@ != "LatestVersion"@,
        "Name"@ != "UpgradeSeverity"@,
        "ResolvedVersion"@ != "LatestVersion"@,
        "ResolvedVersion"@ != "UpgradeSeverity"@,
        "LatestVersion"@ != "UpgradeSeverity"@,
        "Name"@ != "Dependencies"@,
        "Name"@ != "FilePath"@,
        "Name"@ != "TargetFrameworks"@,
        "FilePath"@ != "TargetFrameworks"@,
{
    reveal_strlit("Name");
    reveal_strlit("ResolvedVersion");
    reveal_strlit("LatestVersion");
    reveal_strlit("UpgradeSeverity");
    reveal_strlit("Dependencies");
    reveal_strlit("FilePath");
    reveal_strlit("TargetFrameworks");
    assert("Name"@.len() == 4);
    assert("ResolvedVersion"@.len() == 15);
    assert("LatestVersion"@.len() == 13);
    assert("UpgradeSeverity"@.len() == 15);
    assert("ResolvedVersion"@[0] == 'R');
    assert("UpgradeSeverity"@[0] == 'U');
    assert("Dependencies"@.len() == 12);
    assert("FilePath"@.len() == 8);
    assert("TargetFrameworks"@.len() == 16);
}

proof fn lemma_items_round_trip<T>(
    items: Seq<T>,
    encode: spec_fn(T) -> JsonValue,
    decode: spec_fn(JsonValue) -> Result<T, ShapeErrorView>,
)
    requires
        forall|x: T| decode(#[trigger] encode(x)) == Ok::<T, ShapeErrorView>(x),
    ensures
        spec_decode_items(Seq::new(items.len(), |i: int| encode(items[i])), decode) == Ok::<
            Seq<T>,
            ShapeErrorView,
        >(items),
    decreases items.len(),
{
    let encoded = Seq::new(items.len(), |i: int| encode(items[i]));
    if items.len() == 0 {
        assert(items =~= Seq::<T>::empty());
    } else {
        let front = items.drop_last();
        lemma_items_round_trip(front, encode, decode);
        assert(encoded.drop_last() =~= Seq::new(front.len(), |i: int| encode(front[i])));
        assert(encoded.last() == encode(items.last()));
        assert(front.push(items.last()) =~= items);
    }
}

proof fn lemma_dependency_round_trip(d: DependencyView)
    ensures
        spec_decode_dependency(spec_encode_dependency(d)) == Ok::<DependencyView, ShapeErrorView>(
            d,
        ),
{
    lemma_field_spellings();
    d.upgrade_severity.lemma_named_rendering();
    reveal_with_fuel(member, 5);
}

proof fn lemma_framework_round_trip(f: FrameworkView)
    ensures
        spec_decode_framework(spec_encode_framework(f)) == Ok::<FrameworkView, ShapeErrorView>(f),
{
    lemma_field_spellings();
    reveal_with_fuel(member, 3);
    let encode = |d: DependencyView| spec_encode_dependency(d);
    assert forall|d: DependencyView| dependency_decoder()(#[trigger] encode(d)) == Ok::<
        DependencyView,
        ShapeErrorView,
    >(d) by {
        lemma_dependency_round_trip(d);
    }
    lemma_items_round_trip(f.dependencies, encode, dependency_decoder());
    assert(Seq::new(f.dependencies.len(), |i: int| encode(f.dependencies[i])) =~= Seq::new(
        f.dependencies.len(),
        |i: int| spec_encode_dependency(f.dependencies[i]),
    ));
}

proof fn lemma_project_round_trip(p: ProjectView)
    ensures
        spec_decode_project(spec_encode_project(p)) == Ok::<ProjectView, ShapeErrorView>(p),
{
    lemma_field_spellings();
    reveal_with_fuel(member, 4);
    let encode = |f: FrameworkView| spec_encode_framework(f);
    assert forall|f: FrameworkView| framework_decoder()(#[trigger] encode(f)) == Ok::<
        FrameworkView,
        ShapeErrorView,
    >(f) by {
        lemma_framework_round_trip(f);
    }
    lemma_items_round_trip(p.target_frameworks, encode, framework_decoder());
    assert(Seq::new(p.target_frameworks.len(), |i: int| encode(p.target_frameworks[i]))
        =~= Seq::new(
        p.target_frameworks.len(),
        |i: int| spec_encode_framework(p.target_frameworks[i]),
    ));
}

/// Encoding a report as a JSON tree and decoding that tree gives the report
/// back, field for field.
pub proof fn lemma_report_round_trip(r: ReportView)
    ensures
        spec_decode_report(spec_encode_report(r)) == Ok::<ReportView, ShapeErrorView>(r),
{
    reveal_with_fuel(member, 2);
    let encode = |p: ProjectView| spec_encode_project(p);
    assert forall|p: ProjectView| project_decoder()(#[trigger] encode(p)) == Ok::<
        ProjectView,
        ShapeErrorView,
    >(p) by {
        lemma_project_round_trip(p);
    }
    lemma_items_round_trip(r.projects, encode, project_decoder());
    assert(Seq::new(r.projects.len(), |i: int| encode(r.projects[i])) =~= Seq::new(
        r.projects.len(),
        |i: int| spec_encode_project(r.projects[i]),
    ));
}

/// Builds the JSON tree of one dependency.
pub fn encode_dependency(d: &Dependency) -> (tree: Json)
    ensures
        tree@ == spec_encode_dependency(d@),
{
    let mut members: Vec<(String, Json)> = Vec::new();
    members.push((String::from_str("Name"), Json::Text(d.name.clone())));
    members.push((String::from_str("ResolvedVersion"), Json::Text(d.resolved_version.clone())));
    members.push((String::from_str("LatestVersion"), Json::Text(d.latest_version.clone())));
    members.push((String::from_str("UpgradeSeverity"), Json::Text(d.upgrade_severity.to_string())));
    proof {
        lemma_object_view(members);
        assert(Json::Object(members)@->Object_0 =~= spec_encode_dependency(d@)->Object_0);
    }
    Json::Object(members)
}

fn encode_dependencies(items: &Vec<Dependency>) -> (tree: Json)
    ensures
        tree@ == JsonValue::Array(
            Seq::new(
                views_of(items@).len(),
                |i: int| spec_encode_dependency(views_of(items@)[i]),
            ),
        ),
{
    let mut out: Vec<Json> = Vec::new();
    let mut i: usize = 0;
    while i < items.len()
        invariant
            i <= items.len(),
            out@.len() == i,
            forall|k: int| 0 <= k < i ==> (#[trigger] out@[k])@ == spec_encode_dependency(items@[k]@),
        decreases items.len() - i,
    {
        out.push(encode_dependency(&items[i]));
        i += 1;
    }
    proof {
        lemma_array_view(out);
        assert(Json::Array(out)@->Array_0 =~= Seq::new(
            views_of(items@).len(),
            |i: int| spec_encode_dependency(views_of(items@)[i]),
        ));
    }
    Json::Array(out)
}

/// Builds the JSON tree of one framework.
pub fn encode_framework(f: &Framework) -> (tree: Json)
    ensures
        tree@ == spec_encode_framework(f@),
{
    let mut members: Vec<(String, Json)> = Vec::new();
    members.push((String::from_str("Name"), Json::Text(f.name.clone())));
    members.push((String::from_str("Dependencies"), encode_dependencies(&f.dependencies)));
    proof {
        lemma_object_view(members);
        assert(Json::Object(members)@->Object_0 =~= spec_encode_framework(f@)->Object_0);
    }
    Json::Object(members)
}

fn encode_frameworks(items: &Vec<Framework>) -> (tree: Json)
    ensures
        tree@ == JsonValue::Array(
            Seq::new(
                views_of(items@).len(),
                |i: int| spec_encode_framework(views_of(items@)[i]),
            ),
        ),
{
    let mut out: Vec<Json> = Vec::new();
    let mut i: usize = 0;
    while i < items.len()
        invariant
            i <= items.len(),
            out@.len() == i,
            forall|k: int| 0 <= k < i ==> (#[trigger] out@[k])@ == spec_encode_framework(items@[k]@),
        decreases items.len() - i,
    {
        out.push(encode_framework(&items[i]));
        i += 1;
    }
    proof {
        lemma_array_view(out);
        assert(Json::Array(out)@->Array_0 =~= Seq::new(
            views_of(items@).len(),
            |i: int| spec_encode_framework(views_of(items@)[i]),
        ));
    }
    Json::Array(out)
}

/// Builds the JSON tree of one project.
pub fn encode_project(p: &Project) -> (tree: Json)
    ensures
        tree@ == spec_encode_project(p@),
{
    let mut members: Vec<(String, Json)> = Vec::new();
    members.push((String::from_str("Name"), Json::Text(p.name.clone())));
    members.push((String::from_str("FilePath"), Json::Text(p.file_path.clone())));
    members.push((String::from_str("TargetFrameworks"), encode_frameworks(&p.target_frameworks)));
    proof {
        lemma_object_view(members);
        assert(Json::Object(members)@->Object_0 =~= spec_encode_project(p@)->Object_0);
    }
    Json::Object(members)
}

fn encode_projects(items: &Vec<Project>) -> (tree: Json)
    ensures
        tree@ == JsonValue::Array(
            Seq::new(views_of(items@).len(), |i: int| spec_encode_project(views_of(items@)[i])),
        ),
{
    let mut out: Vec<Json> = Vec::new();
    let mut i: usize = 0;
    while i < items.len()
        invariant
            i <= items.len(),
            out@.len() == i,
            forall|k: int| 0 <= k < i ==> (#[trigger] out@[k])@ == spec_encode_project(items@[k]@),
        decreases items.len() - i,
    {
        out.push(encode_project(&items[i]));
        i += 1;
    }
    proof {
        lemma_array_view(out);
        assert(Json::Array(out)@->Array_0 =~= Seq::new(
            views_of(items@).len(),
            |i: int| spec_encode_project(views_of(items@)[i]),
        ));
    }
    Json::Array(out)
}

/// Builds the JSON tree of a report, in the shape in which the tool writes
/// it. [`decode_report`] reads the result back as the same report.
pub fn encode_report(data: &DotnetOutdatedData) -> (tree: Json)
    ensures
        tree@ == spec_encode_report(data@),
        spec_decode_report(tree@) == Ok::<ReportView, ShapeErrorView>(data@),
{
    let mut members: Vec<(String, Json)> = Vec::new();
    members.push((String::from_str("Projects"), encode_projects(&data.projects)));
    proof {
        lemma_object_view(members);
        assert(Json::Object(members)@->Object_0 =~= spec_encode_report(data@)->Object_0);
        lemma_report_round_trip(data@);
    }
    Json::Object(members)
}

} // verus!
