//! The typed model of the tool's report: projects, the frameworks each one
//! targets, and the outdated dependencies under each framework.
use vstd::prelude::*;
use vstd::string::*;

verus! {

/// How large a version jump an available upgrade is.
#[derive(Debug, Clone, Copy, PartialEq, Eq, Structural)]
pub enum Severity {
    /// A major version upgrade.
    Major,
    /// A minor version upgrade.
    Minor,
    /// A patch level upgrade.
    Patch,
}

impl Severity {
    /// The name of this severity in the report.
    pub open spec fn rendering(self) -> Seq<char> {
        match self {
            Severity::Major => "Major"@,
            Severity::Minor => "Minor"@,
            Severity::Patch => "Patch"@,
        }
    }

    /// The severity that `name` spells, if it spells one.
    pub open spec fn named(name: Seq<char>) -> Option<Severity> {
        if name == "Major"@ {
            Some(Severity::Major)
        } else if name == "Minor"@ {
            Some(Severity::Minor)
        } else if name == "Patch"@ {
            Some(Severity::Patch)
        } else {
            None
        }
    }

    /// The report name of this severity, borrowed.
    pub fn as_str(&self) -> (s: &'static str)
        ensures
            s@ == self.rendering(),
    {
        match self {
            Severity::Major => "Major",
            Severity::Minor => "Minor",
            Severity::Patch => "Patch",
        }
    }

    /// The report name of this severity, owned.
    pub fn to_string(&self) -> (s: String)
        ensures
            s@ == self.rendering(),
    {
        String::from_str(self.as_str())
    }

    /// Reads a severity from its report name; any other text is no severity.
    pub fn from_name(name: &str) -> (r: Option<Severity>)
        ensures
            r == Severity::named(name@),
    {
        if crate::text::same_text(name, "Major") {
            Some(Severity::Major)
        } else if crate::text::same_text(name, "Minor") {
            Some(Severity::Minor)
        } else if crate::text::same_text(name, "Patch") {
            Some(Severity::Patch)
        } else {
            None
        }
    }

    /// The three names are distinct, so reading a severity's own name gives
    /// that severity back.
    pub proof fn lemma_named_rendering(self)
        ensures
            Severity::named(self.rendering()) == Some(self),
    {
        reveal_strlit("Major");
        reveal_strlit("Minor");
        reveal_strlit("Patch");
        assert("Major"@[1] == 'a');
        assert("Minor"@[1] == 'i');
        assert("Patch"@[0] == 'P');
        assert("Major"@[0] == 'M');
        assert("Minor"@[0] == 'M');
    }
}

/// The views of the items of a sequence, in order.
pub open spec fn views_of<T: View>(items: Seq<T>) -> Seq<T::V> {
    Seq::new(items.len(), |i: int| items[i]@)
}

/// One outdated dependency.
#[derive(Debug, Clone, PartialEq, Eq)]
pub struct Dependency {
    /// Name of the dependency.
    pub name: String,
    /// The version currently in use.
    pub resolved_version: String,
    /// The latest version that the version lock and pre-release policy allow.
    pub latest_version: String,
    /// How large the jump to the latest version is.
    pub upgrade_severity: Severity,
}

/// The mathematical content of a [`Dependency`].
pub struct DependencyView {
    pub name: Seq<char>,
    pub resolved_version: Seq<char>,
    pub latest_version: Seq<char>,
    pub upgrade_severity: Severity,
}

impl View for Dependency {
    type V = DependencyView;

    open spec fn view(&self) -> DependencyView {
        DependencyView {
            name: self.name@,
            resolved_version: self.resolved_version@,
            latest_version: self.latest_version@,
            upgrade_severity: self.upgrade_severity,
        }
    }
}

/// The outdated dependencies of a project under one target framework.
#[derive(Debug, Clone, PartialEq, Eq)]
pub struct Framework {
    /// Name of the framework, such as `net6.0`.
    pub name: String,
    /// The outdated dependencies of the project when built for this framework.
    pub dependencies: Vec<Dependency>,
}

/// The mathematical content of a [`Framework`].
pub struct FrameworkView {
    pub name: Seq<char>,
    pub dependencies: Seq<DependencyView>,
}

impl View for Framework {
    type V = FrameworkView;

    open spec fn view(&self) -> FrameworkView {
        FrameworkView {
            name: self.name@,
            dependencies: views_of(self.dependencies@),
        }
    }
}

/// One project file and what is outdated in it.
#[derive(Debug, Clone, PartialEq, Eq)]
pub struct Project {
    /// Name of the project.
    pub name: String,
    /// Absolute path of the project file.
    pub file_path: String,
    /// The frameworks the project targets, each with its outdated dependencies.
    pub target_frameworks: Vec<Framework>,
}

/// The mathematical content of a [`Project`].
pub struct ProjectView {
    pub name: Seq<char>,
    pub file_path: Seq<char>,
    pub target_frameworks: Seq<FrameworkView>,
}

impl View for Project {
    type V = ProjectView;

    open spec fn view(&self) -> ProjectView {
        ProjectView {
            name: self.name@,
            file_path: self.file_path@,
            target_frameworks: views_of(self.target_frameworks@),
        }
    }
}

/// The root of a report: one entry per project file.
#[derive(Debug, Clone, PartialEq, Eq)]
pub struct DotnetOutdatedData {
    /// One per project file (binaries, tests, ...).
    pub projects: Vec<Project>,
}

/// The mathematical content of a [`DotnetOutdatedData`].
pub struct ReportView {
    pub projects: Seq<ProjectView>,
}

impl View for DotnetOutdatedData {
    type V = ReportView;

    open spec fn view(&self) -> ReportView {
        ReportView { projects: views_of(self.projects@) }
    }
}

} // verus!
