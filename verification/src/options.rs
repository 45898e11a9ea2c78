//! The update policy handed to the tool: which upgrades count, which packages
//! are looked at, and where the solution lives.
use vstd::prelude::*;
use vstd::string::*;

verus! {

/// Should upgrades be locked to a specific major or minor version.
#[derive(Debug, Clone, Copy, PartialEq, Eq, Structural)]
pub enum VersionLock {
    /// Do not lock the version when considering upgrades.
    Unlocked,
    /// Stay on the current major version: only minor versions and patch levels count.
    Major,
    /// Stay on the current minor version: only patch levels count.
    Minor,
}

impl VersionLock {
    /// The exact text the tool expects for this lock on its command line.
    pub open spec fn rendering(self) -> Seq<char> {
        match self {
            VersionLock::Unlocked => "None"@,
            VersionLock::Major => "Major"@,
            VersionLock::Minor => "Minor"@,
        }
    }

    /// The wire text of this lock, borrowed.
    pub fn as_str(&self) -> (s: &'static str)
        ensures
            s@ == self.rendering(),
    {
        match self {
            VersionLock::Unlocked => "None",
            VersionLock::Major => "Major",
            VersionLock::Minor => "Minor",
        }
    }

    /// The wire text of this lock, owned.
    pub fn to_string(&self) -> (s: String)
        ensures
            s@ == self.rendering(),
    {
        String::from_str(self.as_str())
    }
}

impl Default for VersionLock {
    fn default() -> (lock: Self)
        ensures
            lock == VersionLock::Unlocked,
    {
        VersionLock::Unlocked
    }
}

/// Should the tool look for pre-release versions of packages.
#[derive(Debug, Clone, Copy, PartialEq, Eq, Structural)]
pub enum PreRelease {
    /// Never look for pre-releases.
    Never,
    /// Let the tool decide whether pre-releases are appropriate.
    Auto,
    /// Always look for pre-releases.
    Always,
}

impl PreRelease {
    /// The exact text the tool expects for this policy on its command line.
    pub open spec fn rendering(self) -> Seq<char> {
        match self {
            PreRelease::Never => "Never"@,
            PreRelease::Auto => "Auto"@,
            PreRelease::Always => "Always"@,
        }
    }

    /// The wire text of this policy, borrowed.
    pub fn as_str(&self) -> (s: &'static str)
        ensures
            s@ == self.rendering(),
    {
        match self {
            PreRelease::Never => "Never",
            PreRelease::Auto => "Auto",
            PreRelease::Always => "Always",
        }
    }

    /// The wire text of this policy, owned.
    pub fn to_string(&self) -> (s: String)
        ensures
            s@ == self.rendering(),
    {
        String::from_str(self.as_str())
    }
}

impl Default for PreRelease {
    fn default() -> (policy: Self)
        ensures
            policy == PreRelease::Auto,
    {
        PreRelease::Auto
    }
}

/// Options that shape one run of the tool.
#[derive(Debug, Clone, PartialEq, Eq)]
pub struct DotnetOutdatedOptions {
    /// Look at auto-referenced packages too.
    pub include_auto_references: bool,
    /// Should the tool look for pre-release versions of packages.
    pub pre_release: PreRelease,
    /// Packages to restrict the analysis to, in the order given; names may repeat.
    pub include_packages: Vec<String>,
    /// Packages to leave out of the analysis, in the order given.
    pub exclude: Vec<String>,
    /// Should transitive dependencies be considered.
    pub transitive: bool,
    /// How deep to follow transitive dependencies; read only when `transitive` is set.
    pub transitive_depth: u64,
    /// Which upgrades count: all of them, or only those within a major or minor version.
    pub version_lock: VersionLock,
    /// Directory handed to the tool; the tool works in the current directory when absent.
    pub input_dir: Option<String>,
}

/// The mathematical content of [`DotnetOutdatedOptions`].
pub struct OptionsView {
    pub include_auto_references: bool,
    pub pre_release: PreRelease,
    pub include_packages: Seq<Seq<char>>,
    pub exclude: Seq<Seq<char>>,
    pub transitive: bool,
    pub transitive_depth: nat,
    pub version_lock: VersionLock,
    pub input_dir: Option<Seq<char>>,
}

impl OptionsView {
    /// The policy in force when the user asks for nothing in particular.
    pub open spec fn default_policy() -> OptionsView {
        OptionsView {
            include_auto_references: false,
            pre_release: PreRelease::Auto,
            include_packages: Seq::empty(),
            exclude: Seq::empty(),
            transitive: false,
            transitive_depth: 1,
            version_lock: VersionLock::Unlocked,
            input_dir: Option::None,
        }
    }
}

impl View for DotnetOutdatedOptions {
    type V = OptionsView;

    open spec fn view(&self) -> OptionsView {
        OptionsView {
            include_auto_references: self.include_auto_references,
            pre_release: self.pre_release,
            include_packages: self.include_packages.deep_view(),
            exclude: self.exclude.deep_view(),
            transitive: self.transitive,
            transitive_depth: self.transitive_depth as nat,
            version_lock: self.version_lock,
            input_dir: match self.input_dir {
                Some(dir) => Some(dir@),
                None => None,
            },
        }
    }
}

impl Default for DotnetOutdatedOptions {
    fn default() -> (options: Self)
        ensures
            options@ == OptionsView::default_policy(),
    {
        let options = DotnetOutdatedOptions {
            include_auto_references: false,
            pre_release: PreRelease::Auto,
            include_packages: Vec::new(),
            exclude: Vec::new(),
            transitive: false,
            transitive_depth: 1,
            version_lock: VersionLock::Unlocked,
            input_dir: None,
        };
        assert(options.include_packages.deep_view() =~= Seq::<Seq<char>>::empty());
        assert(options.exclude.deep_view() =~= Seq::<Seq<char>>::empty());
        options
    }
}

} // verus!
