use dotnet_outdated::options::{DotnetOutdatedOptions, PreRelease, VersionLock};

#[test]
fn version_lock_renders_as_the_tool_expects() {
    assert_eq!(VersionLock::Unlocked.to_string(), "None");
    assert_eq!(VersionLock::Major.to_string(), "Major");
    assert_eq!(VersionLock::Minor.to_string(), "Minor");
    assert_eq!(VersionLock::Unlocked.as_str(), "None");
    assert_eq!(VersionLock::Major.as_str(), "Major");
    assert_eq!(VersionLock::Minor.as_str(), "Minor");
}

#[test]
fn pre_release_renders_as_the_tool_expects() {
    assert_eq!(PreRelease::Never.to_string(), "Never");
    assert_eq!(PreRelease::Auto.to_string(), "Auto");
    assert_eq!(PreRelease::Always.to_string(), "Always");
    assert_eq!(PreRelease::Never.as_str(), "Never");
    assert_eq!(PreRelease::Auto.as_str(), "Auto");
    assert_eq!(PreRelease::Always.as_str(), "Always");
}

#[test]
fn version_lock_defaults_to_no_lock() {
    assert_eq!(VersionLock::default(), VersionLock::Unlocked);
}

#[test]
fn pre_release_defaults_to_auto() {
    assert_eq!(PreRelease::default(), PreRelease::Auto);
}

#[test]
fn options_default_to_the_documented_policy() {
    let options = DotnetOutdatedOptions::default();
    assert!(!options.include_auto_references);
    assert_eq!(options.pre_release, PreRelease::Auto);
    assert!(options.include_packages.is_empty());
    assert!(options.exclude.is_empty());
    assert!(!options.transitive);
    assert_eq!(options.transitive_depth, 1);
    assert_eq!(options.version_lock, VersionLock::Unlocked);
    assert_eq!(options.input_dir, None);
}
