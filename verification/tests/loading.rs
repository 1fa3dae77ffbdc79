use manifest_install::dependency::{Dependency, DependencyDetail};
use manifest_install::error::RunError;
use manifest_install::keys::{key_order, KeyOrder};
use manifest_install::manifest::{resolve_manifest_path, Manifest, MANIFEST_FILE_NAME};

#[test]
fn directory_resolves_to_the_manifest_inside_it() {
    assert_eq!(resolve_manifest_path("project", true), "project/Cargo.toml");
    assert_eq!(resolve_manifest_path("/home/me/project", true), "/home/me/project/Cargo.toml");
    assert_eq!(resolve_manifest_path(".", true), "./Cargo.toml");
}

#[test]
fn directory_with_trailing_separator_gets_no_second_one() {
    assert_eq!(resolve_manifest_path("project/", true), "project/Cargo.toml");
    assert_eq!(resolve_manifest_path("/", true), "/Cargo.toml");
}

#[test]
fn empty_directory_path_resolves_to_the_bare_file_name() {
    assert_eq!(resolve_manifest_path("", true), "Cargo.toml");
    assert_eq!(MANIFEST_FILE_NAME, "Cargo.toml");
}

#[test]
fn file_path_resolves_to_itself() {
    assert_eq!(resolve_manifest_path("project/Cargo.toml", false), "project/Cargo.toml");
    assert_eq!(resolve_manifest_path("other.toml", false), "other.toml");
    assert_eq!(resolve_manifest_path("", false), "");
}

#[test]
fn path_with_wide_characters_is_kept() {
    assert_eq!(resolve_manifest_path("projets/été", true), "projets/été/Cargo.toml");
}

#[test]
fn new_manifest_declares_nothing() {
    let manifest = Manifest::new();
    assert_eq!(manifest.len(), 0);
    assert!(manifest.get(0).is_none());
}

#[test]
fn declarations_stand_in_the_order_of_their_keys() {
    let mut manifest = Manifest::new();
    manifest.insert("foo".to_string(), Dependency::Simple("1.0".to_string()));
    manifest.insert("bar".to_string(), Dependency::Simple("2.3".to_string()));
    manifest.insert("baz".to_string(), Dependency::Simple("0.1".to_string()));
    manifest.insert("zzz".to_string(), Dependency::Simple("9.9".to_string()));
    manifest.insert("a".to_string(), Dependency::Simple("0.0".to_string()));
    assert_eq!(manifest.len(), 5);
    let names: Vec<&str> =
        (0..manifest.len()).map(|i| manifest.get(i).unwrap().name.as_str()).collect();
    assert_eq!(names, vec!["a", "bar", "baz", "foo", "zzz"]);
    assert_eq!(manifest.get(1).unwrap().dependency, Dependency::Simple("2.3".to_string()));
    assert_eq!(manifest.get(3).unwrap().dependency, Dependency::Simple("1.0".to_string()));
    assert!(manifest.get(5).is_none());
}

#[test]
fn keys_are_ordered_as_strings_are() {
    let keys = ["b", "", "ab", "B", "a", "abc", "é", "z", "a-b", "a_b", "aa", "Z", "10", "9"];
    let mut manifest = Manifest::new();
    for key in keys {
        manifest.insert(key.to_string(), Dependency::Simple("1".to_string()));
    }
    let mut expected: Vec<String> = keys.iter().map(|key| key.to_string()).collect();
    expected.sort();
    let names: Vec<String> =
        (0..manifest.len()).map(|i| manifest.get(i).unwrap().name.clone()).collect();
    assert_eq!(names, expected);
}

#[test]
fn declaring_a_key_again_replaces_it_in_place() {
    let mut manifest = Manifest::new();
    manifest.insert("foo".to_string(), Dependency::Simple("1.0".to_string()));
    manifest.insert("bar".to_string(), Dependency::Simple("2.3".to_string()));
    manifest.insert("foo".to_string(), Dependency::Detailed(DependencyDetail::default()));
    assert_eq!(manifest.len(), 2);
    assert_eq!(manifest.get(0).unwrap().name, "bar");
    assert_eq!(manifest.get(0).unwrap().dependency, Dependency::Simple("2.3".to_string()));
    assert_eq!(manifest.get(1).unwrap().name, "foo");
    assert_eq!(
        manifest.get(1).unwrap().dependency,
        Dependency::Detailed(DependencyDetail::default())
    );
}

#[test]
fn key_order_tells_before_same_and_after() {
    assert_eq!(key_order("bar", "foo"), KeyOrder::Before);
    assert_eq!(key_order("foo", "bar"), KeyOrder::After);
    assert_eq!(key_order("foo", "foo"), KeyOrder::Same);
    assert_eq!(key_order("", ""), KeyOrder::Same);
    assert_eq!(key_order("", "a"), KeyOrder::Before);
    assert_eq!(key_order("a", ""), KeyOrder::After);
    assert_eq!(key_order("foo", "foobar"), KeyOrder::Before);
    assert_eq!(key_order("foobar", "foo"), KeyOrder::After);
    assert_eq!(key_order("Zebra", "apple"), KeyOrder::Before);
    assert_eq!(key_order("z", "é"), KeyOrder::Before);
    assert_eq!(key_order("é", "z"), KeyOrder::After);
}

#[test]
fn missing_manifest_is_reported_without_a_fatal_end() {
    let error = RunError::ManifestNotFound { path: "nowhere/Cargo.toml".to_string() };
    assert_eq!(error.message(), "Cargo file at nowhere/Cargo.toml not found");
    assert!(!error.is_fatal());
}

#[test]
fn parse_failure_names_the_path_and_is_fatal() {
    let error = RunError::ManifestParseError { path: "bad/Cargo.toml".to_string() };
    assert_eq!(error.message(), "Failed to parse cargo manifest at bad/Cargo.toml");
    assert!(error.is_fatal());
}

#[test]
fn install_failure_is_fatal() {
    let error = RunError::InstallFailure { name: "foo".to_string() };
    assert_eq!(error.message(), "Failed to install");
    assert!(error.is_fatal());
}
