use manifest_install::args::{build_args, dependency_arguments, join_features};
use manifest_install::dependency::{install_target, Dependency, DependencyDetail};

fn strings(items: &[&str]) -> Vec<String> {
    items.iter().map(|item| item.to_string()).collect()
}

fn full_detail() -> DependencyDetail {
    DependencyDetail {
        version: Some("1.2.3".to_string()),
        registry: Some("internal".to_string()),
        registry_index: Some("https://index.example/".to_string()),
        path: Some("../tool".to_string()),
        git: Some("https://git.example/tool.git".to_string()),
        branch: Some("main".to_string()),
        tag: Some("v1".to_string()),
        rev: Some("abc123".to_string()),
        package: Some("real-tool".to_string()),
        features: strings(&["cli", "tls"]),
        default_features: Some(false),
    }
}

#[test]
fn unset_declaration_passes_only_the_empty_feature_list() {
    let args = build_args(&DependencyDetail::default());
    assert_eq!(args, strings(&["--features", ""]));
}

#[test]
fn every_field_appears_in_the_fixed_order() {
    let args = build_args(&full_detail());
    assert_eq!(
        args,
        strings(&[
            "--version",
            "1.2.3",
            "--registry",
            "internal",
            "--index",
            "https://index.example/",
            "--path",
            "../tool",
            "--git",
            "https://git.example/tool.git",
            "--branch",
            "main",
            "--tag",
            "v1",
            "--rev",
            "abc123",
            "--features",
            "cli,tls",
            "--no-default-features",
        ])
    );
}

#[test]
fn unset_fields_leave_no_gap() {
    let mut detail = DependencyDetail::default();
    detail.registry = Some("internal".to_string());
    detail.tag = Some("v2".to_string());
    let args = build_args(&detail);
    assert_eq!(args, strings(&["--registry", "internal", "--tag", "v2", "--features", ""]));
}

#[test]
fn git_and_path_together_are_passed_on_unjudged() {
    let mut detail = DependencyDetail::default();
    detail.path = Some("local".to_string());
    detail.git = Some("https://git.example/x.git".to_string());
    let args = build_args(&detail);
    assert_eq!(
        args,
        strings(&["--path", "local", "--git", "https://git.example/x.git", "--features", ""])
    );
}

#[test]
fn features_token_is_present_for_an_empty_list() {
    let mut detail = DependencyDetail::default();
    detail.version = Some("0.3".to_string());
    let args = build_args(&detail);
    assert_eq!(args.len(), 4);
    assert_eq!(args[2], "--features");
    assert_eq!(args[3], "");
}

#[test]
fn features_are_joined_with_commas_in_their_order() {
    assert_eq!(join_features(&strings(&[])), "");
    assert_eq!(join_features(&strings(&["serde"])), "serde");
    assert_eq!(join_features(&strings(&["b", "a", "c"])), "b,a,c");
    assert_eq!(join_features(&strings(&["", ""])), ",");
}

#[test]
fn default_features_switch_only_where_explicitly_declined() {
    let mut detail = DependencyDetail::default();
    let switch = "--no-default-features".to_string();

    detail.default_features = None;
    assert!(!build_args(&detail).contains(&switch));

    detail.default_features = Some(true);
    assert!(!build_args(&detail).contains(&switch));

    detail.default_features = Some(false);
    let args = build_args(&detail);
    assert_eq!(args, strings(&["--features", "", "--no-default-features"]));
}

#[test]
fn a_value_spelled_like_the_switch_is_still_only_a_value() {
    let mut detail = DependencyDetail::default();
    detail.version = Some("--no-default-features".to_string());
    let args = build_args(&detail);
    assert_eq!(args, strings(&["--version", "--no-default-features", "--features", ""]));
}

#[test]
fn simple_declaration_stands_for_its_version() {
    let args = dependency_arguments(&Dependency::Simple("1.0".to_string()));
    assert_eq!(args, strings(&["--version", "1.0"]));
}

#[test]
fn detailed_declaration_stands_for_its_fields() {
    let detail = full_detail();
    let args = dependency_arguments(&Dependency::Detailed(detail.clone()));
    assert_eq!(args, build_args(&detail));
}

#[test]
fn target_is_the_key_unless_a_package_is_named() {
    let simple = Dependency::Simple("1.0".to_string());
    assert_eq!(install_target("foo", &simple), "foo");

    let unnamed = Dependency::Detailed(DependencyDetail::default());
    assert_eq!(install_target("foo", &unnamed), "foo");

    let named = Dependency::Detailed(full_detail());
    assert_eq!(install_target("foo", &named), "real-tool");
}
