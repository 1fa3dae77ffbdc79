use manifest_install::command::{build_command, CommandKind};
use manifest_install::dependency::{Dependency, DependencyDetail};
use manifest_install::installer::{first_attempt, install_command, verdict, Verdict, FAST_PATH_TOOL};
use manifest_install::manifest::ManifestEntry;

fn words(items: &[&str]) -> Vec<String> {
    items.iter().map(|item| item.to_string()).collect()
}

#[test]
fn subcommand_names_the_way_of_installing() {
    assert_eq!(CommandKind::Binstall.subcommand(), "binstall");
    assert_eq!(CommandKind::CargoInstall.subcommand(), "install");
}

#[test]
fn every_command_invokes_cargo() {
    let fast = build_command(CommandKind::Binstall, "foo".to_string(), None);
    let canonical = build_command(CommandKind::CargoInstall, "foo".to_string(), None);
    assert_eq!(fast.program(), "cargo");
    assert_eq!(canonical.program(), "cargo");
}

#[test]
fn command_keeps_what_it_was_built_from() {
    let args = words(&["--version", "1.0"]);
    let command = build_command(CommandKind::Binstall, "foo".to_string(), Some(&args));
    assert_eq!(command.kind(), CommandKind::Binstall);
    assert_eq!(command.name(), "foo");
    assert_eq!(command.args(), &args[..]);
}

#[test]
fn command_without_arguments_carries_none() {
    let fast = build_command(CommandKind::Binstall, "foo".to_string(), None);
    assert!(fast.args().is_empty());
    assert_eq!(fast.argv(), words(&["binstall", "foo", "--no-confirm"]));

    let canonical = build_command(CommandKind::CargoInstall, "foo".to_string(), None);
    assert_eq!(canonical.argv(), words(&["install", "foo"]));
}

#[test]
fn fast_path_adds_the_confirmation_flag_at_the_end() {
    let args = words(&["--git", "https://git.example/x.git", "--features", "a,b"]);
    let command = build_command(CommandKind::Binstall, "x".to_string(), Some(&args));
    assert_eq!(
        command.argv(),
        words(&[
            "binstall",
            "x",
            "--git",
            "https://git.example/x.git",
            "--features",
            "a,b",
            "--no-confirm"
        ])
    );
}

#[test]
fn simple_dependency_commands_on_both_paths() {
    let entry = ManifestEntry {
        name: "ripgrep".to_string(),
        dependency: Dependency::Simple("13.0".to_string()),
    };
    let fast = install_command(CommandKind::Binstall, &entry);
    assert_eq!(
        fast.argv(),
        words(&["binstall", "ripgrep", "--version", "13.0", "--no-confirm"])
    );

    let canonical = install_command(CommandKind::CargoInstall, &entry);
    assert_eq!(canonical.argv(), words(&["install", "ripgrep", "--version", "13.0"]));
}

#[test]
fn both_paths_share_target_and_arguments() {
    let mut detail = DependencyDetail::default();
    detail.version = Some("0.9".to_string());
    detail.features = words(&["x", "y"]);
    detail.default_features = Some(false);
    let entry =
        ManifestEntry { name: "tool".to_string(), dependency: Dependency::Detailed(detail) };

    let fast = install_command(CommandKind::Binstall, &entry);
    let canonical = install_command(CommandKind::CargoInstall, &entry);
    assert_eq!(fast.name(), canonical.name());
    assert_eq!(fast.args(), canonical.args());
    assert_eq!(
        canonical.argv(),
        words(&[
            "install",
            "tool",
            "--version",
            "0.9",
            "--features",
            "x,y",
            "--no-default-features"
        ])
    );
}

#[test]
fn package_name_replaces_the_key_in_the_command() {
    let mut detail = DependencyDetail::default();
    detail.package = Some("cargo-edit".to_string());
    let entry =
        ManifestEntry { name: "edit".to_string(), dependency: Dependency::Detailed(detail) };

    let fast = install_command(CommandKind::Binstall, &entry);
    assert_eq!(fast.name(), "cargo-edit");
    assert_eq!(fast.argv(), words(&["binstall", "cargo-edit", "--features", "", "--no-confirm"]));

    let canonical = install_command(CommandKind::CargoInstall, &entry);
    assert_eq!(canonical.argv(), words(&["install", "cargo-edit", "--features", ""]));
}

#[test]
fn first_attempt_follows_the_tool() {
    assert_eq!(first_attempt(true), CommandKind::Binstall);
    assert_eq!(first_attempt(false), CommandKind::CargoInstall);
    assert_eq!(FAST_PATH_TOOL, "cargo-binstall");
}

#[test]
fn verdict_after_each_outcome() {
    assert_eq!(verdict(CommandKind::Binstall, true), Verdict::Installed);
    assert_eq!(verdict(CommandKind::CargoInstall, true), Verdict::Installed);
    assert_eq!(verdict(CommandKind::Binstall, false), Verdict::FallBack);
    assert_eq!(verdict(CommandKind::CargoInstall, false), Verdict::GiveUp);
}
