//! The rules for installing one dependency: the fast path first, where its
//! tool is at hand, then the canonical path, then giving up.

use vstd::prelude::*;
use crate::args::{dependency_args, dependency_arguments};
use crate::command::{build_command, CommandKind, InstallCommand, InstallCommandView};
use crate::dependency::{install_target, target_name, DependencyDetailView, DependencyView};
use crate::manifest::{ManifestEntry, ManifestEntryView};

verus! {

/// The binary that the fast path needs on the execution path.
pub const FAST_PATH_TOOL: &'static str = "cargo-binstall";

/// What to do after an attempt to install a dependency.
#[derive(Clone, Copy, Debug, PartialEq, Eq, Structural)]
pub enum Verdict {
    /// The dependency is installed.
    Installed,
    /// Try the canonical path.
    FallBack,
    /// Nothing is left to try.
    GiveUp,
}

/// The command that installs the dependency of `entry` in the given way. Both
/// ways install the same target with the same arguments.
pub open spec fn command_for(kind: CommandKind, entry: ManifestEntryView) -> InstallCommandView {
    InstallCommandView {
        kind,
        name: target_name(entry.name, entry.dependency),
        args: dependency_args(entry.dependency),
    }
}

/// The first way to try: the fast path where its tool is available.
pub open spec fn first_attempt_spec(tool_available: bool) -> CommandKind {
    if tool_available {
        CommandKind::Binstall
    } else {
        CommandKind::CargoInstall
    }
}

/// Success ends the work on a dependency. A failed fast path falls back on
/// the canonical path, and a failed canonical path leaves nothing to try.
pub open spec fn verdict_spec(kind: CommandKind, success: bool) -> Verdict {
    if success {
        Verdict::Installed
    } else {
        match kind {
            CommandKind::Binstall => Verdict::FallBack,
            CommandKind::CargoInstall => Verdict::GiveUp,
        }
    }
}

/// Builds the command that installs the dependency of `entry` in the given way.
pub fn install_command(kind: CommandKind, entry: &ManifestEntry) -> (command: InstallCommand)
    ensures
        command@ == command_for(kind, entry@),
{
    let name = install_target(entry.name.as_str(), &entry.dependency);
    let args = dependency_arguments(&entry.dependency);
    build_command(kind, name, Some(args.as_slice()))
}

/// Chooses the first way to try. Without the tool the fast path counts as
/// failed before it was run.
pub fn first_attempt(tool_available: bool) -> (kind: CommandKind)
    ensures
        kind == first_attempt_spec(tool_available),
{
    if tool_available {
        CommandKind::Binstall
    } else {
        CommandKind::CargoInstall
    }
}

/// Judges an attempt of the given kind by whether its command succeeded.
pub fn verdict(kind: CommandKind, success: bool) -> (verdict: Verdict)
    ensures
        verdict == verdict_spec(kind, success),
{
    if success {
        Verdict::Installed
    } else {
        match kind {
            CommandKind::Binstall => Verdict::FallBack,
            CommandKind::CargoInstall => Verdict::GiveUp,
        }
    }
}

/// A dependency that is declared by its version alone is installed on the fast
/// path by `binstall`, the name, `--version`, the version and `--no-confirm`,
/// and on the canonical path by `install`, the name, `--version` and the
/// version. The fast path holds no token but the subcommand, the name, the
/// confirmation flag, `--version` and the version, each once.
pub proof fn simple_dependency_commands(name: Seq<char>, version: Seq<char>)
    ensures
        ({
            let entry = ManifestEntryView { name, dependency: DependencyView::Simple(version) };
            let fast = command_for(CommandKind::Binstall, entry).argv();
            let canonical = command_for(CommandKind::CargoInstall, entry).argv();
            &&& fast == seq!["binstall"@, name, "--version"@, version, "--no-confirm"@]
            &&& canonical == seq!["install"@, name, "--version"@, version]
            &&& fast.to_multiset() == seq![
                "binstall"@,
                name,
                "--no-confirm"@,
                "--version"@,
                version,
            ].to_multiset()
        }),
{
    let entry = ManifestEntryView { name, dependency: DependencyView::Simple(version) };
    let fast = command_for(CommandKind::Binstall, entry).argv();
    let tokens = seq!["binstall"@, name, "--no-confirm"@, "--version"@, version];
    let none = Seq::<Seq<char>>::empty();
    assert(fast =~= none.push("binstall"@).push(name).push("--version"@).push(version).push(
        "--no-confirm"@,
    ));
    assert(tokens =~= none.push("binstall"@).push(name).push("--no-confirm"@).push(
        "--version"@,
    ).push(version));
    broadcast use vstd::seq_lib::to_multiset_build;

    assert(fast.to_multiset() =~= tokens.to_multiset());
}

/// Whatever the declaration, the canonical path installs the target that the
/// fast path installs, with the same arguments. The command lines differ in
/// the subcommand and in what the fast path adds at the end.
pub proof fn fallback_keeps_target_and_arguments(entry: ManifestEntryView)
    ensures
        ({
            let fast = command_for(CommandKind::Binstall, entry);
            let canonical = command_for(CommandKind::CargoInstall, entry);
            &&& canonical.name == fast.name
            &&& canonical.args == fast.args
            &&& fast.argv() == seq!["binstall"@, fast.name] + fast.args + seq!["--no-confirm"@]
            &&& canonical.argv() == seq!["install"@, fast.name] + fast.args
        }),
{
}

/// A detailed declaration that names its package is installed under that
/// name, whatever its key.
pub proof fn package_overrides_key(key: Seq<char>, detail: DependencyDetailView, kind: CommandKind)
    requires
        detail.package is Some,
    ensures
        ({
            let entry = ManifestEntryView {
                name: key,
                dependency: DependencyView::Detailed(detail),
            };
            &&& target_name(key, entry.dependency) == detail.package->0
            &&& command_for(kind, entry).name == detail.package->0
            &&& command_for(kind, entry).argv()[1] == detail.package->0
        }),
{
}

} // verus!
