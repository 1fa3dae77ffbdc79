//! The commands that install one package.

use vstd::prelude::*;

verus! {

/// The two ways of installing a package.
#[derive(Clone, Copy, Debug, PartialEq, Eq, Structural)]
pub enum CommandKind {
    /// The fast path: fetch a prebuilt binary.
    Binstall,
    /// The canonical path: build from source.
    CargoInstall,
}

impl CommandKind {
    /// The subcommand, as a sequence of characters.
    pub open spec fn subcommand_text(self) -> Seq<char> {
        match self {
            CommandKind::Binstall => "binstall"@,
            CommandKind::CargoInstall => "install"@,
        }
    }

    /// What this kind of install adds behind the arguments of the dependency:
    /// the fast path must not stop to ask for confirmation.
    pub open spec fn closing_args(self) -> Seq<Seq<char>> {
        match self {
            CommandKind::Binstall => seq!["--no-confirm"@],
            CommandKind::CargoInstall => Seq::empty(),
        }
    }

    /// The subcommand of the package manager that performs this kind of install.
    pub fn subcommand(&self) -> (word: &'static str)
        ensures
            word@ == self.subcommand_text(),
    {
        match self {
            CommandKind::Binstall => "binstall",
            CommandKind::CargoInstall => "install",
        }
    }
}

/// One invocation of the package manager: what to install, how, and with
/// which arguments. It is built once and not changed afterwards.
#[derive(Clone, Debug, PartialEq, Eq)]
pub struct InstallCommand {
    kind: CommandKind,
    name: String,
    args: Vec<String>,
}

/// What an [`InstallCommand`] holds, as mathematical values.
pub struct InstallCommandView {
    pub kind: CommandKind,
    pub name: Seq<char>,
    pub args: Seq<Seq<char>>,
}

impl InstallCommandView {
    /// Everything that follows the program's name on the command line: the
    /// subcommand, the target, the arguments of the dependency, and what the
    /// kind of install adds.
    pub open spec fn argv(self) -> Seq<Seq<char>> {
        seq![self.kind.subcommand_text(), self.name] + self.args + self.kind.closing_args()
    }
}

impl View for InstallCommand {
    type V = InstallCommandView;

    closed spec fn view(&self) -> InstallCommandView {
        InstallCommandView {
            kind: self.kind,
            name: self.name@,
            args: self.args.deep_view(),
        }
    }
}

/// Copies a list of strings.
fn copy_strings(list: &[String]) -> (copy: Vec<String>)
    ensures
        copy.deep_view() == list.deep_view(),
{
    let mut copy: Vec<String> = Vec::new();
    let mut i: usize = 0;
    while i < list.len()
        invariant
            i <= list.len(),
            copy.deep_view() == list.deep_view().take(i as int),
        decreases list.len() - i,
    {
        let ghost before = copy.deep_view();
        let item = list[i].clone();
        copy.push(item);
        proof {
            assert(copy.deep_view() =~= before.push(item@));
            assert(list.deep_view().take(i + 1) =~= list.deep_view().take(i as int).push(item@));
        }
        i += 1;
    }
    assert(list.deep_view().take(i as int) =~= list.deep_view());
    copy
}

/// Builds the command that installs `name` in the given way. Without a list
/// of arguments the command carries none.
pub fn build_command(
    kind: CommandKind,
    name: String,
    args: Option<&[String]>,
) -> (command: InstallCommand)
    ensures
        command@.kind == kind,
        command@.name == name@,
        command@.args == match args {
            Some(list) => list.deep_view(),
            None => Seq::empty(),
        },
{
    let args = match args {
        Some(list) => copy_strings(list),
        None => Vec::new(),
    };
    InstallCommand { kind, name, args }
}

impl InstallCommand {
    /// The way of installing.
    pub fn kind(&self) -> (kind: CommandKind)
        ensures
            kind == self@.kind,
    {
        self.kind
    }

    /// The name of the package to install.
    pub fn name(&self) -> (name: &str)
        ensures
            name@ == self@.name,
    {
        self.name.as_str()
    }

    /// The arguments that the dependency stands for.
    pub fn args(&self) -> (args: &[String])
        ensures
            args.deep_view() == self@.args,
    {
        self.args.as_slice()
    }

    /// The program that every command invokes.
    pub fn program(&self) -> (program: &'static str)
        ensures
            program@ == "cargo"@,
    {
        "cargo"
    }

    /// The arguments to invoke the program with, in order.
    pub fn argv(&self) -> (argv: Vec<String>)
        ensures
            argv.deep_view() == self@.argv(),
    {
        let mut argv: Vec<String> = Vec::new();
        argv.push(self.kind.subcommand().to_owned());
        argv.push(self.name.clone());
        let ghost head = argv.deep_view();
        let mut i: usize = 0;
        while i < self.args.len()
            invariant
                i <= self.args.len(),
                argv.deep_view() == head + self.args.deep_view().take(i as int),
            decreases self.args.len() - i,
        {
            let ghost before = argv.deep_view();
            let item = self.args[i].clone();
            argv.push(item);
            proof {
                assert(argv.deep_view() =~= before.push(item@));
                assert(self.args.deep_view().take(i + 1) =~= self.args.deep_view().take(
                    i as int,
                ).push(item@));
            }
            i += 1;
        }
        assert(self.args.deep_view().take(i as int) =~= self.args.deep_view());
        let ghost body = argv.deep_view();
        match self.kind {
            CommandKind::Binstall => {
                argv.push("--no-confirm".to_owned());
                assert(argv.deep_view() =~= body.push("--no-confirm"@));
            },
            CommandKind::CargoInstall => {},
        }
        argv
    }
}

} // verus!
