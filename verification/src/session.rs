//! A run of the tool from the path that the user gave to the last install.
//!
//! The run is a state machine. In every state it has one pending action for
//! the caller to perform: look at a path, load the manifest, look for a tool,
//! run a command. The caller reports what came of the action as an event, and
//! the run moves on. A run that has finished or failed stays as it is.

use vstd::prelude::*;
use crate::command::{CommandKind, InstallCommand, InstallCommandView};
use crate::dependency::{install_target, target_name};
use crate::error::{RunError, RunErrorView};
use crate::installer::{
    command_for,
    first_attempt,
    first_attempt_spec,
    install_command,
    verdict,
    verdict_spec,
    Verdict,
    FAST_PATH_TOOL,
};
use crate::manifest::{
    ascending,
    manifest_path,
    resolve_manifest_path,
    Manifest,
    ManifestEntryView,
    MANIFEST_FILE_NAME,
};
use crate::output::OutputPolicy;
use crate::progress::{Progress, ProgressView};

verus! {

/// Where a run stands.
#[derive(Clone, Copy, Debug, PartialEq, Eq, Structural)]
pub enum Phase {
    /// The path that the user gave has not been looked at.
    Locating,
    /// The path of the manifest file is known, but not whether the file exists.
    Checking,
    /// The manifest file exists and has not been loaded.
    Loading,
    /// About to install a dependency; the fast-path tool has not been looked for.
    Probing,
    /// A command of the given kind is installing a dependency.
    Running(CommandKind),
    /// Every dependency is installed.
    Finished,
    /// There is no manifest file.
    NotFound,
    /// The manifest file could not be parsed.
    Unparsable,
    /// A dependency could not be installed in either way.
    InstallFailed,
}

impl Phase {
    /// The run has ended without installing every dependency.
    pub open spec fn is_failure(self) -> bool {
        self is NotFound || self is Unparsable || self is InstallFailed
    }

    /// The run has ended.
    pub open spec fn is_final(self) -> bool {
        self is Finished || self.is_failure()
    }

    /// The manifest has not been loaded, and never will be where the run has
    /// failed on it.
    pub open spec fn is_before_load(self) -> bool {
        self is Locating || self is Checking || self is Loading || self is NotFound
            || self is Unparsable
    }

    /// The run is at work on a dependency.
    pub open spec fn is_installing(self) -> bool {
        self is Probing || self is Running
    }
}

/// What the caller reports back to the run.
#[derive(Debug, PartialEq, Eq)]
pub enum Event {
    /// Whether the path names a directory.
    PathInspected { is_dir: bool },
    /// Whether there is a file at the path.
    ExistenceChecked { exists: bool },
    /// The manifest was read and parsed.
    ManifestLoaded { manifest: Manifest },
    /// The manifest could not be read or parsed.
    ManifestRejected,
    /// Whether the fast-path tool is on the execution path.
    ToolProbed { available: bool },
    /// Whether the command exited with success.
    CommandFinished { success: bool },
}

/// What an [`Event`] holds, as mathematical values.
pub enum EventView {
    PathInspected { is_dir: bool },
    ExistenceChecked { exists: bool },
    ManifestLoaded { entries: Seq<ManifestEntryView> },
    ManifestRejected,
    ToolProbed { available: bool },
    CommandFinished { success: bool },
}

impl EventView {
    /// What holds of every event that a caller can report: a manifest that
    /// was loaded holds its declarations in the order of their keys.
    pub open spec fn well_formed(self) -> bool {
        self matches EventView::ManifestLoaded { entries } ==> ascending(entries)
    }
}

impl View for Event {
    type V = EventView;

    open spec fn view(&self) -> EventView {
        match self {
            Event::PathInspected { is_dir } => EventView::PathInspected { is_dir: *is_dir },
            Event::ExistenceChecked { exists } => EventView::ExistenceChecked { exists: *exists },
            Event::ManifestLoaded { manifest } => EventView::ManifestLoaded { entries: manifest@ },
            Event::ManifestRejected => EventView::ManifestRejected,
            Event::ToolProbed { available } => EventView::ToolProbed { available: *available },
            Event::CommandFinished { success } => EventView::CommandFinished { success: *success },
        }
    }
}

/// What the run asks the caller to do next.
#[derive(Debug, PartialEq, Eq)]
pub enum Action {
    /// Find out whether the path names a directory.
    InspectPath { path: String },
    /// Find out whether there is a file at the path.
    CheckExists { path: String },
    /// Read and parse the manifest at the path.
    LoadManifest { path: String },
    /// Find out whether the tool is on the execution path.
    ProbeTool { tool: &'static str },
    /// Run the command and route its output as the policy says.
    Run { command: InstallCommand, output: OutputPolicy },
    /// Tell the user that every dependency is installed.
    Finish,
    /// Tell the user what went wrong and install nothing more.
    Fail { error: RunError },
}

/// What an [`Action`] holds, as mathematical values.
pub enum ActionView {
    InspectPath { path: Seq<char> },
    CheckExists { path: Seq<char> },
    LoadManifest { path: Seq<char> },
    ProbeTool { tool: Seq<char> },
    Run { command: InstallCommandView, output: OutputPolicy },
    Finish,
    Fail { error: RunErrorView },
}

impl View for Action {
    type V = ActionView;

    open spec fn view(&self) -> ActionView {
        match self {
            Action::InspectPath { path } => ActionView::InspectPath { path: path@ },
            Action::CheckExists { path } => ActionView::CheckExists { path: path@ },
            Action::LoadManifest { path } => ActionView::LoadManifest { path: path@ },
            Action::ProbeTool { tool } => ActionView::ProbeTool { tool: tool@ },
            Action::Run { command, output } => ActionView::Run {
                command: command@,
                output: *output,
            },
            Action::Finish => ActionView::Finish,
            Action::Fail { error } => ActionView::Fail { error: error@ },
        }
    }
}

/// Looks for an executable file named `tool` with `which::which`. The answer
/// depends on the execution path and on the files of the machine, so nothing
/// is claimed of it.
#[verifier::external_body]
fn on_execution_path(tool: &str) -> (found: bool) {
    which::which(tool).is_ok()
}

/// Performs the action of looking for a tool and reports what was found.
/// Which answer the event carries is for the machine to say; the run is
/// prepared for either.
pub fn probe_tool(tool: &str) -> (event: Event)
    ensures
        event@ is ToolProbed,
{
    Event::ToolProbed { available: on_execution_path(tool) }
}

/// The state of a run, as mathematical values.
pub struct SessionView {
    /// Where the run stands.
    pub phase: Phase,
    /// The path that the user gave and, once it was looked at, the path of
    /// the manifest file.
    pub path: Seq<char>,
    /// What becomes of the output of the commands.
    pub output: OutputPolicy,
    /// The declarations of the manifest; none before it is loaded.
    pub entries: Seq<ManifestEntryView>,
    /// The number of dependencies that are installed, which is the index of
    /// the one at work.
    pub cursor: nat,
    /// What the user is shown of the run.
    pub progress: ProgressView,
}

impl SessionView {
    /// The state of a run that has just been given its path. The commands of
    /// a run stay silent unless the user asked for verbose output.
    pub open spec fn start(path: Seq<char>, verbose: bool) -> SessionView {
        SessionView {
            phase: Phase::Locating,
            path,
            output: OutputPolicy { silent: true, verbose },
            entries: Seq::empty(),
            cursor: 0,
            progress: ProgressView::start(0),
        }
    }

    /// What holds of every state that a run can reach. The declarations
    /// stand in the order of their keys, and nothing is declared before the
    /// manifest is loaded. The count that the user is shown is the number of
    /// installed dependencies. While a dependency is at work, and when its
    /// installation has failed, the label names its target. A finished run
    /// has installed every dependency and says so.
    pub open spec fn well_formed(self) -> bool {
        &&& ascending(self.entries)
        &&& self.cursor <= self.entries.len()
        &&& self.progress.total == self.entries.len()
        &&& self.progress.position == self.cursor
        &&& self.phase.is_before_load() ==> self.entries.len() == 0
        &&& self.phase.is_installing() || self.phase is InstallFailed ==> {
            &&& self.cursor < self.entries.len()
            &&& self.progress.label == target_name(self.current().name, self.current().dependency)
            &&& !self.progress.finished
        }
        &&& self.phase is Finished ==> {
            &&& self.cursor == self.entries.len()
            &&& self.progress.label == Seq::<char>::empty()
            &&& self.progress.finished
        }
    }

    /// The declaration at work.
    pub open spec fn current(self) -> ManifestEntryView {
        self.entries[self.cursor as int]
    }

    /// The state in which the work on the dependency at `cursor` begins, or,
    /// where no dependency is left, the state in which the run has finished.
    pub open spec fn begin(self, cursor: nat) -> SessionView {
        if cursor < self.entries.len() {
            let entry = self.entries[cursor as int];
            SessionView {
                phase: Phase::Probing,
                cursor,
                progress: self.progress.labelled(target_name(entry.name, entry.dependency)),
                ..self
            }
        } else {
            SessionView {
                phase: Phase::Finished,
                cursor,
                progress: self.progress.labelled(Seq::empty()).completed(),
                ..self
            }
        }
    }

    /// The state after the dependency at work was installed.
    pub open spec fn installed(self) -> SessionView {
        SessionView { progress: self.progress.advanced(), ..self }.begin(self.cursor + 1)
    }

    /// The state after `event`. An event that does not answer the pending
    /// action changes nothing.
    pub open spec fn step(self, event: EventView) -> SessionView {
        match (self.phase, event) {
            (Phase::Locating, EventView::PathInspected { is_dir }) => SessionView {
                phase: Phase::Checking,
                path: manifest_path(self.path, is_dir),
                ..self
            },
            (Phase::Checking, EventView::ExistenceChecked { exists }) => SessionView {
                phase: if exists {
                    Phase::Loading
                } else {
                    Phase::NotFound
                },
                ..self
            },
            (Phase::Loading, EventView::ManifestLoaded { entries }) => SessionView {
                entries,
                progress: ProgressView::start(entries.len()),
                ..self
            }.begin(0),
            (Phase::Loading, EventView::ManifestRejected) => SessionView {
                phase: Phase::Unparsable,
                ..self
            },
            (Phase::Probing, EventView::ToolProbed { available }) => SessionView {
                phase: Phase::Running(first_attempt_spec(available)),
                ..self
            },
            (Phase::Running(kind), EventView::CommandFinished { success }) => match verdict_spec(
                kind,
                success,
            ) {
                Verdict::Installed => self.installed(),
                Verdict::FallBack => SessionView {
                    phase: Phase::Running(CommandKind::CargoInstall),
                    ..self
                },
                Verdict::GiveUp => SessionView { phase: Phase::InstallFailed, ..self },
            },
            _ => self,
        }
    }

    /// Why the run failed, if it did.
    pub open spec fn failure(self) -> Option<RunErrorView> {
        match self.phase {
            Phase::NotFound => Some(RunErrorView::ManifestNotFound { path: self.path }),
            Phase::Unparsable => Some(RunErrorView::ManifestParseError { path: self.path }),
            Phase::InstallFailed => Some(
                RunErrorView::InstallFailure {
                    name: target_name(self.current().name, self.current().dependency),
                },
            ),
            _ => None,
        }
    }

    /// What the caller is to do in this state.
    pub open spec fn pending(self) -> ActionView {
        match self.phase {
            Phase::Locating => ActionView::InspectPath { path: self.path },
            Phase::Checking => ActionView::CheckExists { path: self.path },
            Phase::Loading => ActionView::LoadManifest { path: self.path },
            Phase::Probing => ActionView::ProbeTool { tool: FAST_PATH_TOOL@ },
            Phase::Running(kind) => ActionView::Run {
                command: command_for(kind, self.current()),
                output: self.output,
            },
            Phase::Finished => ActionView::Finish,
            Phase::NotFound | Phase::Unparsable | Phase::InstallFailed => ActionView::Fail {
                error: self.failure().unwrap(),
            },
        }
    }
}

/// A run of the tool.
#[derive(Debug, PartialEq, Eq)]
pub struct Session {
    phase: Phase,
    path: String,
    output: OutputPolicy,
    manifest: Manifest,
    cursor: usize,
    progress: Progress,
}

impl View for Session {
    type V = SessionView;

    closed spec fn view(&self) -> SessionView {
        SessionView {
            phase: self.phase,
            path: self.path@,
            output: self.output,
            entries: self.manifest@,
            cursor: self.cursor as nat,
            progress: self.progress@,
        }
    }
}

impl Session {
    #[verifier::type_invariant]
    spec fn reachable(&self) -> bool {
        self@.well_formed()
    }

    /// Starts a run on the path that the user gave.
    pub fn new(path: String, verbose: bool) -> (session: Session)
        ensures
            session@ == SessionView::start(path@, verbose),
            session@.well_formed(),
    {
        Session {
            phase: Phase::Locating,
            path,
            output: OutputPolicy { silent: true, verbose },
            manifest: Manifest::new(),
            cursor: 0,
            progress: Progress::new(0),
        }
    }

    /// Where the run stands.
    pub fn phase(&self) -> (phase: Phase)
        ensures
            phase == self@.phase,
            self@.well_formed(),
    {
        proof {
            use_type_invariant(self);
        }
        self.phase
    }

    /// What the user is shown of the run.
    pub fn progress(&self) -> (progress: &Progress)
        ensures
            progress@ == self@.progress,
    {
        &self.progress
    }

    /// Why the run failed, for a run that did.
    fn error(&self) -> (error: RunError)
        requires
            self@.phase.is_failure(),
        ensures
            self@.failure() == Some(error@),
    {
        proof {
            use_type_invariant(self);
        }
        match self.phase {
            Phase::NotFound => RunError::ManifestNotFound { path: self.path.clone() },
            Phase::Unparsable => RunError::ManifestParseError { path: self.path.clone() },
            _ => {
                let entry = self.manifest.entry(self.cursor);
                let name = install_target(entry.name.as_str(), &entry.dependency);
                RunError::InstallFailure { name }
            },
        }
    }

    /// Why the run failed, if it did.
    pub fn failure(&self) -> (failure: Option<RunError>)
        ensures
            failure.is_some() == self@.phase.is_failure(),
            match failure {
                Some(error) => self@.failure() == Some(error@),
                None => self@.failure().is_none(),
            },
    {
        match self.phase {
            Phase::NotFound | Phase::Unparsable | Phase::InstallFailed => Some(self.error()),
            _ => None,
        }
    }

    /// What the caller is to do now.
    pub fn pending(&self) -> (action: Action)
        ensures
            action@ == self@.pending(),
    {
        proof {
            use_type_invariant(self);
        }
        match self.phase {
            Phase::Locating => Action::InspectPath { path: self.path.clone() },
            Phase::Checking => Action::CheckExists { path: self.path.clone() },
            Phase::Loading => Action::LoadManifest { path: self.path.clone() },
            Phase::Probing => Action::ProbeTool { tool: FAST_PATH_TOOL },
            Phase::Running(kind) => Action::Run {
                command: install_command(kind, self.manifest.entry(self.cursor)),
                output: self.output,
            },
            Phase::Finished => Action::Finish,
            Phase::NotFound | Phase::Unparsable | Phase::InstallFailed => Action::Fail {
                error: self.error(),
            },
        }
    }

    /// Begins the work on the dependency at `cursor`, or finishes the run
    /// where none is left.
    fn begin(
        path: String,
        output: OutputPolicy,
        manifest: Manifest,
        cursor: usize,
        progress: Progress,
    ) -> (session: Session)
        requires
            ascending(manifest@),
            cursor <= manifest@.len(),
            progress@.total == manifest@.len(),
            progress@.position == cursor,
            !progress@.finished,
        ensures
            session@ == (SessionView {
                phase: Phase::Locating,
                path: path@,
                output,
                entries: manifest@,
                cursor: cursor as nat,
                progress: progress@,
            }).begin(cursor as nat),
            session@.well_formed(),
    {
        let mut progress = progress;
        if cursor < manifest.len() {
            let entry = manifest.entry(cursor);
            let label = install_target(entry.name.as_str(), &entry.dependency);
            progress.set_label(label.as_str());
            Session { phase: Phase::Probing, path, output, manifest, cursor, progress }
        } else {
            progress.set_label("");
            progress.finish();
            proof {
                reveal_strlit("");
                assert(""@ =~= Seq::<char>::empty());
            }
            Session { phase: Phase::Finished, path, output, manifest, cursor, progress }
        }
    }

    /// Moves the run on by what the caller reports, and says what to do next.
    /// An event that does not answer the pending action leaves the run as it
    /// is, and the pending action is asked for again.
    pub fn advance(self, event: Event) -> (next: (Session, Action))
        ensures
            self@.well_formed(),
            next.0@ == self@.step(event@),
            next.0@.well_formed(),
            next.1@ == next.0@.pending(),
    {
        proof {
            use_type_invariant(&self);
        }
        let Session { phase, path, output, manifest, cursor, progress } = self;
        let session = match (phase, event) {
            (Phase::Locating, Event::PathInspected { is_dir }) => {
                let path = resolve_manifest_path(path.as_str(), is_dir);
                Session { phase: Phase::Checking, path, output, manifest, cursor, progress }
            },
            (Phase::Checking, Event::ExistenceChecked { exists }) => {
                let phase = if exists {
                    Phase::Loading
                } else {
                    Phase::NotFound
                };
                Session { phase, path, output, manifest, cursor, progress }
            },
            (Phase::Loading, Event::ManifestLoaded { manifest: loaded }) => {
                let progress = Progress::new(loaded.len());
                Session::begin(path, output, loaded, 0, progress)
            },
            (Phase::Loading, Event::ManifestRejected) => {
                Session { phase: Phase::Unparsable, path, output, manifest, cursor, progress }
            },
            (Phase::Probing, Event::ToolProbed { available }) => {
                let phase = Phase::Running(first_attempt(available));
                Session { phase, path, output, manifest, cursor, progress }
            },
            (Phase::Running(kind), Event::CommandFinished { success }) => {
                match verdict(kind, success) {
                    Verdict::Installed => {
                        let mut progress = progress;
                        progress.inc();
                        let count = manifest.len();
                        assert(cursor < count);
                        Session::begin(path, output, manifest, cursor + 1, progress)
                    },
                    Verdict::FallBack => {
                        let phase = Phase::Running(CommandKind::CargoInstall);
                        Session { phase, path, output, manifest, cursor, progress }
                    },
                    Verdict::GiveUp => {
                        Session {
                            phase: Phase::InstallFailed,
                            path,
                            output,
                            manifest,
                            cursor,
                            progress,
                        }
                    },
                }
            },
            (phase, _) => Session { phase, path, output, manifest, cursor, progress },
        };
        let action = session.pending();
        (session, action)
    }
}

impl SessionView {
    /// The state after each of `events` in turn.
    pub open spec fn run(self, events: Seq<EventView>) -> SessionView
        decreases events.len(),
    {
        if events.len() == 0 {
            self
        } else {
            self.step(events.first()).run(events.drop_first())
        }
    }

    /// The actions that the caller performs while it reports `events`: one
    /// before each event, the action that is pending then.
    pub open spec fn actions(self, events: Seq<EventView>) -> Seq<ActionView>
        decreases events.len(),
    {
        if events.len() == 0 {
            Seq::empty()
        } else {
            seq![self.pending()] + self.step(events.first()).actions(events.drop_first())
        }
    }
}

/// What the caller reports in a run that meets no failure, for `count`
/// dependencies: for each, whether the tool is there, and that the one
/// command succeeded.
pub open spec fn untroubled(tool_available: bool, count: nat) -> Seq<EventView> {
    Seq::new(
        2 * count,
        |i: int|
            if i % 2 == 0 {
                EventView::ToolProbed { available: tool_available }
            } else {
                EventView::CommandFinished { success: true }
            },
    )
}

/// No event leads out of the states that a run can reach.
pub proof fn step_keeps_well_formed(state: SessionView, event: EventView)
    requires
        state.well_formed(),
        event.well_formed(),
    ensures
        state.step(event).well_formed(),
{
}

/// No sequence of events leads out of the states that a run can reach.
pub proof fn run_keeps_well_formed(state: SessionView, events: Seq<EventView>)
    requires
        state.well_formed(),
        forall|i: int| 0 <= i < events.len() ==> (#[trigger] events[i]).well_formed(),
    ensures
        state.run(events).well_formed(),
    decreases events.len(),
{
    if events.len() > 0 {
        let rest = events.drop_first();
        assert(events[0].well_formed());
        assert forall|i: int| 0 <= i < rest.len() implies (#[trigger] rest[i]).well_formed() by {
            assert(rest[i] == events[i + 1]);
        }
        step_keeps_well_formed(state, events.first());
        run_keeps_well_formed(state.step(events.first()), rest);
    }
}

/// The dependencies are installed in turn. The run moves on to the next one
/// only when a command for the one at work has succeeded, and then by one;
/// the count that the user is shown moves with it.
pub proof fn dependencies_are_installed_in_turn(state: SessionView, event: EventView)
    requires
        state.well_formed(),
        state.phase.is_installing(),
    ensures
        ({
            let next = state.step(event);
            let succeeded = state.phase is Running && event == (EventView::CommandFinished {
                success: true,
            });
            &&& next.entries == state.entries
            &&& succeeded ==> next.cursor == state.cursor + 1
            &&& !succeeded ==> next.cursor == state.cursor
            &&& next.progress.position == next.cursor
            &&& next.progress.total == state.entries.len()
        }),
{
}

/// The progress only records. Two states that differ in nothing but what
/// they show the user ask for the same action, and the same event takes them
/// to states that ask for the same action again.
pub proof fn progress_decides_nothing(state: SessionView, shown: ProgressView, event: EventView)
    ensures
        ({
            let other = SessionView { progress: shown, ..state };
            &&& other.pending() == state.pending()
            &&& other.step(event).phase == state.step(event).phase
            &&& other.step(event).path == state.step(event).path
            &&& other.step(event).entries == state.step(event).entries
            &&& other.step(event).cursor == state.step(event).cursor
            &&& other.step(event).pending() == state.step(event).pending()
        }),
{
}

/// A command is pending exactly while a dependency is being installed. Before
/// the manifest is loaded, and after the run has ended, nothing is installed.
pub proof fn commands_run_only_while_installing(state: SessionView)
    ensures
        state.pending() is Run <==> state.phase is Running,
{
}

/// A run that has ended stays as it is, whatever is reported to it.
pub proof fn ended_run_stays(state: SessionView, events: Seq<EventView>)
    requires
        state.phase.is_final(),
    ensures
        state.run(events) == state,
    decreases events.len(),
{
    if events.len() > 0 {
        ended_run_stays(state, events.drop_first());
    }
}

/// Where the fast-path tool is missing, no fast-path command is run: the
/// canonical command for the same dependency is pending at once. Where the
/// tool is there, the fast-path command is.
pub proof fn missing_tool_falls_back(state: SessionView, available: bool)
    requires
        state.phase is Probing,
    ensures
        state.step(EventView::ToolProbed { available }).pending() == (ActionView::Run {
            command: command_for(first_attempt_spec(available), state.current()),
            output: state.output,
        }),
        !available ==> first_attempt_spec(available) == CommandKind::CargoInstall,
        available ==> first_attempt_spec(available) == CommandKind::Binstall,
{
}

/// Where the fast-path command fails, the canonical command is pending for
/// the same dependency, with the same target and the same arguments.
pub proof fn failed_fast_path_falls_back(state: SessionView)
    requires
        state.phase == Phase::Running(CommandKind::Binstall),
    ensures
        ({
            let next = state.step(EventView::CommandFinished { success: false });
            let fast = command_for(CommandKind::Binstall, state.current());
            let canonical = command_for(CommandKind::CargoInstall, state.current());
            &&& state.pending() == (ActionView::Run { command: fast, output: state.output })
            &&& next.pending() == (ActionView::Run { command: canonical, output: state.output })
            &&& next.cursor == state.cursor
            &&& canonical.name == fast.name
            &&& canonical.args == fast.args
        }),
{
}

/// No attempt is repeated. The only command that follows another for the
/// same dependency is the canonical one, after the fast path has failed.
pub proof fn no_attempt_is_repeated(state: SessionView, kind: CommandKind, success: bool)
    requires
        state.well_formed(),
        state.phase == Phase::Running(kind),
    ensures
        ({
            let next = state.step(EventView::CommandFinished { success });
            next.phase is Running ==> {
                &&& !success
                &&& kind == CommandKind::Binstall
                &&& next.phase == Phase::Running(CommandKind::CargoInstall)
                &&& next.cursor == state.cursor
            }
        }),
{
}

/// Where the canonical command fails too, the run has failed on that
/// dependency. Whatever is reported afterwards, it stays there: the failure is
/// pending, no further dependency is worked on, and the count of installed
/// dependencies stands.
pub proof fn double_failure_ends_run(state: SessionView, events: Seq<EventView>)
    requires
        state.phase == Phase::Running(CommandKind::CargoInstall),
    ensures
        ({
            let failed = state.step(EventView::CommandFinished { success: false });
            &&& failed.phase is InstallFailed
            &&& failed.cursor == state.cursor
            &&& failed.progress == state.progress
            &&& failed.run(events) == failed
            &&& failed.pending() == (ActionView::Fail {
                error: RunErrorView::InstallFailure {
                    name: target_name(state.current().name, state.current().dependency),
                },
            })
        }),
{
    ended_run_stays(state.step(EventView::CommandFinished { success: false }), events);
}

/// A path that names a directory stands for the manifest file inside it: the
/// file of that name in the directory is the one that is looked for and, where
/// it exists, loaded. A path that names no directory is looked for and loaded
/// as it is.
pub proof fn directory_stands_for_its_manifest(state: SessionView, is_dir: bool)
    requires
        state.phase is Locating,
    ensures
        ({
            let located = state.step(EventView::PathInspected { is_dir });
            let found = located.step(EventView::ExistenceChecked { exists: true });
            let expected = if !is_dir {
                state.path
            } else if state.path.len() > 0 && state.path.last() != '/' {
                state.path + seq!['/'] + MANIFEST_FILE_NAME@
            } else {
                state.path + MANIFEST_FILE_NAME@
            };
            &&& located.pending() == (ActionView::CheckExists { path: expected })
            &&& found.pending() == (ActionView::LoadManifest { path: expected })
        }),
{
}

/// Where there is no file at the path of the manifest, the run has failed
/// before anything was loaded. Whatever is reported afterwards, the failure
/// is pending and no command is.
pub proof fn missing_manifest_ends_run(state: SessionView, events: Seq<EventView>)
    requires
        state.phase is Checking,
    ensures
        ({
            let failed = state.step(EventView::ExistenceChecked { exists: false });
            &&& failed.run(events) == failed
            &&& failed.entries == state.entries
            &&& failed.pending() == (ActionView::Fail {
                error: RunErrorView::ManifestNotFound { path: state.path },
            })
        }),
{
    ended_run_stays(state.step(EventView::ExistenceChecked { exists: false }), events);
}

/// Where the manifest cannot be parsed, the run has failed before anything
/// was loaded, and stays so.
pub proof fn unparsable_manifest_ends_run(state: SessionView, events: Seq<EventView>)
    requires
        state.phase is Loading,
    ensures
        ({
            let failed = state.step(EventView::ManifestRejected);
            &&& failed.run(events) == failed
            &&& failed.entries == state.entries
            &&& failed.pending() == (ActionView::Fail {
                error: RunErrorView::ManifestParseError { path: state.path },
            })
        }),
{
    ended_run_stays(state.step(EventView::ManifestRejected), events);
}

/// A run that meets no failure installs each remaining dependency with one
/// command and finishes. From the state in which the work on a dependency
/// begins, with `count` dependencies left: the caller looks for the tool and
/// runs one command for each of them in the order of their keys, on the fast
/// path where the tool is there and on the canonical path where it is not,
/// and no other command; at the end the run has finished and every
/// dependency is counted.
pub proof fn untroubled_run_installs_each_once(
    state: SessionView,
    tool_available: bool,
    count: nat,
)
    requires
        state.well_formed(),
        state.phase is Probing,
        count == state.entries.len() - state.cursor,
    ensures
        ({
            let events = untroubled(tool_available, count);
            let end = state.run(events);
            let actions = state.actions(events);
            &&& end.phase is Finished
            &&& end.entries == state.entries
            &&& end.progress.position == state.entries.len()
            &&& end.progress.finished
            &&& ascending(state.entries)
            &&& actions.len() == 2 * count
            &&& forall|j: int|
                0 <= j < count ==> {
                    &&& #[trigger] actions[2 * j] == (ActionView::ProbeTool {
                        tool: FAST_PATH_TOOL@,
                    })
                    &&& actions[2 * j + 1] == (ActionView::Run {
                        command: command_for(
                            first_attempt_spec(tool_available),
                            state.entries[state.cursor + j],
                        ),
                        output: state.output,
                    })
                }
        }),
    decreases count,
{
    let events = untroubled(tool_available, count);
    let rest = untroubled(tool_available, (count - 1) as nat);
    let next = state.installed();
    lemma_untroubled_pair(state, tool_available, events);
    assert(events.skip(2) =~= rest);
    if count > 1 {
        untroubled_run_installs_each_once(next, tool_available, (count - 1) as nat);
        let actions = state.actions(events);
        let later = next.actions(rest);
        assert forall|j: int| 0 <= j < count implies {
            &&& #[trigger] actions[2 * j] == (ActionView::ProbeTool { tool: FAST_PATH_TOOL@ })
            &&& actions[2 * j + 1] == (ActionView::Run {
                command: command_for(
                    first_attempt_spec(tool_available),
                    state.entries[state.cursor + j],
                ),
                output: state.output,
            })
        } by {
            if j > 0 {
                assert(actions[2 * j] == later[2 * (j - 1)]);
                assert(actions[2 * j + 1] == later[2 * (j - 1) + 1]);
            }
        }
    } else {
        assert(rest =~= Seq::empty());
    }
}

/// Where the tool is looked for and the one command succeeds, the dependency
/// at work is installed: two events, two actions, and the run stands at the
/// next dependency.
proof fn lemma_untroubled_pair(state: SessionView, tool_available: bool, events: Seq<EventView>)
    requires
        state.well_formed(),
        state.phase is Probing,
        events.len() >= 2,
        events[0] == (EventView::ToolProbed { available: tool_available }),
        events[1] == (EventView::CommandFinished { success: true }),
    ensures
        state.run(events) == state.installed().run(events.skip(2)),
        state.actions(events) == seq![
            ActionView::ProbeTool { tool: FAST_PATH_TOOL@ },
            ActionView::Run {
                command: command_for(first_attempt_spec(tool_available), state.current()),
                output: state.output,
            },
        ] + state.installed().actions(events.skip(2)),
        state.installed().well_formed(),
        state.installed().entries == state.entries,
        state.installed().output == state.output,
        state.installed().cursor == state.cursor + 1,
        state.installed().phase is Probing || state.installed().phase is Finished,
        state.installed().phase is Probing <==> state.cursor + 1 < state.entries.len(),
{
    let probed = state.step(events[0]);
    let next = probed.step(events[1]);
    let tail = events.drop_first();
    assert(next == state.installed());
    assert(tail.first() == events[1]);
    assert(tail.drop_first() =~= events.skip(2));
    assert(state.run(events) == probed.run(tail));
    assert(probed.run(tail) == next.run(events.skip(2)));
    assert(state.actions(events) == seq![state.pending()] + probed.actions(tail));
    assert(probed.actions(tail) == seq![probed.pending()] + next.actions(events.skip(2)));
    assert(state.actions(events) =~= seq![state.pending(), probed.pending()] + next.actions(
        events.skip(2),
    ));
}

} // verus!
