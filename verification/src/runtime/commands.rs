//! The lifecycle commands of the runtime, as a machine that decides and asks.
//!
//! A command runs as a session. `execute` opens it and names the first thing
//! to do in the outside world (look at a path, read or write a state, ...);
//! the caller does it and hands the outcome back to `Session::step`, which
//! names the next thing, until the action is `Finish` with the command's
//! result.
use vstd::prelude::*;
use vstd::string::*;
use crate::runtime::cli::{Command, CommandView, command_id};
use crate::runtime::spec::{LaunchPlan, PlanView, RuntimeSpec, SpecView, launch_plan};
use crate::runtime::state::{
    ContainerState, StateView, Status, StateManager, container_dir_path, state_file_path,
    pidfile_path,
};
use crate::text::{path_join, spec_path_join};
use vstd::pervasive::unreached;

verus! {

/// Why a lifecycle command failed.
#[derive(Debug)]
pub enum CommandError {
    BundleNotFound(String),
    ConfigNotFound(String),
    InvalidSpec(String),
    Canonicalize(String),
    NotFound(String),
    NotCreated(String),
    NotRunning(String),
    NotPaused(String),
    NoProcess(String),
    Io(String),
}

/// The mathematical model of a command failure.
pub enum CommandErrorView {
    BundleNotFound(Seq<char>),
    ConfigNotFound(Seq<char>),
    InvalidSpec(Seq<char>),
    Canonicalize(Seq<char>),
    NotFound(Seq<char>),
    NotCreated(Seq<char>),
    NotRunning(Seq<char>),
    NotPaused(Seq<char>),
    NoProcess(Seq<char>),
    Io(Seq<char>),
}

impl View for CommandError {
    type V = CommandErrorView;

    open spec fn view(&self) -> CommandErrorView {
        match self {
            CommandError::BundleNotFound(s) => CommandErrorView::BundleNotFound(s@),
            CommandError::ConfigNotFound(s) => CommandErrorView::ConfigNotFound(s@),
            CommandError::InvalidSpec(s) => CommandErrorView::InvalidSpec(s@),
            CommandError::Canonicalize(s) => CommandErrorView::Canonicalize(s@),
            CommandError::NotFound(s) => CommandErrorView::NotFound(s@),
            CommandError::NotCreated(s) => CommandErrorView::NotCreated(s@),
            CommandError::NotRunning(s) => CommandErrorView::NotRunning(s@),
            CommandError::NotPaused(s) => CommandErrorView::NotPaused(s@),
            CommandError::NoProcess(s) => CommandErrorView::NoProcess(s@),
            CommandError::Io(s) => CommandErrorView::Io(s@),
        }
    }
}

/// The text that reports a command failure.
pub open spec fn command_error_text(e: CommandErrorView) -> Seq<char> {
    match e {
        CommandErrorView::BundleNotFound(b) => "bundle does not exist: "@ + b,
        CommandErrorView::ConfigNotFound(b) => "config.json not found in bundle: "@ + b,
        CommandErrorView::InvalidSpec(_) => "failed to load config.json"@,
        CommandErrorView::Canonicalize(m) => "failed to canonicalize bundle path: "@ + m,
        CommandErrorView::NotFound(id) => "container "@ + id + " does not exist"@,
        CommandErrorView::NotCreated(id) => "container "@ + id + " is not in created state"@,
        CommandErrorView::NotRunning(id) => "container "@ + id + " is not running"@,
        CommandErrorView::NotPaused(id) => "container "@ + id + " is not paused"@,
        CommandErrorView::NoProcess(id) => "container "@ + id + " has no active process"@,
        CommandErrorView::Io(m) => m,
    }
}

fn phrase(prefix: &str, middle: &str, suffix: &str) -> (r: String)
    ensures
        r@ == prefix@ + middle@ + suffix@,
{
    let mut r = String::from_str(prefix);
    r.append(middle);
    r.append(suffix);
    r
}

impl CommandError {
    pub fn message(&self) -> (r: String)
        ensures
            r@ == command_error_text(self@),
    {
        proof {
            reveal_strlit("");
        }
        match self {
            CommandError::BundleNotFound(b) => phrase("bundle does not exist: ", b.as_str(), ""),
            CommandError::ConfigNotFound(b) => phrase(
                "config.json not found in bundle: ",
                b.as_str(),
                "",
            ),
            CommandError::InvalidSpec(_) => String::from_str("failed to load config.json"),
            CommandError::Canonicalize(m) => phrase(
                "failed to canonicalize bundle path: ",
                m.as_str(),
                "",
            ),
            CommandError::NotFound(id) => phrase("container ", id.as_str(), " does not exist"),
            CommandError::NotCreated(id) => phrase(
                "container ",
                id.as_str(),
                " is not in created state",
            ),
            CommandError::NotRunning(id) => phrase("container ", id.as_str(), " is not running"),
            CommandError::NotPaused(id) => phrase("container ", id.as_str(), " is not paused"),
            CommandError::NoProcess(id) => phrase(
                "container ",
                id.as_str(),
                " has no active process",
            ),
            CommandError::Io(m) => m.clone(),
        }
    }
}

/// What a command that succeeded reports.
#[derive(Debug)]
pub enum Report {
    Created,
    Started,
    State(ContainerState),
    Killed,
    Deleted,
    Paused,
    Resumed,
}

/// The mathematical model of a report.
pub enum ReportView {
    Created,
    Started,
    State(StateView),
    Killed,
    Deleted,
    Paused,
    Resumed,
}

impl View for Report {
    type V = ReportView;

    open spec fn view(&self) -> ReportView {
        match self {
            Report::Created => ReportView::Created,
            Report::Started => ReportView::Started,
            Report::State(s) => ReportView::State(s@),
            Report::Killed => ReportView::Killed,
            Report::Deleted => ReportView::Deleted,
            Report::Paused => ReportView::Paused,
            Report::Resumed => ReportView::Resumed,
        }
    }
}

/// The line printed for a report; a state is printed as its JSON record instead.
pub open spec fn report_text(r: ReportView) -> Option<Seq<char>> {
    match r {
        ReportView::Created => Some("created"@),
        ReportView::Started => Some("started"@),
        ReportView::State(_) => None,
        ReportView::Killed => Some("killed"@),
        ReportView::Deleted => Some("deleted"@),
        ReportView::Paused => Some("paused"@),
        ReportView::Resumed => Some("resumed"@),
    }
}

impl Report {
    pub fn message(&self) -> (r: Option<&'static str>)
        ensures
            match report_text(self@) {
                Some(t) => (r matches Some(s) && s@ == t),
                None => r is None,
            },
    {
        match self {
            Report::Created => Some("created"),
            Report::Started => Some("started"),
            Report::State(_) => None,
            Report::Killed => Some("killed"),
            Report::Deleted => Some("deleted"),
            Report::Paused => Some("paused"),
            Report::Resumed => Some("resumed"),
        }
    }
}

/// What the session asks the outside world to do next.
#[derive(Debug)]
pub enum Action {
    /// Tell whether the path exists.
    CheckPath(String),
    /// Read the recorded state of the container with this id.
    LoadState(String),
    /// Read and check the runtime spec of the bundle in this directory.
    LoadSpec(String),
    /// Resolve this path to its canonical absolute form.
    Canonicalize(String),
    /// Start the container's process in new namespaces as the plan says, and
    /// tell its id.
    Spawn(LaunchPlan),
    /// Record this state for its container.
    Save(ContainerState),
    /// Write the pid into the file at this path.
    WritePidfile(String, u32),
    /// Wait until the process with this id has ended.
    WaitChild(u32),
    /// Remove this directory, if it exists, with all it holds.
    RemoveDir(String),
    /// The command is over, with this result.
    Finish(Result<Report, CommandError>),
}

/// The mathematical model of an action.
pub enum ActionView {
    CheckPath(Seq<char>),
    LoadState(Seq<char>),
    LoadSpec(Seq<char>),
    Canonicalize(Seq<char>),
    Spawn(PlanView),
    Save(StateView),
    WritePidfile(Seq<char>, u32),
    WaitChild(u32),
    RemoveDir(Seq<char>),
    Finish(Result<ReportView, CommandErrorView>),
}

impl View for Action {
    type V = ActionView;

    open spec fn view(&self) -> ActionView {
        match self {
            Action::CheckPath(p) => ActionView::CheckPath(p@),
            Action::LoadState(id) => ActionView::LoadState(id@),
            Action::LoadSpec(b) => ActionView::LoadSpec(b@),
            Action::Canonicalize(p) => ActionView::Canonicalize(p@),
            Action::Spawn(plan) => ActionView::Spawn(plan@),
            Action::Save(s) => ActionView::Save(s@),
            Action::WritePidfile(p, pid) => ActionView::WritePidfile(p@, *pid),
            Action::WaitChild(pid) => ActionView::WaitChild(*pid),
            Action::RemoveDir(p) => ActionView::RemoveDir(p@),
            Action::Finish(r) => ActionView::Finish(
                match r {
                    Ok(rep) => Ok(rep@),
                    Err(e) => Err(e@),
                },
            ),
        }
    }
}

/// What the outside world answers to an action.
#[derive(Debug)]
pub enum Event {
    /// Whether the path asked about exists.
    Exists(bool),
    /// The recorded state that was read.
    Loaded(ContainerState),
    /// The runtime spec that was read.
    SpecLoaded(RuntimeSpec),
    /// The action was carried out.
    Done,
    /// The canonical form of the path.
    Canonical(String),
    /// The id of the process that was started.
    Pid(u32),
    /// The action failed, for this reason.
    Failed(String),
}

/// The mathematical model of an event.
pub enum EventView {
    Exists(bool),
    Loaded(StateView),
    SpecLoaded(SpecView),
    Done,
    Canonical(Seq<char>),
    Pid(u32),
    Failed(Seq<char>),
}

impl View for Event {
    type V = EventView;

    open spec fn view(&self) -> EventView {
        match self {
            Event::Exists(b) => EventView::Exists(*b),
            Event::Loaded(s) => EventView::Loaded(s@),
            Event::SpecLoaded(spec) => EventView::SpecLoaded(spec@),
            Event::Done => EventView::Done,
            Event::Canonical(p) => EventView::Canonical(p@),
            Event::Pid(p) => EventView::Pid(*p),
            Event::Failed(m) => EventView::Failed(m@),
        }
    }
}

/// Where a session stands: what it waits for.
#[derive(Debug)]
pub enum Phase {
    CheckingBundle,
    CheckingConfig,
    LoadingSpec,
    Canonicalizing,
    CheckingState,
    LoadingState,
    LoadingLaunchSpec(ContainerState),
    Spawning(ContainerState),
    SavingRunning(ContainerState),
    WritingPidfile(ContainerState),
    Waiting(ContainerState),
    Saving,
    Removing,
    Finished,
}

/// The mathematical model of a phase.
pub enum PhaseView {
    CheckingBundle,
    CheckingConfig,
    LoadingSpec,
    Canonicalizing,
    CheckingState,
    LoadingState,
    LoadingLaunchSpec(StateView),
    Spawning(StateView),
    SavingRunning(StateView),
    WritingPidfile(StateView),
    Waiting(StateView),
    Saving,
    Removing,
    Finished,
}

impl View for Phase {
    type V = PhaseView;

    open spec fn view(&self) -> PhaseView {
        match self {
            Phase::CheckingBundle => PhaseView::CheckingBundle,
            Phase::CheckingConfig => PhaseView::CheckingConfig,
            Phase::LoadingSpec => PhaseView::LoadingSpec,
            Phase::Canonicalizing => PhaseView::Canonicalizing,
            Phase::CheckingState => PhaseView::CheckingState,
            Phase::LoadingState => PhaseView::LoadingState,
            Phase::LoadingLaunchSpec(s) => PhaseView::LoadingLaunchSpec(s@),
            Phase::Spawning(s) => PhaseView::Spawning(s@),
            Phase::SavingRunning(s) => PhaseView::SavingRunning(s@),
            Phase::WritingPidfile(s) => PhaseView::WritingPidfile(s@),
            Phase::Waiting(s) => PhaseView::Waiting(s@),
            Phase::Saving => PhaseView::Saving,
            Phase::Removing => PhaseView::Removing,
            Phase::Finished => PhaseView::Finished,
        }
    }
}

/// The mathematical model of a session.
pub struct SessionView {
    pub command: CommandView,
    pub phase: PhaseView,
}

/// The phases that a command can be in.
pub open spec fn phase_fits(c: CommandView, p: PhaseView) -> bool {
    match p {
        PhaseView::CheckingBundle => c is Create,
        PhaseView::CheckingConfig => c is Create,
        PhaseView::LoadingSpec => c is Create,
        PhaseView::Canonicalizing => c is Create,
        PhaseView::CheckingState => !(c is Create),
        PhaseView::LoadingState => !(c is Create) && !(c is Delete),
        PhaseView::LoadingLaunchSpec(s) => c is Start && s.status == Status::Created,
        PhaseView::Spawning(s) => c is Start && s.status == Status::Created,
        PhaseView::SavingRunning(s) => c is Start && s.status == Status::Running,
        PhaseView::WritingPidfile(s) => c is Start && s.status == Status::Running,
        PhaseView::Waiting(s) => c is Start && s.status == Status::Running,
        PhaseView::Saving => c is Create || c is Start || c is Pause || c is Resume,
        PhaseView::Removing => c is Delete,
        PhaseView::Finished => true,
    }
}

/// The answers that a phase waits for; a failure may end any phase.
pub open spec fn event_fits(p: PhaseView, e: EventView) -> bool {
    match e {
        EventView::Failed(_) => !(p is Finished),
        EventView::Exists(_) => p is CheckingBundle || p is CheckingConfig || p is CheckingState,
        EventView::Loaded(_) => p is LoadingState,
        EventView::SpecLoaded(_) => p is LoadingSpec || p is LoadingLaunchSpec,
        EventView::Done => p is SavingRunning || p is WritingPidfile || p is Waiting || p is Saving
            || p is Removing,
        EventView::Canonical(_) => p is Canonicalizing,
        EventView::Pid(_) => p is Spawning,
    }
}

/// The state that `create` records.
pub open spec fn created_state(id: Seq<char>, bundle: Seq<char>) -> StateView {
    StateView {
        version: "1.0.2"@,
        id: id,
        status: Status::Created,
        pid: 0,
        bundle: bundle,
        annotations: Seq::empty(),
    }
}

/// A state with its status replaced.
pub open spec fn with_status(s: StateView, status: Status) -> StateView {
    StateView { status: status, ..s }
}

/// The state that `start` records once the process runs: running, under it.
pub open spec fn started_state(s: StateView, pid: u32) -> StateView {
    StateView { status: Status::Running, pid: pid, ..s }
}

/// The failure that ends a phase whose action failed.
pub open spec fn failure_error(p: PhaseView, m: Seq<char>) -> CommandErrorView {
    match p {
        PhaseView::LoadingSpec => CommandErrorView::InvalidSpec(m),
        PhaseView::LoadingLaunchSpec(_) => CommandErrorView::InvalidSpec(m),
        PhaseView::Canonicalizing => CommandErrorView::Canonicalize(m),
        _ => CommandErrorView::Io(m),
    }
}

/// Ends a session with an error.
pub open spec fn fail(c: CommandView, e: CommandErrorView) -> (SessionView, ActionView) {
    (SessionView { command: c, phase: PhaseView::Finished }, ActionView::Finish(Err(e)))
}

/// Ends a session with a report.
pub open spec fn succeed(c: CommandView, r: ReportView) -> (SessionView, ActionView) {
    (SessionView { command: c, phase: PhaseView::Finished }, ActionView::Finish(Ok(r)))
}

/// Moves a session to a phase, asking for an action.
pub open spec fn ask(c: CommandView, p: PhaseView, a: ActionView) -> (SessionView, ActionView) {
    (SessionView { command: c, phase: p }, a)
}

/// How a command begins.
pub open spec fn spec_execute(c: CommandView) -> (SessionView, ActionView) {
    match c {
        CommandView::Create { bundle, .. } => ask(
            c,
            PhaseView::CheckingBundle,
            ActionView::CheckPath(bundle),
        ),
        _ => ask(c, PhaseView::CheckingState, ActionView::CheckPath(state_file_path(command_id(c)))),
    }
}

/// How a session goes on from an answer.
pub open spec fn spec_step(s: SessionView, e: EventView) -> (SessionView, ActionView) {
    let c = s.command;
    let id = command_id(c);
    match e {
        EventView::Failed(m) => fail(c, failure_error(s.phase, m)),
        _ => match s.phase {
            PhaseView::CheckingBundle => {
                let bundle = c->Create_bundle;
                if e == EventView::Exists(true) {
                    ask(
                        c,
                        PhaseView::CheckingConfig,
                        ActionView::CheckPath(spec_path_join(bundle, "config.json"@)),
                    )
                } else {
                    fail(c, CommandErrorView::BundleNotFound(bundle))
                }
            },
            PhaseView::CheckingConfig => {
                let bundle = c->Create_bundle;
                if e == EventView::Exists(true) {
                    ask(c, PhaseView::LoadingSpec, ActionView::LoadSpec(bundle))
                } else {
                    fail(c, CommandErrorView::ConfigNotFound(bundle))
                }
            },
            PhaseView::LoadingSpec => ask(
                c,
                PhaseView::Canonicalizing,
                ActionView::Canonicalize(c->Create_bundle),
            ),
            PhaseView::Canonicalizing => ask(
                c,
                PhaseView::Saving,
                ActionView::Save(created_state(id, e->Canonical_0)),
            ),
            PhaseView::CheckingState => {
                if e == EventView::Exists(true) {
                    if c is Delete {
                        ask(c, PhaseView::Removing, ActionView::RemoveDir(container_dir_path(id)))
                    } else {
                        ask(c, PhaseView::LoadingState, ActionView::LoadState(id))
                    }
                } else {
                    fail(c, CommandErrorView::NotFound(id))
                }
            },
            PhaseView::LoadingState => {
                let st = e->Loaded_0;
                match c {
                    CommandView::Start { .. } => if st.status == Status::Created {
                        ask(c, PhaseView::LoadingLaunchSpec(st), ActionView::LoadSpec(st.bundle))
                    } else {
                        fail(c, CommandErrorView::NotCreated(id))
                    },
                    CommandView::Kill { .. } => if st.pid == 0 {
                        fail(c, CommandErrorView::NoProcess(id))
                    } else {
                        succeed(c, ReportView::Killed)
                    },
                    CommandView::Pause { .. } => if st.status == Status::Running {
                        ask(c, PhaseView::Saving, ActionView::Save(with_status(st, Status::Paused)))
                    } else {
                        fail(c, CommandErrorView::NotRunning(id))
                    },
                    CommandView::Resume { .. } => if st.status == Status::Paused {
                        ask(
                            c,
                            PhaseView::Saving,
                            ActionView::Save(with_status(st, Status::Running)),
                        )
                    } else {
                        fail(c, CommandErrorView::NotPaused(id))
                    },
                    _ => succeed(c, ReportView::State(st)),
                }
            },
            PhaseView::LoadingLaunchSpec(st) => ask(
                c,
                PhaseView::Spawning(st),
                ActionView::Spawn(launch_plan(st.bundle, e->SpecLoaded_0)),
            ),
            PhaseView::Spawning(st) => {
                let run = started_state(st, e->Pid_0);
                ask(c, PhaseView::SavingRunning(run), ActionView::Save(run))
            },
            PhaseView::SavingRunning(run) => ask(
                c,
                PhaseView::WritingPidfile(run),
                ActionView::WritePidfile(pidfile_path(id), run.pid),
            ),
            PhaseView::WritingPidfile(run) => ask(
                c,
                PhaseView::Waiting(run),
                ActionView::WaitChild(run.pid),
            ),
            PhaseView::Waiting(run) => ask(
                c,
                PhaseView::Saving,
                ActionView::Save(with_status(run, Status::Stopped)),
            ),
            PhaseView::Saving => match c {
                CommandView::Create { .. } => succeed(c, ReportView::Created),
                CommandView::Start { .. } => succeed(c, ReportView::Started),
                CommandView::Pause { .. } => succeed(c, ReportView::Paused),
                _ => succeed(c, ReportView::Resumed),
            },
            PhaseView::Removing => succeed(c, ReportView::Deleted),
            PhaseView::Finished => fail(c, CommandErrorView::Io(Seq::empty())),
        },
    }
}

/// A command on its way through its phases.
#[derive(Debug)]
pub struct Session {
    command: Command,
    phase: Phase,
}

impl View for Session {
    type V = SessionView;

    closed spec fn view(&self) -> SessionView {
        SessionView { command: self.command@, phase: self.phase@ }
    }
}

/// The model of a command's result.
pub open spec fn outcome_view(r: Result<Report, CommandError>) -> Result<ReportView, CommandErrorView> {
    match r {
        Ok(rep) => Ok(rep@),
        Err(e) => Err(e@),
    }
}

fn bundle_of(c: &Command) -> (r: &String)
    requires
        c@ is Create,
    ensures
        r@ == c@->Create_bundle,
{
    match c {
        Command::Create { bundle, .. } => bundle,
        _ => unreached(),
    }
}

impl Session {
    /// A session is only ever in a phase that its command goes through.
    #[verifier::type_invariant]
    spec fn well_formed(self) -> bool {
        phase_fits(self.command@, self.phase@)
    }

    fn finish(command: Command, result: Result<Report, CommandError>) -> (r: (Session, Action))
        ensures
            r.0@ == (SessionView { command: command@, phase: PhaseView::Finished }),
            r.1@ == ActionView::Finish(outcome_view(result)),
    {
        (Session { command, phase: Phase::Finished }, Action::Finish(result))
    }

    /// The command that the session carries out.
    pub fn command(&self) -> (r: &Command)
        ensures
            r@ == self@.command,
    {
        &self.command
    }

    /// Whether the command is over.
    pub fn is_finished(&self) -> (r: bool)
        ensures
            r == (self@.phase is Finished),
    {
        match self.phase {
            Phase::Finished => true,
            _ => false,
        }
    }

    /// Whether the session waits for an answer of this kind.
    pub fn accepts(&self, event: &Event) -> (r: bool)
        ensures
            r == event_fits(self@.phase, event@),
    {
        match event {
            Event::Failed(_) => !self.is_finished(),
            Event::Exists(_) => match self.phase {
                Phase::CheckingBundle | Phase::CheckingConfig | Phase::CheckingState => true,
                _ => false,
            },
            Event::Loaded(_) => match self.phase {
                Phase::LoadingState => true,
                _ => false,
            },
            Event::SpecLoaded(_) => match self.phase {
                Phase::LoadingSpec | Phase::LoadingLaunchSpec(_) => true,
                _ => false,
            },
            Event::Done => match self.phase {
                Phase::SavingRunning(_) | Phase::WritingPidfile(_) | Phase::Waiting(_)
                | Phase::Saving | Phase::Removing => true,
                _ => false,
            },
            Event::Canonical(_) => match self.phase {
                Phase::Canonicalizing => true,
                _ => false,
            },
            Event::Pid(_) => match self.phase {
                Phase::Spawning(_) => true,
                _ => false,
            },
        }
    }

    /// Goes on from the answer to the last action.
    pub fn step(self, event: Event) -> (r: (Session, Action))
        requires
            event_fits(self@.phase, event@),
        ensures
            (r.0@, r.1@) == spec_step(self@, event@),
            phase_fits(r.0@.command, r.0@.phase),
    {
        proof {
            use_type_invariant(&self);
        }
        let Session { command, phase } = self;
        match event {
            Event::Failed(m) => {
                let err = match phase {
                    Phase::LoadingSpec => CommandError::InvalidSpec(m),
                    Phase::LoadingLaunchSpec(_) => CommandError::InvalidSpec(m),
                    Phase::Canonicalizing => CommandError::Canonicalize(m),
                    _ => CommandError::Io(m),
                };
                Self::finish(command, Err(err))
            },
            Event::Exists(found) => match phase {
                Phase::CheckingBundle => {
                    let bundle = bundle_of(&command);
                    if found {
                        let p = path_join(bundle.as_str(), "config.json");
                        (Session { command, phase: Phase::CheckingConfig }, Action::CheckPath(p))
                    } else {
                        let b = bundle.clone();
                        Self::finish(command, Err(CommandError::BundleNotFound(b)))
                    }
                },
                Phase::CheckingConfig => {
                    let b = bundle_of(&command).clone();
                    if found {
                        (Session { command, phase: Phase::LoadingSpec }, Action::LoadSpec(b))
                    } else {
                        Self::finish(command, Err(CommandError::ConfigNotFound(b)))
                    }
                },
                Phase::CheckingState => {
                    let id = command.id().clone();
                    if found {
                        let is_delete = match command {
                            Command::Delete { .. } => true,
                            _ => false,
                        };
                        if is_delete {
                            let dir = StateManager::container_dir(id.as_str());
                            (Session { command, phase: Phase::Removing }, Action::RemoveDir(dir))
                        } else {
                            (Session { command, phase: Phase::LoadingState }, Action::LoadState(id))
                        }
                    } else {
                        Self::finish(command, Err(CommandError::NotFound(id)))
                    }
                },
                _ => unreached(),
            },
            Event::Loaded(st) => match phase {
                Phase::LoadingState => {
                    let id = command.id().clone();
                    match command {
                        Command::Start { .. } => {
                            if st.status == Status::Created {
                                let bundle = st.bundle.clone();
                                (
                                    Session { command, phase: Phase::LoadingLaunchSpec(st) },
                                    Action::LoadSpec(bundle),
                                )
                            } else {
                                Self::finish(command, Err(CommandError::NotCreated(id)))
                            }
                        },
                        Command::Kill { .. } => {
                            if st.pid == 0 {
                                Self::finish(command, Err(CommandError::NoProcess(id)))
                            } else {
                                Self::finish(command, Ok(Report::Killed))
                            }
                        },
                        Command::Pause { .. } => {
                            if st.status == Status::Running {
                                let mut next = st;
                                next.status = Status::Paused;
                                (Session { command, phase: Phase::Saving }, Action::Save(next))
                            } else {
                                Self::finish(command, Err(CommandError::NotRunning(id)))
                            }
                        },
                        Command::Resume { .. } => {
                            if st.status == Status::Paused {
                                let mut next = st;
                                next.status = Status::Running;
                                (Session { command, phase: Phase::Saving }, Action::Save(next))
                            } else {
                                Self::finish(command, Err(CommandError::NotPaused(id)))
                            }
                        },
                        _ => Self::finish(command, Ok(Report::State(st))),
                    }
                },
                _ => unreached(),
            },
            Event::SpecLoaded(spec) => match phase {
                Phase::LoadingSpec => {
                    let b = bundle_of(&command).clone();
                    (Session { command, phase: Phase::Canonicalizing }, Action::Canonicalize(b))
                },
                Phase::LoadingLaunchSpec(st) => {
                    let plan = LaunchPlan::from_spec(st.bundle.as_str(), &spec);
                    (Session { command, phase: Phase::Spawning(st) }, Action::Spawn(plan))
                },
                _ => unreached(),
            },
            Event::Canonical(path) => match phase {
                Phase::Canonicalizing => {
                    let id = command.id().clone();
                    let st = ContainerState {
                        version: String::from_str("1.0.2"),
                        id,
                        status: Status::Created,
                        pid: 0,
                        bundle: path,
                        annotations: Vec::new(),
                    };
                    assert(st.annotations.deep_view() =~= Seq::<(Seq<char>, Seq<char>)>::empty());
                    (Session { command, phase: Phase::Saving }, Action::Save(st))
                },
                _ => unreached(),
            },
            Event::Pid(pid) => match phase {
                Phase::Spawning(st) => {
                    let mut run = st;
                    run.status = Status::Running;
                    run.pid = pid;
                    let saved = run.duplicate();
                    (Session { command, phase: Phase::SavingRunning(run) }, Action::Save(saved))
                },
                _ => unreached(),
            },
            Event::Done => match phase {
                Phase::SavingRunning(run) => {
                    let p = StateManager::pidfile(command.id().as_str());
                    let pid = run.pid;
                    (
                        Session { command, phase: Phase::WritingPidfile(run) },
                        Action::WritePidfile(p, pid),
                    )
                },
                Phase::WritingPidfile(run) => {
                    let pid = run.pid;
                    (Session { command, phase: Phase::Waiting(run) }, Action::WaitChild(pid))
                },
                Phase::Waiting(run) => {
                    let mut stopped = run;
                    stopped.status = Status::Stopped;
                    (Session { command, phase: Phase::Saving }, Action::Save(stopped))
                },
                Phase::Saving => match command {
                    Command::Create { .. } => Self::finish(command, Ok(Report::Created)),
                    Command::Start { .. } => Self::finish(command, Ok(Report::Started)),
                    Command::Pause { .. } => Self::finish(command, Ok(Report::Paused)),
                    _ => Self::finish(command, Ok(Report::Resumed)),
                },
                Phase::Removing => Self::finish(command, Ok(Report::Deleted)),
                _ => unreached(),
            },
        }
    }
}

/// Begins carrying out a command: the session and its first action.
pub fn execute(cmd: Command) -> (r: (Session, Action))
    ensures
        (r.0@, r.1@) == spec_execute(cmd@),
        phase_fits(r.0@.command, r.0@.phase),
{
    match cmd {
        Command::Create { .. } => {
            let b = bundle_of(&cmd).clone();
            (Session { command: cmd, phase: Phase::CheckingBundle }, Action::CheckPath(b))
        },
        _ => {
            let p = StateManager::state_file(cmd.id().as_str());
            (Session { command: cmd, phase: Phase::CheckingState }, Action::CheckPath(p))
        },
    }
}

/// How far a phase is from the end of its command.
pub open spec fn phase_rank(p: PhaseView) -> nat {
    match p {
        PhaseView::CheckingBundle => 5,
        PhaseView::CheckingConfig => 4,
        PhaseView::LoadingSpec => 3,
        PhaseView::Canonicalizing => 2,
        PhaseView::CheckingState => 8,
        PhaseView::LoadingState => 7,
        PhaseView::LoadingLaunchSpec(_) => 6,
        PhaseView::Spawning(_) => 5,
        PhaseView::SavingRunning(_) => 4,
        PhaseView::WritingPidfile(_) => 3,
        PhaseView::Waiting(_) => 2,
        PhaseView::Saving => 1,
        PhaseView::Removing => 1,
        PhaseView::Finished => 0,
    }
}

/// A session keeps its command, and only ever moves to a phase that its command
/// goes through.
pub proof fn lemma_step_keeps_phase_fit(s: SessionView, e: EventView)
    requires
        phase_fits(s.command, s.phase),
        event_fits(s.phase, e),
    ensures
        spec_step(s, e).0.command == s.command,
        phase_fits(spec_step(s, e).0.command, spec_step(s, e).0.phase),
{
}

/// Every answer moves a session closer to its end, and a command begins at
/// most eight answers away from it: every command finishes.
pub proof fn lemma_commands_finish(c: CommandView, s: SessionView, e: EventView)
    requires
        phase_fits(s.command, s.phase),
        event_fits(s.phase, e),
    ensures
        phase_rank(spec_execute(c).0.phase) <= 8,
        phase_rank(spec_step(s, e).0.phase) < phase_rank(s.phase),
        phase_rank(spec_step(s, e).0.phase) == 0 <==> spec_step(s, e).1 is Finish,
{
}

/// A failed action ends the command with an error, whatever the phase.
pub proof fn lemma_failure_ends_command(s: SessionView, m: Seq<char>)
    requires
        !(s.phase is Finished),
    ensures
        spec_step(s, EventView::Failed(m)).0.phase is Finished,
        spec_step(s, EventView::Failed(m)).1 == ActionView::Finish(
            Err(failure_error(s.phase, m)),
        ),
{
}

/// The states that commands record follow the lifecycle: `create` records a
/// fresh created state; `start` moves a created container to running under
/// the process it started from the bundle's spec, writes that process's pid
/// file, waits for it, and records it stopped; `pause` moves a running
/// container to paused and `resume` a paused one back to running; each keeps
/// everything else. `state`, `kill` and `delete` record nothing, and only
/// `delete` removes a directory.
pub proof fn lemma_recorded_states_follow_lifecycle(s: SessionView, e: EventView)
    requires
        phase_fits(s.command, s.phase),
        event_fits(s.phase, e),
    ensures
        match spec_step(s, e).1 {
            ActionView::Save(t) => match s.command {
                CommandView::Create { id, .. } => e is Canonical && t == created_state(
                    id,
                    e->Canonical_0,
                ),
                CommandView::Start { .. } => (s.phase matches PhaseView::Spawning(old)
                    && old.status == Status::Created && e is Pid && t == started_state(
                    old,
                    e->Pid_0,
                )) || (s.phase matches PhaseView::Waiting(run) && run.status == Status::Running
                    && t == with_status(run, Status::Stopped)),
                CommandView::Pause { .. } => (e matches EventView::Loaded(old) && old.status
                    == Status::Running && t == with_status(old, Status::Paused)),
                CommandView::Resume { .. } => (e matches EventView::Loaded(old) && old.status
                    == Status::Paused && t == with_status(old, Status::Running)),
                _ => false,
            },
            ActionView::Spawn(plan) => s.command is Start && (s.phase
                matches PhaseView::LoadingLaunchSpec(st) && st.status == Status::Created && (e
                matches EventView::SpecLoaded(spec) && plan == launch_plan(st.bundle, spec))),
            ActionView::WritePidfile(path, pid) => s.command is Start && path == pidfile_path(
                command_id(s.command),
            ) && (s.phase matches PhaseView::SavingRunning(run) && pid == run.pid),
            ActionView::WaitChild(pid) => s.command is Start && (s.phase
                matches PhaseView::WritingPidfile(run) && pid == run.pid),
            ActionView::RemoveDir(path) => s.command is Delete && path == container_dir_path(
                command_id(s.command),
            ),
            _ => true,
        },
{
}

/// Pausing a running container and then resuming it records the state it had.
pub proof fn lemma_pause_then_resume(id: Seq<char>, st: StateView)
    requires
        st.status == Status::Running,
    ensures
        ({
            let paused = with_status(st, Status::Paused);
            &&& spec_step(
                SessionView { command: CommandView::Pause { id }, phase: PhaseView::LoadingState },
                EventView::Loaded(st),
            ).1 == ActionView::Save(paused)
            &&& spec_step(
                SessionView { command: CommandView::Resume { id }, phase: PhaseView::LoadingState },
                EventView::Loaded(paused),
            ).1 == ActionView::Save(st)
        }),
{
    let paused = with_status(st, Status::Paused);
    assert(with_status(paused, Status::Running) == st);
}

/// Once the recorded state is read, each command decides on it alone:
/// `start` goes on to read the bundle's spec only for a created container,
/// and refuses any other; `kill` reports killed exactly when the state names a
/// process (pid not 0), whatever the status, and refuses otherwise; `state`
/// reports the state exactly as read; `pause` records the state as paused only
/// when it was running, and `resume` records it as running only when it was
/// paused, changing nothing else, and each refuses any other status.
pub proof fn lemma_loaded_state_decides(c: CommandView, st: StateView)
    requires
        !(c is Create),
        !(c is Delete),
    ensures
        ({
            let r = spec_step(SessionView { command: c, phase: PhaseView::LoadingState }, EventView::Loaded(st));
            let id = command_id(c);
            &&& r.0.command == c
            &&& match c {
                CommandView::Start { .. } => if st.status == Status::Created {
                    r.0.phase == PhaseView::LoadingLaunchSpec(st) && r.1 == ActionView::LoadSpec(
                        st.bundle,
                    )
                } else {
                    r.0.phase is Finished && r.1 == ActionView::Finish(
                        Err(CommandErrorView::NotCreated(id)),
                    )
                },
                CommandView::Kill { .. } => {
                    &&& r.0.phase is Finished
                    &&& (r.1 == ActionView::Finish(Ok(ReportView::Killed))) == (st.pid != 0)
                    &&& (r.1 == ActionView::Finish(Err(CommandErrorView::NoProcess(id)))) == (st.pid
                        == 0)
                },
                CommandView::State { .. } => r.0.phase is Finished && r.1 == ActionView::Finish(
                    Ok(ReportView::State(st)),
                ),
                CommandView::Pause { .. } => if st.status == Status::Running {
                    r.0.phase == PhaseView::Saving && r.1 == ActionView::Save(
                        StateView { status: Status::Paused, ..st },
                    )
                } else {
                    r.0.phase is Finished && r.1 == ActionView::Finish(
                        Err(CommandErrorView::NotRunning(id)),
                    )
                },
                CommandView::Resume { .. } => if st.status == Status::Paused {
                    r.0.phase == PhaseView::Saving && r.1 == ActionView::Save(
                        StateView { status: Status::Running, ..st },
                    )
                } else {
                    r.0.phase is Finished && r.1 == ActionView::Finish(
                        Err(CommandErrorView::NotPaused(id)),
                    )
                },
                _ => true,
            }
        }),
{
}

/// Every command but `create` first asks whether the container's state file
/// exists; a missing one ends the command with "does not exist"; otherwise
/// `delete` removes the container's directory and the others read its state.
pub proof fn lemma_existence_decides(c: CommandView, found: bool)
    requires
        !(c is Create),
    ensures
        spec_execute(c) == (SessionView { command: c, phase: PhaseView::CheckingState },
        ActionView::CheckPath(state_file_path(command_id(c)))),
        ({
            let r = spec_step(SessionView { command: c, phase: PhaseView::CheckingState }, EventView::Exists(found));
            let id = command_id(c);
            &&& r.0.command == c
            &&& if !found {
                r.0.phase is Finished && r.1 == ActionView::Finish(Err(CommandErrorView::NotFound(id)))
            } else if c is Delete {
                r.0.phase == PhaseView::Removing && r.1 == ActionView::RemoveDir(container_dir_path(id))
            } else {
                r.0.phase == PhaseView::LoadingState && r.1 == ActionView::LoadState(id)
            }
        }),
{
}

/// `create` checks that the bundle exists, then that it holds `config.json`,
/// then reads the spec, resolves the bundle's path, and records a created
/// state: version 1.0.2, the command's id, pid 0, the resolved bundle, no
/// annotations.
pub proof fn lemma_create_steps(id: Seq<char>, bundle: Seq<char>, found: bool, spec: SpecView, path: Seq<char>)
    ensures
        ({
            let c = CommandView::Create { id, bundle };
            let at = |p: PhaseView| SessionView { command: c, phase: p };
            &&& spec_execute(c) == (at(PhaseView::CheckingBundle), ActionView::CheckPath(bundle))
            &&& spec_step(at(PhaseView::CheckingBundle), EventView::Exists(found)) == if found {
                (at(PhaseView::CheckingConfig), ActionView::CheckPath(spec_path_join(bundle, "config.json"@)))
            } else {
                (at(PhaseView::Finished), ActionView::Finish(Err(CommandErrorView::BundleNotFound(bundle))))
            }
            &&& spec_step(at(PhaseView::CheckingConfig), EventView::Exists(found)) == if found {
                (at(PhaseView::LoadingSpec), ActionView::LoadSpec(bundle))
            } else {
                (at(PhaseView::Finished), ActionView::Finish(Err(CommandErrorView::ConfigNotFound(bundle))))
            }
            &&& spec_step(at(PhaseView::LoadingSpec), EventView::SpecLoaded(spec)) == (
                at(PhaseView::Canonicalizing),
                ActionView::Canonicalize(bundle),
            )
            &&& spec_step(at(PhaseView::Canonicalizing), EventView::Canonical(path)) == (
                at(PhaseView::Saving),
                ActionView::Save(
                    StateView {
                        version: "1.0.2"@,
                        id: id,
                        status: Status::Created,
                        pid: 0,
                        bundle: path,
                        annotations: Seq::empty(),
                    },
                ),
            )
            &&& spec_step(at(PhaseView::Saving), EventView::Done) == (
                at(PhaseView::Finished),
                ActionView::Finish(Ok(ReportView::Created)),
            )
        }),
{
}

/// `start` of a created container: the plan built from the bundle's spec is
/// spawned; the container is recorded running under the spawned process's
/// pid; that pid is written to the pid file; the process is waited for; the
/// container is recorded stopped, everything else kept; and "started" is
/// reported.
pub proof fn lemma_start_steps(id: Seq<char>, st: StateView, spec: SpecView, pid: u32)
    ensures
        ({
            let c = CommandView::Start { id };
            let at = |p: PhaseView| SessionView { command: c, phase: p };
            let run = StateView { status: Status::Running, pid: pid, ..st };
            &&& spec_step(at(PhaseView::LoadingLaunchSpec(st)), EventView::SpecLoaded(spec)) == (
                at(PhaseView::Spawning(st)),
                ActionView::Spawn(launch_plan(st.bundle, spec)),
            )
            &&& spec_step(at(PhaseView::Spawning(st)), EventView::Pid(pid)) == (
                at(PhaseView::SavingRunning(run)),
                ActionView::Save(run),
            )
            &&& spec_step(at(PhaseView::SavingRunning(run)), EventView::Done) == (
                at(PhaseView::WritingPidfile(run)),
                ActionView::WritePidfile(pidfile_path(id), pid),
            )
            &&& spec_step(at(PhaseView::WritingPidfile(run)), EventView::Done) == (
                at(PhaseView::Waiting(run)),
                ActionView::WaitChild(pid),
            )
            &&& spec_step(at(PhaseView::Waiting(run)), EventView::Done) == (
                at(PhaseView::Saving),
                ActionView::Save(StateView { status: Status::Stopped, ..run }),
            )
            &&& spec_step(at(PhaseView::Saving), EventView::Done) == (
                at(PhaseView::Finished),
                ActionView::Finish(Ok(ReportView::Started)),
            )
        }),
{
}

/// Once their state is recorded, `pause` reports paused and `resume` reports
/// resumed; once its directory is removed, `delete` reports deleted.
pub proof fn lemma_commands_report(id: Seq<char>)
    ensures
        spec_step(
            SessionView { command: CommandView::Pause { id }, phase: PhaseView::Saving },
            EventView::Done,
        ).1 == ActionView::Finish(Ok(ReportView::Paused)),
        spec_step(
            SessionView { command: CommandView::Resume { id }, phase: PhaseView::Saving },
            EventView::Done,
        ).1 == ActionView::Finish(Ok(ReportView::Resumed)),
        spec_step(
            SessionView { command: CommandView::Delete { id }, phase: PhaseView::Removing },
            EventView::Done,
        ).1 == ActionView::Finish(Ok(ReportView::Deleted)),
{
}

/// A failed action ends the command with its reason: reading a spec fails as
/// an invalid spec, resolving the bundle's path as a canonicalization
/// failure, and anything else as that failure itself.
pub proof fn lemma_failures_keep_their_reason(s: SessionView, m: Seq<char>)
    requires
        !(s.phase is Finished),
    ensures
        spec_step(s, EventView::Failed(m)).0.phase is Finished,
        spec_step(s, EventView::Failed(m)).1 == ActionView::Finish(
            Err(
                if s.phase is LoadingSpec || s.phase is LoadingLaunchSpec {
                    CommandErrorView::InvalidSpec(m)
                } else if s.phase is Canonicalizing {
                    CommandErrorView::Canonicalize(m)
                } else {
                    CommandErrorView::Io(m)
                },
            ),
        ),
{
}

} // verus!
