//! One run of a workload, as a state machine.
//!
//! A run alternates between decisions, which are made here, and work on the
//! outside world, which the caller performs: the state says which piece of
//! work it waits for (`RunContext::action`), and the outcome of that work
//! moves the run on (`RunContext::advance`). The caller repeats the two until
//! the action is `Action::Finish`.

use crate::cache::{cached_binary_path, spec_cached_binary_path};
use crate::text::{spec_owned_text, spec_text};
use crate::error::{spec_outcome, RunError, RunErrorView};
use crate::invocation::{
    effective_executable, prepare_script_args, run_identifier, sandbox_settings, script_args,
    spec_invocation, spec_prepare_script_args, spec_sandbox_settings, Invocation, InvocationView,
    SyscallPolicy,
};
use crate::paths;
use crate::paths::{path_join, path_parent};
use crate::runtime::WorkloadType;
use vstd::prelude::*;
use vstd::string::StringExecFns;

verus! {

/// The piece of outside work whose outcome a run waits for.
#[derive(Debug, Clone, PartialEq, Eq)]
pub enum Phase {
    /// Whether the interpreter is in the cache.
    InterpreterProbe,
    /// The registry's download of the interpreter.
    InterpreterFetch,
    /// Whether the kernel image is in the cache.
    KernelProbe,
    /// The registry's download of the kernel image.
    KernelFetch,
    /// The creation of the temporary directory.
    TmpDirectory,
    /// The creation of the log directory.
    LogDirectory,
    /// The workload's canonical path.
    Canonicalize,
    /// The current directory, to make the workload's path absolute with.
    FallbackDirectory,
    /// The current directory, to return to after the run.
    SaveDirectory,
    /// The change into the interpreter's install directory.
    EnterDirectory { base: String },
    /// The time, for the run's identifier.
    Clock,
    /// The sandbox's run of the workload.
    Execute,
    /// The change back into the directory that was current before the run.
    Restore { to: String },
    /// Nothing: the run is over.
    Done,
}

/// A phase as contracts speak of it.
pub enum PhaseView {
    InterpreterProbe,
    InterpreterFetch,
    KernelProbe,
    KernelFetch,
    TmpDirectory,
    LogDirectory,
    Canonicalize,
    FallbackDirectory,
    SaveDirectory,
    EnterDirectory { base: Seq<char> },
    Clock,
    Execute,
    Restore { to: Seq<char> },
    Done,
}

impl View for Phase {
    type V = PhaseView;

    open spec fn view(&self) -> PhaseView {
        match self {
            Phase::InterpreterProbe => PhaseView::InterpreterProbe,
            Phase::InterpreterFetch => PhaseView::InterpreterFetch,
            Phase::KernelProbe => PhaseView::KernelProbe,
            Phase::KernelFetch => PhaseView::KernelFetch,
            Phase::TmpDirectory => PhaseView::TmpDirectory,
            Phase::LogDirectory => PhaseView::LogDirectory,
            Phase::Canonicalize => PhaseView::Canonicalize,
            Phase::FallbackDirectory => PhaseView::FallbackDirectory,
            Phase::SaveDirectory => PhaseView::SaveDirectory,
            Phase::EnterDirectory { base } => PhaseView::EnterDirectory { base: base@ },
            Phase::Clock => PhaseView::Clock,
            Phase::Execute => PhaseView::Execute,
            Phase::Restore { to } => PhaseView::Restore { to: to@ },
            Phase::Done => PhaseView::Done,
        }
    }
}

/// Work on the outside world that a run asks its caller to perform.
#[derive(Debug, PartialEq, Eq)]
pub enum Action {
    /// Ask the file system whether `path` exists.
    ProbeCache { path: String },
    /// Ask the registry for a binary, which it downloads into the cache.
    FetchBinary { machine_type: String, deployment_type: String, binary_name: String },
    /// Create a directory and its parents, if they are not there.
    CreateDirectory { path: String },
    /// Resolve a path to its canonical, absolute form.
    Canonicalize { path: String },
    /// Read the process's current directory.
    QueryDirectory,
    /// Change the process's current directory.
    ChangeDirectory { path: String },
    /// Read the time since the epoch, in nanoseconds.
    ReadClock,
    /// Run the workload in the sandbox.
    Execute { invocation: Invocation },
    /// Stop: the run is over, with this result.
    Finish { result: Result<(), RunError> },
}

/// An action as contracts speak of it.
pub enum ActionView {
    ProbeCache { path: Seq<char> },
    FetchBinary { machine_type: Seq<char>, deployment_type: Seq<char>, binary_name: Seq<char> },
    CreateDirectory { path: Seq<char> },
    Canonicalize { path: Seq<char> },
    QueryDirectory,
    ChangeDirectory { path: Seq<char> },
    ReadClock,
    Execute { invocation: InvocationView },
    Finish { result: Result<(), RunErrorView> },
}

impl View for Action {
    type V = ActionView;

    open spec fn view(&self) -> ActionView {
        match self {
            Action::ProbeCache { path } => ActionView::ProbeCache { path: path@ },
            Action::FetchBinary { machine_type, deployment_type, binary_name } => {
                ActionView::FetchBinary {
                    machine_type: machine_type@,
                    deployment_type: deployment_type@,
                    binary_name: binary_name@,
                }
            },
            Action::CreateDirectory { path } => ActionView::CreateDirectory { path: path@ },
            Action::Canonicalize { path } => ActionView::Canonicalize { path: path@ },
            Action::QueryDirectory => ActionView::QueryDirectory,
            Action::ChangeDirectory { path } => ActionView::ChangeDirectory { path: path@ },
            Action::ReadClock => ActionView::ReadClock,
            Action::Execute { invocation } => ActionView::Execute { invocation: invocation@ },
            Action::Finish { result } => ActionView::Finish { result: spec_outcome(*result) },
        }
    }
}

/// The outcome of a piece of outside work.
#[derive(Debug, Clone, PartialEq, Eq)]
pub enum Event {
    /// The file system's answer to a probe.
    CacheProbed { present: bool },
    /// The registry produced the binary, at this path.
    BinaryFetched { path: String },
    /// The registry could not produce the binary.
    BinaryFetchFailed { message: String },
    /// The directory is there.
    DirectoryCreated,
    /// The directory could not be created.
    DirectoryCreationFailed { message: String },
    /// The canonical path, or none where the path could not be resolved.
    Canonicalized { resolved: Option<String> },
    /// The current directory, or none where it could not be read.
    DirectoryQueried { directory: Option<String> },
    /// Whether the current directory was changed.
    DirectoryChanged { changed: bool },
    /// The time since the epoch, in nanoseconds.
    ClockRead { nanos: u128 },
    /// The clock could not be read as a time since the epoch.
    ClockFailed { message: String },
    /// The sandbox ran the workload to its end.
    Executed,
    /// The sandbox reported a failure.
    ExecutionFailed { message: String },
}

/// An event as contracts speak of it.
pub enum EventView {
    CacheProbed { present: bool },
    BinaryFetched { path: Seq<char> },
    BinaryFetchFailed { message: Seq<char> },
    DirectoryCreated,
    DirectoryCreationFailed { message: Seq<char> },
    Canonicalized { resolved: Option<Seq<char>> },
    DirectoryQueried { directory: Option<Seq<char>> },
    DirectoryChanged { changed: bool },
    ClockRead { nanos: nat },
    ClockFailed { message: Seq<char> },
    Executed,
    ExecutionFailed { message: Seq<char> },
}

impl View for Event {
    type V = EventView;

    open spec fn view(&self) -> EventView {
        match self {
            Event::CacheProbed { present } => EventView::CacheProbed { present: *present },
            Event::BinaryFetched { path } => EventView::BinaryFetched { path: path@ },
            Event::BinaryFetchFailed { message } => EventView::BinaryFetchFailed {
                message: message@,
            },
            Event::DirectoryCreated => EventView::DirectoryCreated,
            Event::DirectoryCreationFailed { message } => EventView::DirectoryCreationFailed {
                message: message@,
            },
            Event::Canonicalized { resolved } => EventView::Canonicalized {
                resolved: spec_owned_text(*resolved),
            },
            Event::DirectoryQueried { directory } => EventView::DirectoryQueried {
                directory: spec_owned_text(*directory),
            },
            Event::DirectoryChanged { changed } => EventView::DirectoryChanged {
                changed: *changed,
            },
            Event::ClockRead { nanos } => EventView::ClockRead { nanos: *nanos as nat },
            Event::ClockFailed { message } => EventView::ClockFailed { message: message@ },
            Event::Executed => EventView::Executed,
            Event::ExecutionFailed { message } => EventView::ExecutionFailed {
                message: message@,
            },
        }
    }
}

/// The state of one run: what it was started with, what it has resolved so
/// far, and what it waits for.
#[derive(Debug, PartialEq, Eq)]
pub struct RunContext {
    pub phase: Phase,
    pub kind: WorkloadType,
    pub workload_path: String,
    pub home: Option<String>,
    pub log_directory: String,
    pub tmp_directory: String,
    pub syscall_policy: SyscallPolicy,
    pub interpreter_path: String,
    pub kernel_path: String,
    pub absolute_path: String,
    pub script_name: String,
    pub saved_directory: Option<String>,
    pub entered: bool,
    pub nanos: u128,
    pub outcome: Result<(), RunError>,
}

/// The state of a run as contracts speak of it.
pub struct RunView {
    pub phase: PhaseView,
    pub kind: WorkloadType,
    pub workload_path: Seq<char>,
    pub home: Option<Seq<char>>,
    pub log_directory: Seq<char>,
    pub tmp_directory: Seq<char>,
    pub syscall_policy: SyscallPolicy,
    pub interpreter_path: Seq<char>,
    pub kernel_path: Seq<char>,
    pub absolute_path: Seq<char>,
    pub script_name: Seq<char>,
    pub saved_directory: Option<Seq<char>>,
    pub entered: bool,
    pub nanos: nat,
    pub outcome: Result<(), RunErrorView>,
}

impl View for RunContext {
    type V = RunView;

    open spec fn view(&self) -> RunView {
        RunView {
            phase: self.phase@,
            kind: self.kind,
            workload_path: self.workload_path@,
            home: spec_owned_text(self.home),
            log_directory: self.log_directory@,
            tmp_directory: self.tmp_directory@,
            syscall_policy: self.syscall_policy,
            interpreter_path: self.interpreter_path@,
            kernel_path: self.kernel_path@,
            absolute_path: self.absolute_path@,
            script_name: self.script_name@,
            saved_directory: spec_owned_text(self.saved_directory),
            entered: self.entered,
            nanos: self.nanos as nat,
            outcome: spec_outcome(self.outcome),
        }
    }
}

/// The machine type that binaries are fetched for.
pub open spec fn spec_machine_type() -> Seq<char> {
    "hyperlight"@
}

/// The deployment type that binaries are fetched for.
pub open spec fn spec_deployment_type() -> Seq<char> {
    "single-process"@
}

/// The name of the kernel image, which every run needs.
pub open spec fn spec_kernel_name() -> Seq<char> {
    "kernel.elf"@
}

impl RunView {
    /// This run, waiting for something else.
    pub open spec fn to(self, phase: PhaseView) -> RunView {
        RunView { phase: phase, ..self }
    }

    /// The end of a run whose result is settled: back into the directory
    /// that was current before the run, if the run has left it and knows
    /// it, and then nothing more.
    pub open spec fn wind_down(self) -> RunView {
        match self.saved_directory {
            Some(dir) => if self.entered {
                self.to(PhaseView::Restore { to: dir })
            } else {
                self.to(PhaseView::Done)
            },
            None => self.to(PhaseView::Done),
        }
    }

    /// This run, failed: the failure is its result, and it winds down.
    pub open spec fn fail(self, error: RunErrorView) -> RunView {
        RunView { outcome: Err(error), ..self }.wind_down()
    }

    /// The step after the working directory is settled: the workload gets
    /// its display name and the run goes on to read the clock, or fails on a
    /// path that has no final component.
    pub open spec fn prepare(self) -> RunView {
        match spec_prepare_script_args(self.kind, self.absolute_path) {
            Ok(prepared) => RunView { script_name: prepared.1, ..self }.to(PhaseView::Clock),
            Err(e) => self.fail(e),
        }
    }

    /// The step after the workload's absolute path is known: a Python run
    /// goes on to save the current directory, any other prepares at once.
    pub open spec fn located(self, absolute: Seq<char>) -> RunView {
        let run = RunView { absolute_path: absolute, ..self };
        if self.kind == WorkloadType::Python {
            run.to(PhaseView::SaveDirectory)
        } else {
            run.prepare()
        }
    }

    /// The interpreter's install directory: the parent of the directory
    /// that holds the interpreter.
    pub open spec fn install_base(self) -> Option<Seq<char>> {
        match path_parent(self.interpreter_path) {
            Some(bin) => path_parent(bin),
            None => None,
        }
    }

    /// The call of the sandbox that this run makes.
    pub open spec fn invocation(self) -> InvocationView {
        spec_invocation(
            self.kind,
            self.absolute_path,
            self.script_name,
            self.interpreter_path,
            spec_sandbox_settings(
                self.kernel_path,
                self.log_directory,
                self.tmp_directory,
                self.syscall_policy,
            ),
            self.nanos,
        )
    }

    /// The outside work that this run waits for.
    pub open spec fn action(self) -> ActionView {
        match self.phase {
            PhaseView::InterpreterProbe => ActionView::ProbeCache {
                path: spec_cached_binary_path(self.home, self.kind.spec_binary_name()),
            },
            PhaseView::InterpreterFetch => ActionView::FetchBinary {
                machine_type: spec_machine_type(),
                deployment_type: spec_deployment_type(),
                binary_name: self.kind.spec_binary_name(),
            },
            PhaseView::KernelProbe => ActionView::ProbeCache {
                path: spec_cached_binary_path(self.home, spec_kernel_name()),
            },
            PhaseView::KernelFetch => ActionView::FetchBinary {
                machine_type: spec_machine_type(),
                deployment_type: spec_deployment_type(),
                binary_name: spec_kernel_name(),
            },
            PhaseView::TmpDirectory => ActionView::CreateDirectory { path: self.tmp_directory },
            PhaseView::LogDirectory => ActionView::CreateDirectory { path: self.log_directory },
            PhaseView::Canonicalize => ActionView::Canonicalize { path: self.workload_path },
            PhaseView::FallbackDirectory => ActionView::QueryDirectory,
            PhaseView::SaveDirectory => ActionView::QueryDirectory,
            PhaseView::EnterDirectory { base } => ActionView::ChangeDirectory { path: base },
            PhaseView::Clock => ActionView::ReadClock,
            PhaseView::Execute => ActionView::Execute { invocation: self.invocation() },
            PhaseView::Restore { to } => ActionView::ChangeDirectory { path: to },
            PhaseView::Done => ActionView::Finish { result: self.outcome },
        }
    }

    /// Whether an event is an outcome of the work that this run waits for.
    pub open spec fn accepts(self, event: EventView) -> bool {
        match self.phase {
            PhaseView::InterpreterProbe | PhaseView::KernelProbe => event is CacheProbed,
            PhaseView::InterpreterFetch | PhaseView::KernelFetch => event is BinaryFetched
                || event is BinaryFetchFailed,
            PhaseView::TmpDirectory | PhaseView::LogDirectory => event is DirectoryCreated
                || event is DirectoryCreationFailed,
            PhaseView::Canonicalize => event is Canonicalized,
            PhaseView::FallbackDirectory | PhaseView::SaveDirectory => event is DirectoryQueried,
            PhaseView::EnterDirectory { .. } | PhaseView::Restore { .. } => event
                is DirectoryChanged,
            PhaseView::Clock => event is ClockRead || event is ClockFailed,
            PhaseView::Execute => event is Executed || event is ExecutionFailed,
            PhaseView::Done => false,
        }
    }

    /// The run after an event. An event that is no outcome of the work that
    /// the run waits for leaves the run as it is.
    pub open spec fn advance(self, event: EventView) -> RunView {
        match self.phase {
            PhaseView::InterpreterProbe => match event {
                EventView::CacheProbed { present } => if present {
                    RunView {
                        interpreter_path: spec_cached_binary_path(
                            self.home,
                            self.kind.spec_binary_name(),
                        ),
                        ..self
                    }.to(PhaseView::KernelProbe)
                } else {
                    self.to(PhaseView::InterpreterFetch)
                },
                _ => self,
            },
            PhaseView::InterpreterFetch => match event {
                EventView::BinaryFetched { path } => RunView { interpreter_path: path, ..self }.to(
                    PhaseView::KernelProbe,
                ),
                EventView::BinaryFetchFailed { message } => self.fail(
                    RunErrorView::FetchFailure { message: message },
                ),
                _ => self,
            },
            PhaseView::KernelProbe => match event {
                EventView::CacheProbed { present } => if present {
                    RunView {
                        kernel_path: spec_cached_binary_path(self.home, spec_kernel_name()),
                        ..self
                    }.to(PhaseView::TmpDirectory)
                } else {
                    self.to(PhaseView::KernelFetch)
                },
                _ => self,
            },
            PhaseView::KernelFetch => match event {
                EventView::BinaryFetched { path } => RunView { kernel_path: path, ..self }.to(
                    PhaseView::TmpDirectory,
                ),
                EventView::BinaryFetchFailed { message } => self.fail(
                    RunErrorView::FetchFailure { message: message },
                ),
                _ => self,
            },
            PhaseView::TmpDirectory => match event {
                EventView::DirectoryCreated => self.to(PhaseView::LogDirectory),
                EventView::DirectoryCreationFailed { message } => self.fail(
                    RunErrorView::DirectoryCreationFailure { message: message },
                ),
                _ => self,
            },
            PhaseView::LogDirectory => match event {
                EventView::DirectoryCreated => self.to(PhaseView::Canonicalize),
                EventView::DirectoryCreationFailed { message } => self.fail(
                    RunErrorView::DirectoryCreationFailure { message: message },
                ),
                _ => self,
            },
            PhaseView::Canonicalize => match event {
                EventView::Canonicalized { resolved } => match resolved {
                    Some(p) => self.located(p),
                    None => self.to(PhaseView::FallbackDirectory),
                },
                _ => self,
            },
            PhaseView::FallbackDirectory => match event {
                EventView::DirectoryQueried { directory } => self.located(
                    path_join(
                        match directory {
                            Some(dir) => dir,
                            None => Seq::<char>::empty(),
                        },
                        self.workload_path,
                    ),
                ),
                _ => self,
            },
            PhaseView::SaveDirectory => match event {
                EventView::DirectoryQueried { directory } => {
                    let run = RunView { saved_directory: directory, ..self };
                    match run.install_base() {
                        Some(base) => run.to(PhaseView::EnterDirectory { base: base }),
                        None => run.prepare(),
                    }
                },
                _ => self,
            },
            PhaseView::EnterDirectory { .. } => match event {
                EventView::DirectoryChanged { changed } => RunView {
                    entered: changed,
                    ..self
                }.prepare(),
                _ => self,
            },
            PhaseView::Clock => match event {
                EventView::ClockRead { nanos } => RunView { nanos: nanos, ..self }.to(
                    PhaseView::Execute,
                ),
                EventView::ClockFailed { message } => self.fail(
                    RunErrorView::ClockFailure { message: message },
                ),
                _ => self,
            },
            PhaseView::Execute => match event {
                EventView::Executed => self.wind_down(),
                EventView::ExecutionFailed { message } => self.fail(
                    RunErrorView::ExecutionFailure { message: message },
                ),
                _ => self,
            },
            PhaseView::Restore { .. } => match event {
                EventView::DirectoryChanged { .. } => self.to(PhaseView::Done),
                _ => self,
            },
            PhaseView::Done => self,
        }
    }
}

/// An optional owned text, borrowed.
fn borrowed(text: &Option<String>) -> (slice: Option<&str>)
    ensures
        spec_text(slice) == spec_owned_text(*text),
{
    match text {
        Some(t) => Some(t.as_str()),
        None => None,
    }
}

/// A copy of a run's result.
fn duplicate_outcome(outcome: &Result<(), RunError>) -> (copy: Result<(), RunError>)
    ensures
        spec_outcome(copy) == spec_outcome(*outcome),
{
    match outcome {
        Ok(()) => Ok(()),
        Err(e) => Err(e.duplicate()),
    }
}

impl RunContext {
    fn wind_down(self) -> (next: RunContext)
        ensures
            next@ == self@.wind_down(),
    {
        let mut run = self;
        let target = match &run.saved_directory {
            Some(dir) => if run.entered {
                Some(dir.clone())
            } else {
                None
            },
            None => None,
        };
        match target {
            Some(to) => {
                run.phase = Phase::Restore { to };
            },
            None => {
                run.phase = Phase::Done;
            },
        }
        run
    }

    fn fail(self, error: RunError) -> (next: RunContext)
        ensures
            next@ == self@.fail(error@),
    {
        let mut run = self;
        run.outcome = Err(error);
        run.wind_down()
    }

    fn prepare(self) -> (next: RunContext)
        ensures
            next@ == self@.prepare(),
    {
        let mut run = self;
        match prepare_script_args(run.kind, run.absolute_path.as_str()) {
            Ok((_, name)) => {
                run.script_name = name;
                run.phase = Phase::Clock;
                run
            },
            Err(e) => run.fail(e),
        }
    }

    fn located(self, absolute: String) -> (next: RunContext)
        ensures
            next@ == self@.located(absolute@),
    {
        let mut run = self;
        run.absolute_path = absolute;
        match run.kind {
            WorkloadType::Python => {
                run.phase = Phase::SaveDirectory;
                run
            },
            _ => run.prepare(),
        }
    }

    fn install_base(&self) -> (base: Option<String>)
        ensures
            spec_owned_text(base) == self@.install_base(),
    {
        match paths::parent(self.interpreter_path.as_str()) {
            Some(bin) => paths::parent(bin.as_str()),
            None => None,
        }
    }

    /// Whether this run changes the process's working directory, which all
    /// runs of one process share: such runs must not overlap. Only a Python
    /// run does.
    pub fn changes_directory(&self) -> (shared: bool)
        ensures
            shared == (self@.kind == WorkloadType::Python),
    {
        match self.kind {
            WorkloadType::Python => true,
            _ => false,
        }
    }

    /// The call of the sandbox that this run makes.
    pub fn invocation(&self) -> (call: Invocation)
        ensures
            call@ == self@.invocation(),
    {
        let settings = sandbox_settings(
            self.kernel_path.as_str(),
            self.log_directory.as_str(),
            self.tmp_directory.as_str(),
            self.syscall_policy,
        );
        Invocation {
            settings,
            script_name: self.script_name.clone(),
            run_id: run_identifier(self.nanos),
            executable: effective_executable(
                self.kind,
                self.interpreter_path.as_str(),
                self.absolute_path.as_str(),
            ),
            arguments: script_args(self.kind, self.absolute_path.as_str()),
        }
    }

    /// Move the run on by the outcome of the work it waited for. An event
    /// that is no such outcome leaves the run as it is, so that the same
    /// work is asked for again.
    pub fn advance(self, event: Event) -> (next: RunContext)
        ensures
            next@ == self@.advance(event@),
    {
        let mut run = self;
        match &run.phase {
            Phase::InterpreterProbe => match event {
                Event::CacheProbed { present } => {
                    if present {
                        let path = cached_binary_path(borrowed(&run.home), run.kind.binary_name());
                        run.interpreter_path = path;
                        run.phase = Phase::KernelProbe;
                    } else {
                        run.phase = Phase::InterpreterFetch;
                    }
                    run
                },
                _ => run,
            },
            Phase::InterpreterFetch => match event {
                Event::BinaryFetched { path } => {
                    run.interpreter_path = path;
                    run.phase = Phase::KernelProbe;
                    run
                },
                Event::BinaryFetchFailed { message } => run.fail(
                    RunError::FetchFailure { message },
                ),
                _ => run,
            },
            Phase::KernelProbe => match event {
                Event::CacheProbed { present } => {
                    if present {
                        let path = cached_binary_path(borrowed(&run.home), "kernel.elf");
                        run.kernel_path = path;
                        run.phase = Phase::TmpDirectory;
                    } else {
                        run.phase = Phase::KernelFetch;
                    }
                    run
                },
                _ => run,
            },
            Phase::KernelFetch => match event {
                Event::BinaryFetched { path } => {
                    run.kernel_path = path;
                    run.phase = Phase::TmpDirectory;
                    run
                },
                Event::BinaryFetchFailed { message } => run.fail(
                    RunError::FetchFailure { message },
                ),
                _ => run,
            },
            Phase::TmpDirectory => match event {
                Event::DirectoryCreated => {
                    run.phase = Phase::LogDirectory;
                    run
                },
                Event::DirectoryCreationFailed { message } => run.fail(
                    RunError::DirectoryCreationFailure { message },
                ),
                _ => run,
            },
            Phase::LogDirectory => match event {
                Event::DirectoryCreated => {
                    run.phase = Phase::Canonicalize;
                    run
                },
                Event::DirectoryCreationFailed { message } => run.fail(
                    RunError::DirectoryCreationFailure { message },
                ),
                _ => run,
            },
            Phase::Canonicalize => match event {
                Event::Canonicalized { resolved } => match resolved {
                    Some(p) => run.located(p),
                    None => {
                        run.phase = Phase::FallbackDirectory;
                        run
                    },
                },
                _ => run,
            },
            Phase::FallbackDirectory => match event {
                Event::DirectoryQueried { directory } => {
                    proof {
                        reveal_strlit("");
                        assert(""@ =~= Seq::<char>::empty());
                    }
                    let absolute = match directory {
                        Some(dir) => paths::join(dir.as_str(), run.workload_path.as_str()),
                        None => paths::join("", run.workload_path.as_str()),
                    };
                    run.located(absolute)
                },
                _ => run,
            },
            Phase::SaveDirectory => match event {
                Event::DirectoryQueried { directory } => {
                    run.saved_directory = directory;
                    match run.install_base() {
                        Some(base) => {
                            run.phase = Phase::EnterDirectory { base };
                            run
                        },
                        None => run.prepare(),
                    }
                },
                _ => run,
            },
            Phase::EnterDirectory { .. } => match event {
                Event::DirectoryChanged { changed } => {
                    run.entered = changed;
                    run.prepare()
                },
                _ => run,
            },
            Phase::Clock => match event {
                Event::ClockRead { nanos } => {
                    run.nanos = nanos;
                    run.phase = Phase::Execute;
                    run
                },
                Event::ClockFailed { message } => run.fail(RunError::ClockFailure { message }),
                _ => run,
            },
            Phase::Execute => match event {
                Event::Executed => run.wind_down(),
                Event::ExecutionFailed { message } => run.fail(
                    RunError::ExecutionFailure { message },
                ),
                _ => run,
            },
            Phase::Restore { .. } => match event {
                Event::DirectoryChanged { .. } => {
                    run.phase = Phase::Done;
                    run
                },
                _ => run,
            },
            Phase::Done => run,
        }
    }

    /// The outside work that this run waits for. The caller performs it and
    /// hands its outcome to `advance`; `Action::Finish` ends the run.
    pub fn action(&self) -> (action: Action)
        ensures
            action@ == self@.action(),
    {
        match &self.phase {
            Phase::InterpreterProbe => Action::ProbeCache {
                path: cached_binary_path(borrowed(&self.home), self.kind.binary_name()),
            },
            Phase::InterpreterFetch => Action::FetchBinary {
                machine_type: String::from_str("hyperlight"),
                deployment_type: String::from_str("single-process"),
                binary_name: String::from_str(self.kind.binary_name()),
            },
            Phase::KernelProbe => Action::ProbeCache {
                path: cached_binary_path(borrowed(&self.home), "kernel.elf"),
            },
            Phase::KernelFetch => Action::FetchBinary {
                machine_type: String::from_str("hyperlight"),
                deployment_type: String::from_str("single-process"),
                binary_name: String::from_str("kernel.elf"),
            },
            Phase::TmpDirectory => Action::CreateDirectory { path: self.tmp_directory.clone() },
            Phase::LogDirectory => Action::CreateDirectory { path: self.log_directory.clone() },
            Phase::Canonicalize => Action::Canonicalize { path: self.workload_path.clone() },
            Phase::FallbackDirectory => Action::QueryDirectory,
            Phase::SaveDirectory => Action::QueryDirectory,
            Phase::EnterDirectory { base } => Action::ChangeDirectory { path: base.clone() },
            Phase::Clock => Action::ReadClock,
            Phase::Execute => Action::Execute { invocation: self.invocation() },
            Phase::Restore { to } => Action::ChangeDirectory { path: to.clone() },
            Phase::Done => Action::Finish { result: duplicate_outcome(&self.outcome) },
        }
    }
}

} // verus!
