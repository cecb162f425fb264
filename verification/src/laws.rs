//! What holds of every run.

use crate::cache::{spec_cached_binary_path, spec_lookup};
use crate::error::RunErrorView;
use crate::invocation::SocketType;
use crate::paths::path_file_name;
use crate::runtime::{Runtime, WorkloadType};
use crate::session::{
    spec_deployment_type, spec_kernel_name, spec_machine_type, ActionView, EventView, PhaseView,
    RunView,
};
use vstd::prelude::*;

verus! {

/// How far a run has come: phases are numbered in the order in which a run
/// passes through them.
pub open spec fn rank(phase: PhaseView) -> nat {
    match phase {
        PhaseView::InterpreterProbe => 0,
        PhaseView::InterpreterFetch => 1,
        PhaseView::KernelProbe => 2,
        PhaseView::KernelFetch => 3,
        PhaseView::TmpDirectory => 4,
        PhaseView::LogDirectory => 5,
        PhaseView::Canonicalize => 6,
        PhaseView::FallbackDirectory => 7,
        PhaseView::SaveDirectory => 8,
        PhaseView::EnterDirectory { .. } => 9,
        PhaseView::Clock => 10,
        PhaseView::Execute => 11,
        PhaseView::Restore { .. } => 12,
        PhaseView::Done => 13,
    }
}

/// The run after a sequence of events, taken in order.
pub open spec fn advance_all(run: RunView, events: Seq<EventView>) -> RunView
    decreases events.len(),
{
    if events.len() == 0 {
        run
    } else {
        advance_all(run, events.drop_last()).advance(events.last())
    }
}

/// Whether a run waits for the interpreter to be looked up or fetched.
pub open spec fn seeks_interpreter(run: RunView) -> bool {
    run.phase is InterpreterProbe || run.phase is InterpreterFetch
}

/// Whether a run is past the sandbox's execution, with its result settled.
pub open spec fn is_settled(run: RunView) -> bool {
    run.phase is Restore || run.phase is Done
}

/// An event that a run waits for moves it strictly on; any other event
/// leaves it exactly as it was.
pub proof fn lemma_advance_progress(run: RunView, event: EventView)
    ensures
        run.accepts(event) ==> rank(run.advance(event).phase) > rank(run.phase),
        !run.accepts(event) ==> run.advance(event) == run,
{
}

/// A run never goes back: whatever events arrive, it is at least as far as
/// it was.
pub proof fn lemma_run_never_goes_back(run: RunView, events: Seq<EventView>)
    ensures
        rank(advance_all(run, events).phase) >= rank(run.phase),
    decreases events.len(),
{
    if events.len() > 0 {
        lemma_run_never_goes_back(run, events.drop_last());
        lemma_advance_progress(advance_all(run, events.drop_last()), events.last());
    }
}

/// A run that is over stays over, with its result: it asks only to finish.
pub proof fn lemma_done_is_final(run: RunView, events: Seq<EventView>)
    requires
        run.phase is Done,
    ensures
        advance_all(run, events) == run,
        run.action() == (ActionView::Finish { result: run.outcome }),
    decreases events.len(),
{
    if events.len() > 0 {
        lemma_done_is_final(run, events.drop_last());
    }
}

/// A workload that cannot be classified is rejected before any run exists:
/// no cache lookup, no download and no other outside work is asked for.
pub proof fn lemma_unsupported_is_rejected_at_once<T>(
    runtime: Runtime<T>,
    workload_path: Seq<char>,
    home: Option<Seq<char>>,
)
    ensures
        runtime.spec_start(None, workload_path, home) == Err::<RunView, RunErrorView>(
            RunErrorView::UnsupportedWorkload { path: workload_path },
        ),
{
}

/// A script's run starts by looking for its interpreter in the cache, under
/// the interpreter's name.
pub proof fn lemma_script_starts_with_interpreter<T>(
    runtime: Runtime<T>,
    kind: WorkloadType,
    workload_path: Seq<char>,
    home: Option<Seq<char>>,
)
    requires
        kind != WorkloadType::Binary,
    ensures
        runtime.spec_start(Some(kind), workload_path, home) matches Ok(run) && run.action() == (
        ActionView::ProbeCache { path: spec_cached_binary_path(home, kind.spec_binary_name()) }),
{
}

/// A binary's run starts by looking for the kernel image, and never looks
/// for an interpreter: whatever events arrive, it neither probes the cache
/// for one nor asks the registry for one.
pub proof fn lemma_binary_skips_interpreter<T>(
    runtime: Runtime<T>,
    workload_path: Seq<char>,
    home: Option<Seq<char>>,
    events: Seq<EventView>,
)
    ensures
        runtime.spec_start(Some(WorkloadType::Binary), workload_path, home) matches Ok(run) && {
            &&& run.action() == (ActionView::ProbeCache {
                path: spec_cached_binary_path(home, spec_kernel_name()),
            })
            &&& !seeks_interpreter(advance_all(run, events))
            &&& advance_all(run, events).interpreter_path == Seq::<char>::empty()
        },
{
    let run = runtime.spec_start(Some(WorkloadType::Binary), workload_path, home)->Ok_0;
    lemma_skips_interpreter(run, events);
}

/// A run that does not wait for the interpreter never comes to wait for it,
/// and keeps the interpreter's path as it is.
pub proof fn lemma_skips_interpreter(run: RunView, events: Seq<EventView>)
    requires
        !seeks_interpreter(run),
    ensures
        !seeks_interpreter(advance_all(run, events)),
        advance_all(run, events).interpreter_path == run.interpreter_path,
        advance_all(run, events).kind == run.kind,
    decreases events.len(),
{
    if events.len() > 0 {
        lemma_skips_interpreter(run, events.drop_last());
    }
}

/// A binary that the cache does not hold is fetched from the registry, for
/// the fixed machine and deployment types; one that the cache holds is used
/// from its cached path, and nothing is fetched.
pub proof fn lemma_miss_fetches(run: RunView, present: bool)
    requires
        run.phase is InterpreterProbe || run.phase is KernelProbe,
    ensures
        ({
            let next = run.advance(EventView::CacheProbed { present: present });
            let name = if run.phase is InterpreterProbe {
                run.kind.spec_binary_name()
            } else {
                spec_kernel_name()
            };
            &&& !present ==> next.action() == (ActionView::FetchBinary {
                machine_type: spec_machine_type(),
                deployment_type: spec_deployment_type(),
                binary_name: name,
            })
            &&& present ==> !(next.action() is FetchBinary)
            &&& present && run.phase is InterpreterProbe ==> next.interpreter_path
                == spec_cached_binary_path(run.home, name)
            &&& present && run.phase is KernelProbe ==> next.kernel_path
                == spec_cached_binary_path(run.home, name)
        }),
{
}

/// A binary that is gone from the cache, as every binary is once the cache
/// has been cleared, is not found by a lookup, and the run that looks for it
/// asks the registry for it afresh.
pub proof fn lemma_absent_binary_is_fetched_afresh(run: RunView)
    requires
        run.phase is InterpreterProbe || run.phase is KernelProbe,
    ensures
        ({
            let name = if run.phase is InterpreterProbe {
                run.kind.spec_binary_name()
            } else {
                spec_kernel_name()
            };
            &&& run.action() == (ActionView::ProbeCache {
                path: spec_cached_binary_path(run.home, name),
            })
            &&& spec_lookup(spec_cached_binary_path(run.home, name), false) is None
            &&& run.advance(EventView::CacheProbed { present: false }).action()
                == (ActionView::FetchBinary {
                machine_type: spec_machine_type(),
                deployment_type: spec_deployment_type(),
                binary_name: name,
            })
        }),
{
}

/// A failed download ends the run with the registry's failure, unchanged,
/// and without a retry.
pub proof fn lemma_fetch_failure_ends_run(run: RunView, message: Seq<char>)
    requires
        run.phase is InterpreterFetch || run.phase is KernelFetch,
        !run.entered,
    ensures
        run.advance(EventView::BinaryFetchFailed { message: message }).action() == (
        ActionView::Finish { result: Err(RunErrorView::FetchFailure { message: message }) }),
{
}

/// A directory that cannot be created ends the run with that failure.
pub proof fn lemma_directory_failure_ends_run(run: RunView, message: Seq<char>)
    requires
        run.phase is TmpDirectory || run.phase is LogDirectory,
        !run.entered,
    ensures
        run.advance(EventView::DirectoryCreationFailed { message: message }).action() == (
        ActionView::Finish {
            result: Err(RunErrorView::DirectoryCreationFailure { message: message }),
        }),
{
}

/// Only a Python run changes the working directory: a run of another kind
/// that has not changed it never asks to change it.
pub proof fn lemma_only_python_changes_directory(run: RunView, events: Seq<EventView>)
    requires
        run.kind != WorkloadType::Python,
        !run.entered,
        !(run.phase is SaveDirectory),
        !(run.phase is EnterDirectory),
        !(run.phase is Restore),
    ensures
        !(advance_all(run, events).action() is ChangeDirectory),
        !advance_all(run, events).entered,
        advance_all(run, events).kind == run.kind,
        !(advance_all(run, events).phase is SaveDirectory),
    decreases events.len(),
{
    if events.len() > 0 {
        lemma_only_python_changes_directory(run, events.drop_last());
    }
}

/// A Python run whose workload is located saves the current directory and
/// then changes into the interpreter's install directory, the parent of the
/// directory that holds the interpreter.
pub proof fn lemma_python_enters_install_directory(
    run: RunView,
    absolute: Seq<char>,
    current: Option<Seq<char>>,
)
    requires
        run.phase is Canonicalize,
        run.kind == WorkloadType::Python,
        run.install_base() is Some,
    ensures
        ({
            let located = run.advance(EventView::Canonicalized { resolved: Some(absolute) });
            let saved = located.advance(EventView::DirectoryQueried { directory: current });
            &&& located.action() == ActionView::QueryDirectory
            &&& saved.saved_directory == current
            &&& saved.action() == (ActionView::ChangeDirectory {
                path: run.install_base()->Some_0,
            })
        }),
{
}

/// After the sandbox has run the workload, a run that changed the working
/// directory changes it back, whether the sandbox succeeded or failed, and
/// then ends with the sandbox's result, whether or not the change back
/// succeeded.
pub proof fn lemma_directory_restored_after_execution(
    run: RunView,
    executed: EventView,
    restored: bool,
)
    requires
        run.phase is Execute,
        run.entered,
        run.saved_directory is Some,
        executed is Executed || executed is ExecutionFailed,
    ensures
        ({
            let after = run.advance(executed);
            let end = after.advance(EventView::DirectoryChanged { changed: restored });
            let result = match executed {
                EventView::ExecutionFailed { message } => Err(
                    RunErrorView::ExecutionFailure { message: message },
                ),
                _ => run.outcome,
            };
            &&& after.action() == (ActionView::ChangeDirectory {
                path: run.saved_directory->Some_0,
            })
            &&& end.action() == (ActionView::Finish { result: result })
        }),
{
}

/// A run that did not change the working directory ends with the sandbox's
/// result as soon as the sandbox is done.
pub proof fn lemma_execution_result_is_returned(run: RunView, executed: EventView)
    requires
        run.phase is Execute,
        !run.entered || run.saved_directory is None,
        executed is Executed || executed is ExecutionFailed,
    ensures
        run.advance(executed).action() == (ActionView::Finish {
            result: match executed {
                EventView::ExecutionFailed { message } => Err(
                    RunErrorView::ExecutionFailure { message: message },
                ),
                _ => run.outcome,
            },
        }),
{
}

/// Once a run's result is settled, nothing changes it, and the sandbox is
/// not asked to execute anything more.
pub proof fn lemma_settled_result_is_kept(run: RunView, events: Seq<EventView>)
    requires
        is_settled(run),
    ensures
        is_settled(advance_all(run, events)),
        advance_all(run, events).outcome == run.outcome,
    decreases events.len(),
{
    if events.len() > 0 {
        lemma_settled_result_is_kept(run, events.drop_last());
    }
}

/// What the sandbox is called with: the interpreter in module mode for
/// JavaScript, `bin/python3` in isolated mode for Python, the workload itself
/// and no arguments for a binary; every channel over a Unix-domain socket,
/// and no snapshot to restore from.
pub proof fn lemma_invocation_shape(run: RunView)
    ensures
        run.kind == WorkloadType::JavaScript ==> run.invocation().executable
            == run.interpreter_path && run.invocation().arguments == "-m "@ + run.absolute_path,
        run.kind == WorkloadType::Python ==> run.invocation().executable == "bin/python3"@
            && run.invocation().arguments == "-S -I "@ + run.absolute_path,
        run.kind == WorkloadType::Binary ==> run.invocation().executable == run.absolute_path
            && run.invocation().arguments == Seq::<char>::empty(),
        run.invocation().script_name == run.script_name,
        run.invocation().settings.kernel_path == run.kernel_path,
        run.invocation().settings.control_socket == SocketType::Unix,
        run.invocation().settings.console_socket == SocketType::Unix,
        run.invocation().settings.data_socket == SocketType::Unix,
        run.invocation().settings.snapshot_source is None,
        run.invocation().settings.syscall_policy == run.syscall_policy,
        run.invocation().settings.tmp_directory == run.tmp_directory,
{
}

/// The sandbox is asked to execute only in the execute phase, and then with
/// this run's invocation.
pub proof fn lemma_execute_only_when_ready(run: RunView)
    ensures
        run.action() is Execute <==> run.phase is Execute,
        run.phase is Execute ==> run.action() == (ActionView::Execute {
            invocation: run.invocation(),
        }),
{
}

/// How many of the events, taken in order, are outcomes that the run waits
/// for when they arrive.
pub open spec fn accepted_count(run: RunView, events: Seq<EventView>) -> nat
    decreases events.len(),
{
    if events.len() == 0 {
        0
    } else {
        let before = advance_all(run, events.drop_last());
        accepted_count(run, events.drop_last()) + if before.accepts(events.last()) {
            1nat
        } else {
            0nat
        }
    }
}

/// A run ends: it takes at most thirteen pieces of outside work, fewer the
/// further it has come, whatever their outcomes are.
pub proof fn lemma_run_ends(run: RunView, events: Seq<EventView>)
    ensures
        accepted_count(run, events) + rank(run.phase) <= rank(advance_all(run, events).phase),
        accepted_count(run, events) <= 13 - rank(run.phase),
    decreases events.len(),
{
    if events.len() > 0 {
        lemma_run_ends(run, events.drop_last());
        lemma_advance_progress(advance_all(run, events.drop_last()), events.last());
    }
}

/// Whether an event reports that a piece of outside work failed in a way
/// that ends the run.
pub open spec fn is_failure(event: EventView) -> bool {
    event is BinaryFetchFailed || event is DirectoryCreationFailed || event is ClockFailed
        || event is ExecutionFailed
}

/// A run fails only for a cause: its result turns into a failure only on
/// an event that reports one, or when the workload's absolute path has no
/// final component to name the run by. A change of directory that fails, on
/// the way in or on the way back, is not among the causes.
pub proof fn lemma_failure_has_cause(run: RunView, event: EventView)
    requires
        run.outcome is Ok,
        run.advance(event).outcome is Err,
    ensures
        is_failure(event) || path_file_name(run.advance(event).absolute_path) is None,
{
}

/// A failure that an event reports becomes the run's result with the
/// event's text, unchanged.
pub proof fn lemma_failure_is_passed_on(run: RunView, event: EventView)
    requires
        run.accepts(event),
        is_failure(event),
    ensures
        run.advance(event).outcome == Err::<(), RunErrorView>(
            match event {
                EventView::BinaryFetchFailed { message } => RunErrorView::FetchFailure {
                    message: message,
                },
                EventView::DirectoryCreationFailed { message } => {
                    RunErrorView::DirectoryCreationFailure { message: message }
                },
                EventView::ClockFailed { message } => RunErrorView::ClockFailure {
                    message: message,
                },
                EventView::ExecutionFailed { message } => RunErrorView::ExecutionFailure {
                    message: message,
                },
                _ => arbitrary(),
            },
        ),
        is_settled(run.advance(event)),
{
}

} // verus!
