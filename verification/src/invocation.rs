//! What is handed to the sandbox for one run: its settings, the executable
//! and the arguments.

use crate::error::{RunError, RunErrorView};
use crate::paths;
use crate::paths::path_file_name;
use crate::runtime::WorkloadType;
use vstd::prelude::*;
use vstd::string::StringExecFns;

verus! {

/// The transport of one of the sandbox's channels.
#[derive(Debug, Clone, Copy, PartialEq, Eq, Structural)]
pub enum SocketType {
    Unix,
    Tcp,
}

/// Where the sandbox's syscall policy table comes from.
#[derive(Debug, Clone, Copy, PartialEq, Eq, Structural)]
pub enum SyscallPolicy {
    /// The table that the embedder supplied, shared with the sandbox.
    Supplied,
    /// A table that forwards nothing, made for the run.
    Default,
}

/// The settings of the sandbox for one run, in the order in which the
/// sandbox takes them.
#[derive(Debug, Clone, PartialEq, Eq)]
pub struct SandboxSettings {
    /// Transport of the control channel.
    pub control_socket: SocketType,
    /// Transport of the console channel.
    pub console_socket: SocketType,
    /// Transport of the data channel.
    pub data_socket: SocketType,
    /// File that the guest's console is logged to.
    pub console_file: Option<String>,
    /// Snapshot to restore the guest from, if any.
    pub snapshot_source: Option<String>,
    /// Kernel image that the guest boots.
    pub kernel_path: String,
    /// Where the syscall policy table comes from.
    pub syscall_policy: SyscallPolicy,
    /// Directory of the toolchain.
    pub toolchain_path: String,
    /// Directory for logs.
    pub log_directory: String,
    /// A switch of the sandbox that the dispatcher leaves off.
    pub flag: bool,
    /// File that a snapshot of the guest goes to.
    pub snapshot_path: String,
    /// Directory for temporary files, sockets among them.
    pub tmp_directory: String,
}

/// The settings of the sandbox as contracts speak of them.
pub struct SandboxSettingsView {
    pub control_socket: SocketType,
    pub console_socket: SocketType,
    pub data_socket: SocketType,
    pub console_file: Option<Seq<char>>,
    pub snapshot_source: Option<Seq<char>>,
    pub kernel_path: Seq<char>,
    pub syscall_policy: SyscallPolicy,
    pub toolchain_path: Seq<char>,
    pub log_directory: Seq<char>,
    pub flag: bool,
    pub snapshot_path: Seq<char>,
    pub tmp_directory: Seq<char>,
}

impl View for SandboxSettings {
    type V = SandboxSettingsView;

    open spec fn view(&self) -> SandboxSettingsView {
        SandboxSettingsView {
            control_socket: self.control_socket,
            console_socket: self.console_socket,
            data_socket: self.data_socket,
            console_file: match self.console_file {
                Some(f) => Some(f@),
                None => None,
            },
            snapshot_source: match self.snapshot_source {
                Some(s) => Some(s@),
                None => None,
            },
            kernel_path: self.kernel_path@,
            syscall_policy: self.syscall_policy,
            toolchain_path: self.toolchain_path@,
            log_directory: self.log_directory@,
            flag: self.flag,
            snapshot_path: self.snapshot_path@,
            tmp_directory: self.tmp_directory@,
        }
    }
}

/// One call of the sandbox: its settings, the name under which the run is
/// shown, the run's identifier, the executable and its arguments.
#[derive(Debug, Clone, PartialEq, Eq)]
pub struct Invocation {
    pub settings: SandboxSettings,
    pub script_name: String,
    pub run_id: String,
    pub executable: String,
    pub arguments: String,
}

/// One call of the sandbox as contracts speak of it.
pub struct InvocationView {
    pub settings: SandboxSettingsView,
    pub script_name: Seq<char>,
    pub run_id: Seq<char>,
    pub executable: Seq<char>,
    pub arguments: Seq<char>,
}

impl View for Invocation {
    type V = InvocationView;

    open spec fn view(&self) -> InvocationView {
        InvocationView {
            settings: self.settings@,
            script_name: self.script_name@,
            run_id: self.run_id@,
            executable: self.executable@,
            arguments: self.arguments@,
        }
    }
}

/// The console log of a run: `guest-console.log` in the log directory.
pub open spec fn spec_console_log(log_directory: Seq<char>) -> Seq<char> {
    log_directory + "/guest-console.log"@
}

/// The settings of a run's sandbox: every channel over a Unix-domain socket,
/// the console logged to a file in the log directory, no snapshot to restore
/// from, the resolved kernel, the fixed toolchain and snapshot paths, and the
/// configured directories.
pub open spec fn spec_sandbox_settings(
    kernel_path: Seq<char>,
    log_directory: Seq<char>,
    tmp_directory: Seq<char>,
    syscall_policy: SyscallPolicy,
) -> SandboxSettingsView {
    SandboxSettingsView {
        control_socket: SocketType::Unix,
        console_socket: SocketType::Unix,
        data_socket: SocketType::Unix,
        console_file: Some(spec_console_log(log_directory)),
        snapshot_source: None,
        kernel_path: kernel_path,
        syscall_policy: syscall_policy,
        toolchain_path: "/tmp/hyperlight-nanvix/toolchain"@,
        log_directory: log_directory,
        flag: false,
        snapshot_path: "/tmp/hyperlight-nanvix/snapshot.bin"@,
        tmp_directory: tmp_directory,
    }
}

/// Assemble the settings of a run's sandbox.
pub fn sandbox_settings(
    kernel_path: &str,
    log_directory: &str,
    tmp_directory: &str,
    syscall_policy: SyscallPolicy,
) -> (settings: SandboxSettings)
    ensures
        settings@ == spec_sandbox_settings(
            kernel_path@,
            log_directory@,
            tmp_directory@,
            syscall_policy,
        ),
{
    let console_log = String::from_str(log_directory).concat("/guest-console.log");
    SandboxSettings {
        control_socket: SocketType::Unix,
        console_socket: SocketType::Unix,
        data_socket: SocketType::Unix,
        console_file: Some(console_log),
        snapshot_source: None,
        kernel_path: String::from_str(kernel_path),
        syscall_policy,
        toolchain_path: String::from_str("/tmp/hyperlight-nanvix/toolchain"),
        log_directory: String::from_str(log_directory),
        flag: false,
        snapshot_path: String::from_str("/tmp/hyperlight-nanvix/snapshot.bin"),
        tmp_directory: String::from_str(tmp_directory),
    }
}

/// The arguments with which a workload's interpreter is started: a module
/// run for JavaScript, an isolated run without site import for Python, and
/// none for a binary.
pub open spec fn spec_script_args(kind: WorkloadType, workload_path: Seq<char>) -> Seq<char> {
    match kind {
        WorkloadType::JavaScript => "-m "@ + workload_path,
        WorkloadType::Python => "-S -I "@ + workload_path,
        WorkloadType::Binary => Seq::<char>::empty(),
    }
}

/// The arguments with which a workload's interpreter is started.
pub fn script_args(kind: WorkloadType, workload_path: &str) -> (args: String)
    ensures
        args@ == spec_script_args(kind, workload_path@),
{
    match kind {
        WorkloadType::JavaScript => String::from_str("-m ").concat(workload_path),
        WorkloadType::Python => String::from_str("-S -I ").concat(workload_path),
        WorkloadType::Binary => String::new(),
    }
}

/// The arguments and the display name of a workload, or the failure to name it.
pub open spec fn spec_prepare_script_args(kind: WorkloadType, workload_path: Seq<char>) -> Result<
    (Seq<char>, Seq<char>),
    RunErrorView,
> {
    match path_file_name(workload_path) {
        Some(name) => Ok((spec_script_args(kind, workload_path), name)),
        None => Err(RunErrorView::InvalidWorkloadPath { path: workload_path }),
    }
}

/// The view of what `prepare_script_args` returns.
pub open spec fn spec_prepared(prepared: Result<(String, String), RunError>) -> Result<
    (Seq<char>, Seq<char>),
    RunErrorView,
> {
    match prepared {
        Ok((args, name)) => Ok((args@, name@)),
        Err(e) => Err(e@),
    }
}

/// Prepare the arguments and the display name for a workload. The name is
/// the final component of the workload's path; a path without one is
/// rejected.
pub fn prepare_script_args(kind: WorkloadType, workload_path: &str) -> (prepared: Result<
    (String, String),
    RunError,
>)
    ensures
        spec_prepared(prepared) == spec_prepare_script_args(kind, workload_path@),
{
    let script_name = match paths::file_name(workload_path) {
        Some(name) => name,
        None => {
            return Err(RunError::InvalidWorkloadPath { path: String::from_str(workload_path) });
        },
    };
    Ok((script_args(kind, workload_path), script_name))
}

/// The executable that the sandbox starts: the interpreter for JavaScript,
/// `bin/python3` below the interpreter's install directory for Python, and
/// the workload itself for a binary.
pub open spec fn spec_effective_executable(
    kind: WorkloadType,
    interpreter_path: Seq<char>,
    workload_path: Seq<char>,
) -> Seq<char> {
    match kind {
        WorkloadType::JavaScript => interpreter_path,
        WorkloadType::Python => "bin/python3"@,
        WorkloadType::Binary => workload_path,
    }
}

/// Choose the executable that the sandbox starts.
pub fn effective_executable(kind: WorkloadType, interpreter_path: &str, workload_path: &str) -> (exe:
    String)
    ensures
        exe@ == spec_effective_executable(kind, interpreter_path@, workload_path@),
{
    match kind {
        WorkloadType::JavaScript => String::from_str(interpreter_path),
        WorkloadType::Python => String::from_str("bin/python3"),
        WorkloadType::Binary => String::from_str(workload_path),
    }
}

/// One decimal digit as a character.
pub open spec fn spec_digit(d: nat) -> char {
    if d == 0 {
        '0'
    } else if d == 1 {
        '1'
    } else if d == 2 {
        '2'
    } else if d == 3 {
        '3'
    } else if d == 4 {
        '4'
    } else if d == 5 {
        '5'
    } else if d == 6 {
        '6'
    } else if d == 7 {
        '7'
    } else if d == 8 {
        '8'
    } else {
        '9'
    }
}

/// A natural number in decimal, without leading zeros.
pub open spec fn spec_decimal(n: nat) -> Seq<char>
    decreases n,
{
    if n < 10 {
        seq![spec_digit(n)]
    } else {
        spec_decimal(n / 10).push(spec_digit(n % 10))
    }
}

fn digit_text(d: u128) -> (text: &'static str)
    requires
        d < 10,
    ensures
        text@ == seq![spec_digit(d as nat)],
{
    proof {
        reveal_strlit("0");
        reveal_strlit("1");
        reveal_strlit("2");
        reveal_strlit("3");
        reveal_strlit("4");
        reveal_strlit("5");
        reveal_strlit("6");
        reveal_strlit("7");
        reveal_strlit("8");
        reveal_strlit("9");
    }
    let text = if d == 0 {
        "0"
    } else if d == 1 {
        "1"
    } else if d == 2 {
        "2"
    } else if d == 3 {
        "3"
    } else if d == 4 {
        "4"
    } else if d == 5 {
        "5"
    } else if d == 6 {
        "6"
    } else if d == 7 {
        "7"
    } else if d == 8 {
        "8"
    } else {
        "9"
    };
    assert(text@ =~= seq![spec_digit(d as nat)]);
    text
}

/// The identifier of a run: the nanoseconds since the epoch at which it was
/// started, in decimal.
pub fn run_identifier(nanos: u128) -> (id: String)
    ensures
        id@ == spec_decimal(nanos as nat),
    decreases nanos,
{
    if nanos < 10 {
        String::from_str(digit_text(nanos))
    } else {
        let head = run_identifier(nanos / 10);
        let id = head.concat(digit_text(nanos % 10));
        assert(id@ =~= spec_decimal(nanos as nat));
        id
    }
}

/// The call of the sandbox for a workload whose binaries are resolved.
pub open spec fn spec_invocation(
    kind: WorkloadType,
    workload_path: Seq<char>,
    script_name: Seq<char>,
    interpreter_path: Seq<char>,
    settings: SandboxSettingsView,
    nanos: nat,
) -> InvocationView {
    InvocationView {
        settings: settings,
        script_name: script_name,
        run_id: spec_decimal(nanos),
        executable: spec_effective_executable(kind, interpreter_path, workload_path),
        arguments: spec_script_args(kind, workload_path),
    }
}

} // verus!
