//! Workload kinds and the runtime that dispatches them.

use crate::error::{RunError, RunErrorView};
use crate::invocation::SyscallPolicy;
use crate::paths;
use crate::paths::{lowercase, path_extension};
use crate::session::{Phase, PhaseView, RunContext, RunView};
use crate::text::same_text;
use std::sync::Arc;
use vstd::prelude::*;
use vstd::string::StringExecFns;

verus! {

/// Supported workload types.
#[derive(Debug, Clone, Copy, PartialEq, Eq, Structural)]
pub enum WorkloadType {
    JavaScript,
    Python,
    Binary,
}

impl WorkloadType {
    /// The interpreter binary name of each workload type, as a sequence of
    /// characters: empty for a binary, which runs without an interpreter.
    pub open spec fn spec_binary_name(self) -> Seq<char> {
        match self {
            WorkloadType::JavaScript => "qjs"@,
            WorkloadType::Python => "python3"@,
            WorkloadType::Binary => Seq::<char>::empty(),
        }
    }

    /// Get the interpreter binary name for this workload type. A binary
    /// needs no interpreter, and its name is empty.
    pub fn binary_name(&self) -> (name: &'static str)
        ensures
            name@ == self.spec_binary_name(),
    {
        match self {
            WorkloadType::JavaScript => "qjs",
            WorkloadType::Python => "python3",
            WorkloadType::Binary => {
                proof {
                    reveal_strlit("");
                    assert(""@ =~= Seq::<char>::empty());
                }
                ""
            },
        }
    }

    /// The file extensions recognized for each workload type, in lower case.
    pub open spec fn spec_extensions(self) -> Seq<Seq<char>> {
        match self {
            WorkloadType::JavaScript => seq!["js"@, "mjs"@],
            WorkloadType::Python => seq!["py"@],
            WorkloadType::Binary => seq!["elf"@, "o"@],
        }
    }

    /// Get the file extensions associated with this workload type.
    pub fn extensions(&self) -> (exts: &'static [&'static str])
        ensures
            exts@.len() == self.spec_extensions().len(),
            forall|i: int| 0 <= i < exts@.len() ==> (#[trigger] exts@[i])@ == self.spec_extensions()[i],
    {
        match self {
            WorkloadType::JavaScript => &["js", "mjs"],
            WorkloadType::Python => &["py"],
            WorkloadType::Binary => &["elf", "o"],
        }
    }

    /// The workload type that a lower-case extension stands for, if any.
    pub open spec fn spec_from_extension(ext: Seq<char>) -> Option<WorkloadType> {
        if ext == "js"@ || ext == "mjs"@ {
            Some(WorkloadType::JavaScript)
        } else if ext == "py"@ {
            Some(WorkloadType::Python)
        } else if ext == "elf"@ || ext == "o"@ {
            Some(WorkloadType::Binary)
        } else {
            None
        }
    }

    /// Detect the workload type from a file extension that is already in lower case.
    pub fn from_extension(ext: &str) -> (kind: Option<WorkloadType>)
        ensures
            kind == Self::spec_from_extension(ext@),
    {
        if same_text(ext, "js") || same_text(ext, "mjs") {
            Some(WorkloadType::JavaScript)
        } else if same_text(ext, "py") {
            Some(WorkloadType::Python)
        } else if same_text(ext, "elf") || same_text(ext, "o") {
            Some(WorkloadType::Binary)
        } else {
            None
        }
    }

    /// The workload type of a path, from its extension in lower case, or, for
    /// a path without an extension, from whether it names a regular file.
    pub open spec fn spec_classify(ext: Option<Seq<char>>, regular_file: bool) -> Option<
        WorkloadType,
    > {
        match ext {
            Some(e) => Self::spec_from_extension(e),
            None => if regular_file {
                Some(WorkloadType::Binary)
            } else {
                None
            },
        }
    }

    /// Classify a workload from what is known of its path: the extension, in
    /// lower case, and whether the path names an existing regular file. A path
    /// with an extension is judged by the extension alone; one without is
    /// taken for a binary exactly when it is a regular file.
    pub fn classify(ext: Option<&str>, regular_file: bool) -> (kind: Option<WorkloadType>)
        ensures
            kind == Self::spec_classify(
                match ext {
                    Some(e) => Some(e@),
                    None => None,
                },
                regular_file,
            ),
    {
        match ext {
            Some(e) => Self::from_extension(e),
            None => if regular_file {
                Some(WorkloadType::Binary)
            } else {
                None
            },
        }
    }

    /// The extension by which a path is classified: what the standard library
    /// takes for the path's extension, in lower case.
    pub open spec fn spec_path_extension(path: Seq<char>) -> Option<Seq<char>> {
        match path_extension(path) {
            Some(e) => Some(lowercase(e)),
            None => None,
        }
    }

    /// Detect the workload type of a path. The extension decides, without
    /// regard to case; the file system is asked only about a path that has no
    /// extension, which is a binary exactly when it names a regular file.
    pub fn from_path(path: &str) -> (kind: Option<WorkloadType>)
        ensures
            Self::spec_path_extension(path@) is Some ==> kind == Self::spec_classify(
                Self::spec_path_extension(path@),
                false,
            ),
            Self::spec_path_extension(path@) is None ==> kind == Self::spec_classify(None, true)
                || kind == Self::spec_classify(None, false),
    {
        match paths::extension(path) {
            Some(ext) => {
                let lower = paths::to_lowercase(ext.as_str());
                Self::classify(Some(lower.as_str()), false)
            },
            None => Self::classify(None, paths::is_file(path)),
        }
    }
}

/// A workload type has an interpreter name exactly when it is a script: the
/// name is empty for a binary and for nothing else.
pub proof fn lemma_only_binary_has_no_interpreter(kind: WorkloadType)
    ensures
        kind.spec_binary_name().len() == 0 <==> kind == WorkloadType::Binary,
{
    reveal_strlit("qjs");
    reveal_strlit("python3");
}

/// Every extension that a workload type lists is classified as that type,
/// and an extension is classified as a type only if that type lists it.
pub proof fn lemma_extensions_classify(kind: WorkloadType, ext: Seq<char>)
    ensures
        kind.spec_extensions().contains(ext) <==> WorkloadType::spec_from_extension(ext) == Some(
            kind,
        ),
{
    lemma_extension_texts();
    let listed = kind.spec_extensions();
    if listed.contains(ext) {
        let i = choose|i: int| 0 <= i < listed.len() && listed[i] == ext;
        assert(listed[i] == ext);
    }
    if WorkloadType::spec_from_extension(ext) == Some(kind) {
        match kind {
            WorkloadType::JavaScript => {
                assert(listed[0] == "js"@ && listed[1] == "mjs"@);
            },
            WorkloadType::Python => {
                assert(listed[0] == "py"@);
            },
            WorkloadType::Binary => {
                assert(listed[0] == "elf"@ && listed[1] == "o"@);
            },
        }
    }
}

/// A path whose extension, in lower case, is listed by a workload type is
/// classified as that type, and a path with any other extension is not
/// classified at all, whatever is on disk.
pub proof fn lemma_path_with_extension(path: Seq<char>, kind: WorkloadType, regular_file: bool)
    requires
        WorkloadType::spec_path_extension(path) is Some,
    ensures
        kind.spec_extensions().contains(WorkloadType::spec_path_extension(path)->Some_0)
            <==> WorkloadType::spec_classify(WorkloadType::spec_path_extension(path), regular_file)
            == Some(kind),
        (forall|k: WorkloadType|
            !(#[trigger] k.spec_extensions()).contains(
                WorkloadType::spec_path_extension(path)->Some_0,
            )) ==> WorkloadType::spec_classify(
            WorkloadType::spec_path_extension(path),
            regular_file,
        ) is None,
{
    let ext = WorkloadType::spec_path_extension(path)->Some_0;
    lemma_extensions_classify(kind, ext);
    lemma_extensions_classify(WorkloadType::JavaScript, ext);
    lemma_extensions_classify(WorkloadType::Python, ext);
    lemma_extensions_classify(WorkloadType::Binary, ext);
}

/// A path with an extension is classified by the extension alone, whatever
/// is on disk; a path without one is a binary exactly when it is a regular
/// file.
pub proof fn lemma_classify_cases(ext: Option<Seq<char>>, regular_file: bool)
    ensures
        ext is Some ==> WorkloadType::spec_classify(ext, regular_file)
            == WorkloadType::spec_classify(ext, !regular_file),
        ext is None && regular_file ==> WorkloadType::spec_classify(ext, regular_file) == Some(
            WorkloadType::Binary,
        ),
        ext is None && !regular_file ==> WorkloadType::spec_classify(ext, regular_file) is None,
{
}

/// The five recognized extensions are five different texts.
pub proof fn lemma_extension_texts()
    ensures
        "js"@ == seq!['j', 's'],
        "mjs"@ == seq!['m', 'j', 's'],
        "py"@ == seq!['p', 'y'],
        "elf"@ == seq!['e', 'l', 'f'],
        "o"@ == seq!['o'],
{
    reveal_strlit("js");
    reveal_strlit("mjs");
    reveal_strlit("py");
    reveal_strlit("elf");
    reveal_strlit("o");
    assert("js"@ =~= seq!['j', 's']);
    assert("mjs"@ =~= seq!['m', 'j', 's']);
    assert("py"@ =~= seq!['p', 'y']);
    assert("elf"@ =~= seq!['e', 'l', 'f']);
    assert("o"@ =~= seq!['o']);
}

/// Runtime configuration: the embedder's syscall policy table, if there is
/// one, and the directories for logs and temporary files. A configuration
/// starts without a table; `with_syscall_table` gives it one, of any type.
#[derive(Debug)]
pub struct RuntimeConfig<T> {
    /// Optional custom syscall table, shared with the embedder.
    pub syscall_table: Option<Arc<T>>,
    /// Directory for storing logs.
    pub log_directory: String,
    /// Directory for temporary files.
    pub tmp_directory: String,
}

/// The directory that logs and temporary files go to unless configured otherwise.
pub open spec fn spec_default_directory() -> Seq<char> {
    "/tmp/hyperlight-nanvix"@
}

/// Calls `Arc::clone`, which gives another handle to the same shared value.
#[verifier::external_body]
fn share<T>(table: &Arc<T>) -> (shared: Arc<T>)
    ensures
        shared == *table,
{
    Arc::clone(table)
}

impl Default for RuntimeConfig<()> {
    fn default() -> (config: Self)
        ensures
            config.syscall_table is None,
            config.log_directory@ == spec_default_directory(),
            config.tmp_directory@ == spec_default_directory(),
    {
        RuntimeConfig {
            syscall_table: None,
            log_directory: String::from_str("/tmp/hyperlight-nanvix"),
            tmp_directory: String::from_str("/tmp/hyperlight-nanvix"),
        }
    }
}

impl RuntimeConfig<()> {
    /// The default configuration: no syscall table, and both directories
    /// at their default.
    pub fn new() -> (config: Self)
        ensures
            config.syscall_table is None,
            config.log_directory@ == spec_default_directory(),
            config.tmp_directory@ == spec_default_directory(),
    {
        RuntimeConfig {
            syscall_table: None,
            log_directory: String::from_str("/tmp/hyperlight-nanvix"),
            tmp_directory: String::from_str("/tmp/hyperlight-nanvix"),
        }
    }
}

impl<T> RuntimeConfig<T> {
    /// This configuration with the given syscall table in place of any
    /// earlier one. The table is shared, not copied.
    pub fn with_syscall_table<U>(self, table: Arc<U>) -> (config: RuntimeConfig<U>)
        ensures
            config.syscall_table == Some(table),
            config.log_directory@ == self.log_directory@,
            config.tmp_directory@ == self.tmp_directory@,
    {
        RuntimeConfig {
            syscall_table: Some(table),
            log_directory: self.log_directory,
            tmp_directory: self.tmp_directory,
        }
    }

    /// This configuration with the given log directory.
    pub fn with_log_directory(self, dir: &str) -> (config: Self)
        ensures
            config.log_directory@ == dir@,
            config.tmp_directory@ == self.tmp_directory@,
            config.syscall_table == self.syscall_table,
    {
        let mut config = self;
        config.log_directory = String::from_str(dir);
        config
    }

    /// This configuration with the given directory for temporary files.
    pub fn with_tmp_directory(self, dir: &str) -> (config: Self)
        ensures
            config.tmp_directory@ == dir@,
            config.log_directory@ == self.log_directory@,
            config.syscall_table == self.syscall_table,
    {
        let mut config = self;
        config.tmp_directory = String::from_str(dir);
        config
    }

    /// Where the sandbox's syscall table comes from under this
    /// configuration: the embedder's table if there is one, and a default
    /// table otherwise.
    pub open spec fn spec_syscall_policy(self) -> SyscallPolicy {
        if self.syscall_table is Some {
            SyscallPolicy::Supplied
        } else {
            SyscallPolicy::Default
        }
    }

    /// Where the sandbox's syscall table comes from under this configuration.
    pub fn syscall_policy(&self) -> (policy: SyscallPolicy)
        ensures
            policy == self.spec_syscall_policy(),
    {
        match &self.syscall_table {
            Some(_) => SyscallPolicy::Supplied,
            None => SyscallPolicy::Default,
        }
    }
}

impl<T> Clone for RuntimeConfig<T> {
    fn clone(&self) -> (copy: Self)
        ensures
            copy.syscall_table == self.syscall_table,
            copy.log_directory@ == self.log_directory@,
            copy.tmp_directory@ == self.tmp_directory@,
    {
        RuntimeConfig {
            syscall_table: match &self.syscall_table {
                Some(table) => Some(share(table)),
                None => None,
            },
            log_directory: self.log_directory.clone(),
            tmp_directory: self.tmp_directory.clone(),
        }
    }
}

/// Runtime for executing workloads in sandboxes.
pub struct Runtime<T> {
    config: RuntimeConfig<T>,
}

/// The view of a started run, or of the failure to start it.
pub open spec fn spec_started(started: Result<RunContext, RunError>) -> Result<
    RunView,
    RunErrorView,
> {
    match started {
        Ok(run) => Ok(run@),
        Err(e) => Err(e@),
    }
}

impl<T> Runtime<T> {
    /// The configuration that this runtime was made with.
    pub closed spec fn config(self) -> RuntimeConfig<T> {
        self.config
    }

    /// A runtime with the given configuration. This cannot fail.
    pub fn new(config: RuntimeConfig<T>) -> (runtime: Result<Self, RunError>)
        ensures
            runtime matches Ok(r) && r.config() == config,
    {
        Ok(Runtime { config })
    }

    /// The syscall table that the embedder supplied, shared once more, if
    /// there is one.
    pub fn syscall_table(&self) -> (table: Option<Arc<T>>)
        ensures
            table == self.config().syscall_table,
    {
        match &self.config.syscall_table {
            Some(table) => Some(share(table)),
            None => None,
        }
    }

    /// The run of a workload of a known kind, before its first piece of
    /// outside work: a script starts by looking for its interpreter, a
    /// binary by looking for the kernel, and a workload of no kind is
    /// rejected at once.
    pub open spec fn spec_start(
        self,
        kind: Option<WorkloadType>,
        workload_path: Seq<char>,
        home: Option<Seq<char>>,
    ) -> Result<RunView, RunErrorView> {
        match kind {
            None => Err(RunErrorView::UnsupportedWorkload { path: workload_path }),
            Some(k) => Ok(
                RunView {
                    phase: if k == WorkloadType::Binary {
                        PhaseView::KernelProbe
                    } else {
                        PhaseView::InterpreterProbe
                    },
                    kind: k,
                    workload_path: workload_path,
                    home: home,
                    log_directory: self.config().log_directory@,
                    tmp_directory: self.config().tmp_directory@,
                    syscall_policy: self.config().spec_syscall_policy(),
                    interpreter_path: Seq::<char>::empty(),
                    kernel_path: Seq::<char>::empty(),
                    absolute_path: Seq::<char>::empty(),
                    script_name: Seq::<char>::empty(),
                    saved_directory: None,
                    entered: false,
                    nanos: 0,
                    outcome: Ok(()),
                },
            ),
        }
    }

    /// Start the run of a workload that has been classified. `home` is the
    /// user's home directory, if it is known.
    pub fn start(&self, kind: Option<WorkloadType>, workload_path: &str, home: Option<&str>) -> (started:
        Result<RunContext, RunError>)
        ensures
            spec_started(started) == self.spec_start(
                kind,
                workload_path@,
                crate::text::spec_text(home),
            ),
    {
        let kind = match kind {
            Some(k) => k,
            None => {
                return Err(RunError::UnsupportedWorkload { path: String::from_str(workload_path) });
            },
        };
        let phase = match kind {
            WorkloadType::Binary => Phase::KernelProbe,
            _ => Phase::InterpreterProbe,
        };
        Ok(
            RunContext {
                phase,
                kind,
                workload_path: String::from_str(workload_path),
                home: match home {
                    Some(h) => Some(String::from_str(h)),
                    None => None,
                },
                log_directory: self.config.log_directory.clone(),
                tmp_directory: self.config.tmp_directory.clone(),
                syscall_policy: self.config.syscall_policy(),
                interpreter_path: String::new(),
                kernel_path: String::new(),
                absolute_path: String::new(),
                script_name: String::new(),
                saved_directory: None,
                entered: false,
                nanos: 0,
                outcome: Ok(()),
            },
        )
    }

    /// What starting a run may give for a path: a path with an extension is
    /// classified by the extension, in lower case, and by nothing else; for
    /// a path without one the file system decides between a binary and a
    /// rejection.
    pub open spec fn spec_run(
        self,
        workload_path: Seq<char>,
        home: Option<Seq<char>>,
        started: Result<RunView, RunErrorView>,
    ) -> bool {
        match WorkloadType::spec_path_extension(workload_path) {
            Some(ext) => started == self.spec_start(
                WorkloadType::spec_from_extension(ext),
                workload_path,
                home,
            ),
            None => started == self.spec_start(Some(WorkloadType::Binary), workload_path, home)
                || started == self.spec_start(None, workload_path, home),
        }
    }

    /// Run a workload: classify it and start its run. The caller drives the
    /// run from there, performing each action that it asks for, until the
    /// action is to finish. `home` is the user's home directory, if it is
    /// known.
    pub fn run(&self, workload_path: &str, home: Option<&str>) -> (started: Result<
        RunContext,
        RunError,
    >)
        ensures
            self.spec_run(workload_path@, crate::text::spec_text(home), spec_started(started)),
    {
        let kind = WorkloadType::from_path(workload_path);
        self.start(kind, workload_path, home)
    }

    /// Report the registry's clearing of the cache: its failure is the
    /// caller's failure, with the registry's text.
    pub fn clear_cache(&self, cleared: Result<(), String>) -> (result: Result<(), RunError>)
        ensures
            cleared is Ok ==> result is Ok,
            cleared matches Err(message) ==> result matches Err(e) && e@
                == (RunErrorView::CacheClearFailure { message: message@ }),
    {
        match cleared {
            Ok(()) => Ok(()),
            Err(message) => Err(RunError::CacheClearFailure { message }),
        }
    }
}

} // verus!
