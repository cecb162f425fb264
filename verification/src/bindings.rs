//! The surface that language bindings present: a configuration with
//! optional directories, and results that carry a failure as text instead
//! of raising it.

use crate::text::spec_owned_text;
use crate::error::{spec_outcome, RunError, RunErrorView};
use crate::runtime::{spec_default_directory, RuntimeConfig};
use vstd::prelude::*;
use vstd::string::StringExecFns;

verus! {

/// Configuration options for creating a sandbox.
#[derive(Debug, Clone, PartialEq, Eq)]
pub struct SandboxConfig {
    /// Directory for storing logs.
    pub log_directory: Option<String>,
    /// Directory for temporary files.
    pub tmp_directory: Option<String>,
}

/// Workload execution result.
#[derive(Debug, Clone, PartialEq, Eq)]
pub struct WorkloadResult {
    pub success: bool,
    pub error: Option<String>,
}

impl SandboxConfig {
    /// Options with the given directories.
    pub fn new(log_directory: Option<String>, tmp_directory: Option<String>) -> (config: Self)
        ensures
            config.log_directory == log_directory,
            config.tmp_directory == tmp_directory,
    {
        SandboxConfig { log_directory, tmp_directory }
    }
}

/// A directory option, or the default directory where the option is not set.
pub open spec fn spec_directory(option: Option<Seq<char>>) -> Seq<char> {
    match option {
        Some(dir) => dir,
        None => spec_default_directory(),
    }
}

/// The runtime configuration for a binding's options: each directory that
/// the options set, the default for each that they leave out, and no
/// syscall table.
pub fn runtime_config(options: Option<SandboxConfig>) -> (config: RuntimeConfig<()>)
    ensures
        config.syscall_table is None,
        config.log_directory@ == spec_directory(
            match options {
                Some(o) => spec_owned_text(o.log_directory),
                None => None,
            },
        ),
        config.tmp_directory@ == spec_directory(
            match options {
                Some(o) => spec_owned_text(o.tmp_directory),
                None => None,
            },
        ),
{
    match options {
        Some(o) => {
            let mut config = RuntimeConfig::new();
            match o.log_directory {
                Some(dir) => {
                    config = config.with_log_directory(dir.as_str());
                },
                None => {},
            }
            match o.tmp_directory {
                Some(dir) => {
                    config = config.with_tmp_directory(dir.as_str());
                },
                None => {},
            }
            config
        },
        None => RuntimeConfig::new(),
    }
}

/// The text with which a failed run is reported across a binding.
pub open spec fn spec_run_failure_text(error: RunErrorView) -> Seq<char> {
    "Workload execution failed: "@ + error.message()
}

/// The text with which a failure to clear the cache is reported across a binding.
pub open spec fn spec_clear_failure_text(error: RunErrorView) -> Seq<char> {
    "Failed to clear cache: "@ + error.message()
}

/// The text with which a failure to create the runtime is reported across a binding.
pub open spec fn spec_creation_failure_text(error: RunErrorView) -> Seq<char> {
    "Failed to create runtime: "@ + error.message()
}

impl WorkloadResult {
    /// The result of a run as a binding reports it: success without an
    /// error, or failure with the failure's text. A failed run is a result,
    /// never an error of the binding.
    pub fn from_run(result: Result<(), RunError>) -> (reported: WorkloadResult)
        ensures
            reported.success == (result is Ok),
            spec_owned_text(reported.error) == match spec_outcome(result) {
                Ok(()) => None,
                Err(e) => Some(spec_run_failure_text(e)),
            },
    {
        match result {
            Ok(()) => WorkloadResult { success: true, error: None },
            Err(e) => {
                let text = String::from_str("Workload execution failed: ").concat(
                    e.message().as_str(),
                );
                WorkloadResult { success: false, error: Some(text) }
            },
        }
    }

    /// How a result is shown.
    pub open spec fn spec_repr(success: bool, error: Option<Seq<char>>) -> Seq<char> {
        let flag = if success {
            "true"@
        } else {
            "false"@
        };
        match error {
            Some(e) => "WorkloadResult(success="@ + flag + ", error='"@ + e + "')"@,
            None => "WorkloadResult(success="@ + flag + ")"@,
        }
    }

    /// Show this result.
    pub fn repr(&self) -> (text: String)
        ensures
            text@ == Self::spec_repr(self.success, spec_owned_text(self.error)),
    {
        let flag = if self.success {
            "true"
        } else {
            "false"
        };
        let head = String::from_str("WorkloadResult(success=").concat(flag);
        match &self.error {
            Some(e) => head.concat(", error='").concat(e.as_str()).concat("')"),
            None => head.concat(")"),
        }
    }
}

/// The outcome of clearing the cache as a binding reports it: `true`, or
/// the failure's text as the binding's error.
pub fn cache_cleared(result: Result<(), RunError>) -> (reported: Result<bool, String>)
    ensures
        result is Ok ==> reported == Ok::<bool, String>(true),
        result matches Err(e) ==> reported matches Err(text) && text@ == spec_clear_failure_text(
            e@,
        ),
{
    match result {
        Ok(()) => Ok(true),
        Err(e) => Err(String::from_str("Failed to clear cache: ").concat(e.message().as_str())),
    }
}

/// The text with which a binding reports that the runtime could not be created.
pub fn creation_failure(error: &RunError) -> (text: String)
    ensures
        text@ == spec_creation_failure_text(error@),
{
    String::from_str("Failed to create runtime: ").concat(error.message().as_str())
}

} // verus!
