//! Dispatcher that maps a workload file to an isolated sandbox run.
//!
//! The crate holds the decisions of the dispatcher, each with a contract
//! that Verus proves:
//!
//! - `runtime`: workload kinds, classification, configuration, and the start
//!   of a run;
//! - `session`: a run as a state machine that asks for one piece of outside
//!   work at a time;
//! - `invocation`: what the sandbox is called with;
//! - `cache`: where cached binaries live;
//! - `setup`, `cli`, `bindings`: what the program and the language bindings
//!   decide around a run;
//! - `error`: the ways in which a run can fail;
//! - `laws`: what holds of every run;
//! - `text`: texts, optional ones as contracts speak of them, and their
//!   comparison;
//! - `paths`: the operations of the standard library that all of this rests
//!   on, none of which is proved.
//!
//! The surrounding program performs the I/O that those decisions ask for.

pub mod bindings;
pub mod cache;
pub mod cli;
pub mod error;
pub mod invocation;
pub mod laws;
pub mod paths;
pub mod runtime;
pub mod session;
pub mod setup;
pub mod text;

pub use error::RunError;
pub use runtime::{Runtime, RuntimeConfig, WorkloadType};
pub use session::{Action, Event, Phase, RunContext};

use crate::text::spec_text;
use crate::runtime::spec_started;
use std::sync::Arc;
use vstd::prelude::*;

verus! {

/// Main entry point for creating and running sandboxes.
pub struct Sandbox<T> {
    runtime: Runtime<T>,
}

impl<T> Sandbox<T> {
    /// The runtime behind this sandbox.
    pub closed spec fn runtime(self) -> Runtime<T> {
        self.runtime
    }

    /// Create a new sandbox with the given configuration. This cannot fail.
    pub fn new(config: RuntimeConfig<T>) -> (sandbox: Result<Self, RunError>)
        ensures
            sandbox matches Ok(s) && s.runtime().config() == config,
    {
        match Runtime::new(config) {
            Ok(runtime) => Ok(Sandbox { runtime }),
            Err(e) => Err(e),
        }
    }

    /// Run a workload in the sandbox: classify it and start its run, as
    /// `Runtime::run` does. The sandbox itself is left as it was.
    pub fn run(&mut self, workload_path: &str, home: Option<&str>) -> (started: Result<
        RunContext,
        RunError,
    >)
        ensures
            *final(self) == *old(self),
            old(self).runtime().spec_run(workload_path@, spec_text(home), spec_started(started)),
    {
        self.runtime.run(workload_path, home)
    }

    /// Report the registry's clearing of the cache, as `Runtime::clear_cache` does.
    pub fn clear_cache(&self, cleared: Result<(), String>) -> (result: Result<(), RunError>)
        ensures
            cleared is Ok ==> result is Ok,
            cleared matches Err(message) ==> result matches Err(e) && e@
                == (error::RunErrorView::CacheClearFailure { message: message@ }),
    {
        self.runtime.clear_cache(cleared)
    }

    /// The syscall table that the embedder supplied, shared once more, if
    /// there is one.
    pub fn syscall_table(&self) -> (table: Option<Arc<T>>)
        ensures
            table == self.runtime().config().syscall_table,
    {
        self.runtime.syscall_table()
    }
}

} // verus!
