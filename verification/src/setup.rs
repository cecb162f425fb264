//! Provisioning of the cache ahead of any run.
//!
//! Three binaries are needed by the runs that the dispatcher supports: the
//! kernel image and the two interpreters. Setting up the registry means
//! fetching those that the cache does not hold yet.

use crate::cache::is_binary_cached;
use vstd::prelude::*;

verus! {

/// What setting up does about one binary.
#[derive(Debug, Clone, Copy, PartialEq, Eq, Structural)]
pub enum Provision {
    /// The binary is in the cache and is left alone.
    AlreadyCached,
    /// The binary is fetched from the registry.
    Download,
}

/// What setting up does: nothing where the cache holds all three binaries,
/// and otherwise one decision for each, carried out in the order kernel
/// image, JavaScript interpreter, Python interpreter.
#[derive(Debug, Clone, Copy, PartialEq, Eq, Structural)]
pub enum SetupPlan {
    AlreadySetUp,
    Provision { kernel: Provision, qjs: Provision, python: Provision },
}

/// What setting up does about a binary, given whether the cache holds it.
pub open spec fn spec_provision(cached: bool) -> Provision {
    if cached {
        Provision::AlreadyCached
    } else {
        Provision::Download
    }
}

/// What setting up does, given which of the three binaries the cache holds.
pub open spec fn spec_setup_plan(kernel_cached: bool, qjs_cached: bool, python_cached: bool) -> SetupPlan {
    if kernel_cached && qjs_cached && python_cached {
        SetupPlan::AlreadySetUp
    } else {
        SetupPlan::Provision {
            kernel: spec_provision(kernel_cached),
            qjs: spec_provision(qjs_cached),
            python: spec_provision(python_cached),
        }
    }
}

/// Decide what setting up does about a binary.
pub fn provision(cached: bool) -> (decision: Provision)
    ensures
        decision == spec_provision(cached),
{
    if cached {
        Provision::AlreadyCached
    } else {
        Provision::Download
    }
}

/// Decide what setting up does, given which of the three binaries the cache
/// holds.
pub fn setup_plan(kernel_cached: bool, qjs_cached: bool, python_cached: bool) -> (plan: SetupPlan)
    ensures
        plan == spec_setup_plan(kernel_cached, qjs_cached, python_cached),
{
    if kernel_cached && qjs_cached && python_cached {
        SetupPlan::AlreadySetUp
    } else {
        SetupPlan::Provision {
            kernel: provision(kernel_cached),
            qjs: provision(qjs_cached),
            python: provision(python_cached),
        }
    }
}

/// Look into the cache for the three binaries and decide what setting up
/// does. The plan is the one that `setup_plan` gives for some answer of the
/// file system to each of the three questions.
pub fn registry_setup_plan(home: Option<&str>) -> (plan: SetupPlan)
    ensures
        exists|kernel: bool, qjs: bool, python: bool|
            plan == #[trigger] spec_setup_plan(kernel, qjs, python),
{
    let kernel_cached = is_binary_cached(home, "kernel.elf");
    let qjs_cached = is_binary_cached(home, "qjs");
    let python_cached = is_binary_cached(home, "python3");
    setup_plan(kernel_cached, qjs_cached, python_cached)
}

/// Setting up downloads exactly the binaries that the cache does not hold:
/// a plan of nothing to do means that all three are cached, and otherwise
/// each binary is downloaded if and only if it is not cached.
pub proof fn lemma_setup_downloads_what_is_missing(
    kernel_cached: bool,
    qjs_cached: bool,
    python_cached: bool,
)
    ensures
        spec_setup_plan(kernel_cached, qjs_cached, python_cached) is AlreadySetUp <==> (
        kernel_cached && qjs_cached && python_cached),
        spec_setup_plan(kernel_cached, qjs_cached, python_cached) matches SetupPlan::Provision {
            kernel,
            qjs,
            python,
        } ==> {
            &&& kernel is Download <==> !kernel_cached
            &&& qjs is Download <==> !qjs_cached
            &&& python is Download <==> !python_cached
            &&& kernel is Download || qjs is Download || python is Download
        },
{
}

} // verus!
