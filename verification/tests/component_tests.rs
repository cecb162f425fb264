use hyperlight_nanvix::bindings::{
    cache_cleared, creation_failure, runtime_config, SandboxConfig, WorkloadResult,
};
use hyperlight_nanvix::invocation::{
    effective_executable, prepare_script_args, run_identifier, sandbox_settings, SyscallPolicy,
};
use hyperlight_nanvix::runtime::WorkloadType;
use hyperlight_nanvix::setup::{provision, registry_setup_plan, setup_plan, Provision, SetupPlan};
use hyperlight_nanvix::{RunError, RuntimeConfig, Sandbox};

#[test]
fn run_identifier_is_decimal() {
    assert_eq!(run_identifier(0), "0");
    assert_eq!(run_identifier(7), "7");
    assert_eq!(run_identifier(10), "10");
    assert_eq!(run_identifier(1234567890), "1234567890");
    assert_eq!(run_identifier(1700000000123456789), "1700000000123456789");
    assert_eq!(run_identifier(u128::MAX), u128::MAX.to_string());
}

#[test]
fn script_args_per_kind() {
    assert_eq!(
        prepare_script_args(WorkloadType::JavaScript, "/work/hello.js"),
        Ok(("-m /work/hello.js".to_string(), "hello.js".to_string()))
    );
    assert_eq!(
        prepare_script_args(WorkloadType::Python, "/work/hello.py"),
        Ok(("-S -I /work/hello.py".to_string(), "hello.py".to_string()))
    );
    assert_eq!(
        prepare_script_args(WorkloadType::Binary, "/work/app.elf"),
        Ok((String::new(), "app.elf".to_string()))
    );
}

#[test]
fn script_name_is_the_final_component() {
    assert_eq!(
        prepare_script_args(WorkloadType::JavaScript, "/a/b/c.mjs").unwrap().1,
        "c.mjs".to_string()
    );
    assert_eq!(
        prepare_script_args(WorkloadType::Binary, "/a/b/tool").unwrap().1,
        "tool".to_string()
    );
}

#[test]
fn path_without_name_is_invalid() {
    assert_eq!(
        prepare_script_args(WorkloadType::JavaScript, "/"),
        Err(RunError::InvalidWorkloadPath { path: "/".to_string() })
    );
    assert_eq!(
        prepare_script_args(WorkloadType::Python, "/work/.."),
        Err(RunError::InvalidWorkloadPath { path: "/work/..".to_string() })
    );
    assert_eq!(
        prepare_script_args(WorkloadType::Binary, ""),
        Err(RunError::InvalidWorkloadPath { path: String::new() })
    );
}

#[test]
fn executable_per_kind() {
    assert_eq!(effective_executable(WorkloadType::JavaScript, "/c/bin/qjs", "/w/a.js"), "/c/bin/qjs");
    assert_eq!(effective_executable(WorkloadType::Python, "/c/bin/python3", "/w/a.py"), "bin/python3");
    assert_eq!(effective_executable(WorkloadType::Binary, "", "/w/a.elf"), "/w/a.elf");
}

#[test]
fn settings_hold_fixed_and_configured_paths() {
    let settings = sandbox_settings("/k/kernel.elf", "/logs", "/scratch", SyscallPolicy::Supplied);
    assert_eq!(settings.console_file, Some("/logs/guest-console.log".to_string()));
    assert_eq!(settings.snapshot_source, None);
    assert_eq!(settings.kernel_path, "/k/kernel.elf");
    assert_eq!(settings.syscall_policy, SyscallPolicy::Supplied);
    assert_eq!(settings.toolchain_path, "/tmp/hyperlight-nanvix/toolchain");
    assert_eq!(settings.log_directory, "/logs");
    assert!(!settings.flag);
    assert_eq!(settings.snapshot_path, "/tmp/hyperlight-nanvix/snapshot.bin");
    assert_eq!(settings.tmp_directory, "/scratch");
}

#[test]
fn error_messages() {
    assert_eq!(
        RunError::UnsupportedWorkload { path: "a b.txt".to_string() }.message(),
        "Could not determine workload type for \"a b.txt\""
    );
    assert_eq!(
        RunError::InvalidWorkloadPath { path: "/".to_string() }.message(),
        "Invalid workload path: \"/\""
    );
    assert_eq!(RunError::FetchFailure { message: "f".to_string() }.message(), "f");
    assert_eq!(RunError::DirectoryCreationFailure { message: "d".to_string() }.message(), "d");
    assert_eq!(RunError::ClockFailure { message: "c".to_string() }.message(), "c");
    assert_eq!(RunError::ExecutionFailure { message: "e".to_string() }.message(), "e");
    assert_eq!(RunError::CacheClearFailure { message: "x".to_string() }.message(), "x");
}

#[test]
fn error_message_quotes_and_escapes_the_path() {
    assert_eq!(
        RunError::UnsupportedWorkload { path: "we\"ird\n".to_string() }.message(),
        "Could not determine workload type for \"we\\\"ird\\n\""
    );
}

#[test]
fn error_duplicate_is_equal() {
    let error = RunError::ExecutionFailure { message: "guest crashed".to_string() };
    assert_eq!(error.duplicate(), error);
    let error = RunError::UnsupportedWorkload { path: "x".to_string() };
    assert_eq!(error.duplicate(), error);
}

#[test]
fn default_configuration() {
    let config = RuntimeConfig::new();
    assert_eq!(config.log_directory, "/tmp/hyperlight-nanvix");
    assert_eq!(config.tmp_directory, "/tmp/hyperlight-nanvix");
    assert!(config.syscall_table.is_none());
    let config = RuntimeConfig::default();
    assert_eq!(config.log_directory, "/tmp/hyperlight-nanvix");
    assert_eq!(config.tmp_directory, "/tmp/hyperlight-nanvix");
    assert!(config.syscall_table.is_none());
}

#[test]
fn configuration_clone_keeps_everything() {
    let table = std::sync::Arc::new(5u32);
    let config = RuntimeConfig::new().with_tmp_directory("/t").with_syscall_table(table.clone());
    let copy = config.clone();
    assert_eq!(copy.log_directory, "/tmp/hyperlight-nanvix");
    assert_eq!(copy.tmp_directory, "/t");
    assert!(std::sync::Arc::ptr_eq(copy.syscall_table.as_ref().unwrap(), &table));
    assert_eq!(copy.syscall_policy(), SyscallPolicy::Supplied);
    assert_eq!(RuntimeConfig::new().syscall_policy(), SyscallPolicy::Default);
}

#[test]
fn sandbox_delegates_to_runtime() {
    let table = std::sync::Arc::new(5u32);
    let mut sandbox = Sandbox::new(RuntimeConfig::new().with_syscall_table(table.clone())).unwrap();
    assert!(std::sync::Arc::ptr_eq(&sandbox.syscall_table().unwrap(), &table));
    assert_eq!(sandbox.clear_cache(Ok(())), Ok(()));
    assert_eq!(
        sandbox.clear_cache(Err("busy".to_string())),
        Err(RunError::CacheClearFailure { message: "busy".to_string() })
    );
    let run = sandbox.run("hello.py", Some("/home/user")).unwrap();
    assert_eq!(run.kind, WorkloadType::Python);
    assert_eq!(run.syscall_policy, SyscallPolicy::Supplied);
}

#[test]
fn setup_plan_downloads_what_is_missing() {
    assert_eq!(setup_plan(true, true, true), SetupPlan::AlreadySetUp);
    assert_eq!(
        setup_plan(false, true, true),
        SetupPlan::Provision {
            kernel: Provision::Download,
            qjs: Provision::AlreadyCached,
            python: Provision::AlreadyCached
        }
    );
    assert_eq!(
        setup_plan(true, false, false),
        SetupPlan::Provision {
            kernel: Provision::AlreadyCached,
            qjs: Provision::Download,
            python: Provision::Download
        }
    );
    assert_eq!(
        setup_plan(false, false, false),
        SetupPlan::Provision {
            kernel: Provision::Download,
            qjs: Provision::Download,
            python: Provision::Download
        }
    );
    assert_eq!(provision(true), Provision::AlreadyCached);
    assert_eq!(provision(false), Provision::Download);
}

#[test]
fn setup_of_an_empty_cache_downloads_everything() {
    assert_eq!(
        registry_setup_plan(Some("/surely/not/a/home")),
        SetupPlan::Provision {
            kernel: Provision::Download,
            qjs: Provision::Download,
            python: Provision::Download
        }
    );
}

#[test]
fn binding_options_map_to_configuration() {
    let config = runtime_config(None);
    assert_eq!(config.log_directory, "/tmp/hyperlight-nanvix");
    assert_eq!(config.tmp_directory, "/tmp/hyperlight-nanvix");
    let config = runtime_config(Some(SandboxConfig::new(Some("/l".to_string()), None)));
    assert_eq!(config.log_directory, "/l");
    assert_eq!(config.tmp_directory, "/tmp/hyperlight-nanvix");
    let config = runtime_config(Some(SandboxConfig::new(None, Some("/t".to_string()))));
    assert_eq!(config.log_directory, "/tmp/hyperlight-nanvix");
    assert_eq!(config.tmp_directory, "/t");
    let config =
        runtime_config(Some(SandboxConfig::new(Some("/l".to_string()), Some("/t".to_string()))));
    assert_eq!(config.log_directory, "/l");
    assert_eq!(config.tmp_directory, "/t");
    assert!(config.syscall_table.is_none());
}

#[test]
fn binding_results_capture_failures() {
    assert_eq!(WorkloadResult::from_run(Ok(())), WorkloadResult { success: true, error: None });
    assert_eq!(
        WorkloadResult::from_run(Err(RunError::ExecutionFailure { message: "boom".to_string() })),
        WorkloadResult {
            success: false,
            error: Some("Workload execution failed: boom".to_string())
        }
    );
    assert_eq!(
        WorkloadResult::from_run(Err(RunError::UnsupportedWorkload { path: "x.txt".to_string() })),
        WorkloadResult {
            success: false,
            error: Some(
                "Workload execution failed: Could not determine workload type for \"x.txt\""
                    .to_string()
            )
        }
    );
}

#[test]
fn binding_result_repr() {
    assert_eq!(
        WorkloadResult { success: true, error: None }.repr(),
        "WorkloadResult(success=true)"
    );
    assert_eq!(
        WorkloadResult { success: false, error: Some("boom".to_string()) }.repr(),
        "WorkloadResult(success=false, error='boom')"
    );
}

#[test]
fn binding_clear_cache_and_creation_failure() {
    assert_eq!(cache_cleared(Ok(())), Ok(true));
    assert_eq!(
        cache_cleared(Err(RunError::CacheClearFailure { message: "busy".to_string() })),
        Err("Failed to clear cache: busy".to_string())
    );
    assert_eq!(
        creation_failure(&RunError::FetchFailure { message: "bad".to_string() }),
        "Failed to create runtime: bad"
    );
}
