use hyperlight_nanvix::invocation::{SocketType, SyscallPolicy};
use hyperlight_nanvix::runtime::{Runtime, WorkloadType};
use hyperlight_nanvix::{Action, Event, Phase, RunContext, RunError, RuntimeConfig};
use std::sync::Arc;

fn started(path: &str) -> RunContext {
    let runtime = Runtime::new(RuntimeConfig::new()).unwrap();
    runtime.run(path, Some("/home/user")).unwrap()
}

fn after(run: RunContext, events: Vec<Event>) -> RunContext {
    let mut run = run;
    for event in events {
        run = run.advance(event);
    }
    run
}

fn resolved_from_cache() -> Vec<Event> {
    vec![
        Event::CacheProbed { present: true },
        Event::CacheProbed { present: true },
        Event::DirectoryCreated,
        Event::DirectoryCreated,
    ]
}

#[test]
fn javascript_run_from_cache() {
    let run = started("hello.js");
    assert_eq!(run.kind, WorkloadType::JavaScript);
    assert_eq!(
        run.action(),
        Action::ProbeCache { path: "/home/user/.cache/nanvix-registry/bin/qjs".to_string() }
    );
    let run = run.advance(Event::CacheProbed { present: true });
    assert_eq!(run.interpreter_path, "/home/user/.cache/nanvix-registry/bin/qjs");
    assert_eq!(
        run.action(),
        Action::ProbeCache { path: "/home/user/.cache/nanvix-registry/bin/kernel.elf".to_string() }
    );
    let run = run.advance(Event::CacheProbed { present: true });
    assert_eq!(run.kernel_path, "/home/user/.cache/nanvix-registry/bin/kernel.elf");
    assert_eq!(
        run.action(),
        Action::CreateDirectory { path: "/tmp/hyperlight-nanvix".to_string() }
    );
    let run = run.advance(Event::DirectoryCreated);
    assert_eq!(
        run.action(),
        Action::CreateDirectory { path: "/tmp/hyperlight-nanvix".to_string() }
    );
    let run = run.advance(Event::DirectoryCreated);
    assert_eq!(run.action(), Action::Canonicalize { path: "hello.js".to_string() });
    let run = run.advance(Event::Canonicalized { resolved: Some("/work/hello.js".to_string()) });
    assert_eq!(run.action(), Action::ReadClock);
    let run = run.advance(Event::ClockRead { nanos: 1700000000123456789 });
    match run.action() {
        Action::Execute { invocation } => {
            assert_eq!(invocation.script_name, "hello.js");
            assert_eq!(invocation.run_id, "1700000000123456789");
            assert_eq!(invocation.executable, "/home/user/.cache/nanvix-registry/bin/qjs");
            assert_eq!(invocation.arguments, "-m /work/hello.js");
            let settings = invocation.settings;
            assert_eq!(settings.control_socket, SocketType::Unix);
            assert_eq!(settings.console_socket, SocketType::Unix);
            assert_eq!(settings.data_socket, SocketType::Unix);
            assert_eq!(
                settings.console_file,
                Some("/tmp/hyperlight-nanvix/guest-console.log".to_string())
            );
            assert_eq!(settings.snapshot_source, None);
            assert_eq!(settings.kernel_path, "/home/user/.cache/nanvix-registry/bin/kernel.elf");
            assert_eq!(settings.syscall_policy, SyscallPolicy::Default);
            assert_eq!(settings.toolchain_path, "/tmp/hyperlight-nanvix/toolchain");
            assert_eq!(settings.log_directory, "/tmp/hyperlight-nanvix");
            assert!(!settings.flag);
            assert_eq!(settings.snapshot_path, "/tmp/hyperlight-nanvix/snapshot.bin");
            assert_eq!(settings.tmp_directory, "/tmp/hyperlight-nanvix");
        }
        other => panic!("expected an execution, got {:?}", other),
    }
    let run = run.advance(Event::Executed);
    assert_eq!(run.action(), Action::Finish { result: Ok(()) });
}

#[test]
fn missing_binaries_are_fetched() {
    let run = started("hello.js").advance(Event::CacheProbed { present: false });
    assert_eq!(
        run.action(),
        Action::FetchBinary {
            machine_type: "hyperlight".to_string(),
            deployment_type: "single-process".to_string(),
            binary_name: "qjs".to_string(),
        }
    );
    let run = run.advance(Event::BinaryFetched { path: "/registry/bin/qjs".to_string() });
    assert_eq!(run.interpreter_path, "/registry/bin/qjs");
    let run = run.advance(Event::CacheProbed { present: false });
    assert_eq!(
        run.action(),
        Action::FetchBinary {
            machine_type: "hyperlight".to_string(),
            deployment_type: "single-process".to_string(),
            binary_name: "kernel.elf".to_string(),
        }
    );
    let run = run.advance(Event::BinaryFetched { path: "/registry/bin/kernel.elf".to_string() });
    assert_eq!(run.kernel_path, "/registry/bin/kernel.elf");
    assert_eq!(run.phase, Phase::TmpDirectory);
}

#[test]
fn python_run_fetches_python3() {
    let run = started("hello.py").advance(Event::CacheProbed { present: false });
    assert_eq!(
        run.action(),
        Action::FetchBinary {
            machine_type: "hyperlight".to_string(),
            deployment_type: "single-process".to_string(),
            binary_name: "python3".to_string(),
        }
    );
}

#[test]
fn fetch_failure_ends_the_run() {
    let run = started("hello.js")
        .advance(Event::CacheProbed { present: false })
        .advance(Event::BinaryFetchFailed { message: "registry unreachable".to_string() });
    assert_eq!(
        run.action(),
        Action::Finish {
            result: Err(RunError::FetchFailure { message: "registry unreachable".to_string() })
        }
    );
    let run = after(
        started("hello.js"),
        vec![
            Event::CacheProbed { present: true },
            Event::CacheProbed { present: false },
            Event::BinaryFetchFailed { message: "no kernel".to_string() },
        ],
    );
    assert_eq!(
        run.action(),
        Action::Finish { result: Err(RunError::FetchFailure { message: "no kernel".to_string() }) }
    );
}

#[test]
fn directory_failure_ends_the_run() {
    let mut events = vec![Event::CacheProbed { present: true }, Event::CacheProbed { present: true }];
    events.push(Event::DirectoryCreationFailed { message: "not a directory".to_string() });
    let run = after(started("hello.js"), events);
    assert_eq!(
        run.action(),
        Action::Finish {
            result: Err(RunError::DirectoryCreationFailure {
                message: "not a directory".to_string()
            })
        }
    );
    let mut events = vec![Event::CacheProbed { present: true }, Event::CacheProbed { present: true }];
    events.push(Event::DirectoryCreated);
    events.push(Event::DirectoryCreationFailed { message: "read-only".to_string() });
    let run = after(started("hello.js"), events);
    assert_eq!(
        run.action(),
        Action::Finish {
            result: Err(RunError::DirectoryCreationFailure { message: "read-only".to_string() })
        }
    );
}

#[test]
fn configured_directories_are_created_tmp_first() {
    let config =
        RuntimeConfig::new().with_log_directory("/custom/log").with_tmp_directory("/custom/tmp");
    let runtime = Runtime::new(config).unwrap();
    let run = runtime.run("hello.js", Some("/home/user")).unwrap();
    let run = after(
        run,
        vec![Event::CacheProbed { present: true }, Event::CacheProbed { present: true }],
    );
    assert_eq!(run.action(), Action::CreateDirectory { path: "/custom/tmp".to_string() });
    let run = run.advance(Event::DirectoryCreated);
    assert_eq!(run.action(), Action::CreateDirectory { path: "/custom/log".to_string() });
    let run = after(
        run,
        vec![
            Event::DirectoryCreated,
            Event::Canonicalized { resolved: Some("/work/hello.js".to_string()) },
            Event::ClockRead { nanos: 5 },
        ],
    );
    match run.action() {
        Action::Execute { invocation } => {
            assert_eq!(
                invocation.settings.console_file,
                Some("/custom/log/guest-console.log".to_string())
            );
            assert_eq!(invocation.settings.log_directory, "/custom/log");
            assert_eq!(invocation.settings.tmp_directory, "/custom/tmp");
            assert_eq!(invocation.run_id, "5");
        }
        other => panic!("expected an execution, got {:?}", other),
    }
}

#[test]
fn unresolvable_path_falls_back_to_current_directory() {
    let mut events = resolved_from_cache();
    events.push(Event::Canonicalized { resolved: None });
    let run = after(started("scripts/hello.js"), events);
    assert_eq!(run.action(), Action::QueryDirectory);
    let run = run.advance(Event::DirectoryQueried { directory: Some("/work".to_string()) });
    assert_eq!(run.absolute_path, "/work/scripts/hello.js");
    assert_eq!(run.action(), Action::ReadClock);
}

#[test]
fn fallback_without_current_directory_keeps_the_path() {
    let mut events = resolved_from_cache();
    events.push(Event::Canonicalized { resolved: None });
    events.push(Event::DirectoryQueried { directory: None });
    let run = after(started("scripts/hello.js"), events);
    assert_eq!(run.absolute_path, "scripts/hello.js");
    assert_eq!(run.script_name, "hello.js");
}

#[test]
fn python_run_enters_and_leaves_install_directory() {
    let mut events = resolved_from_cache();
    events.push(Event::Canonicalized { resolved: Some("/work/hello.py".to_string()) });
    let run = after(started("hello.py"), events);
    assert_eq!(run.action(), Action::QueryDirectory);
    let run = run.advance(Event::DirectoryQueried { directory: Some("/work".to_string()) });
    assert_eq!(
        run.action(),
        Action::ChangeDirectory { path: "/home/user/.cache/nanvix-registry".to_string() }
    );
    let run = run.advance(Event::DirectoryChanged { changed: true });
    assert_eq!(run.action(), Action::ReadClock);
    let run = run.advance(Event::ClockRead { nanos: 42 });
    match run.action() {
        Action::Execute { invocation } => {
            assert_eq!(invocation.executable, "bin/python3");
            assert_eq!(invocation.arguments, "-S -I /work/hello.py");
            assert_eq!(invocation.script_name, "hello.py");
            assert_eq!(invocation.run_id, "42");
        }
        other => panic!("expected an execution, got {:?}", other),
    }
    let run = run.advance(Event::Executed);
    assert_eq!(run.action(), Action::ChangeDirectory { path: "/work".to_string() });
    let run = run.advance(Event::DirectoryChanged { changed: true });
    assert_eq!(run.action(), Action::Finish { result: Ok(()) });
}

#[test]
fn python_run_restores_directory_after_failed_execution() {
    let mut events = resolved_from_cache();
    events.push(Event::Canonicalized { resolved: Some("/work/hello.py".to_string()) });
    events.push(Event::DirectoryQueried { directory: Some("/work".to_string()) });
    events.push(Event::DirectoryChanged { changed: true });
    events.push(Event::ClockRead { nanos: 42 });
    events.push(Event::ExecutionFailed { message: "guest crashed".to_string() });
    let run = after(started("hello.py"), events);
    assert_eq!(run.action(), Action::ChangeDirectory { path: "/work".to_string() });
    let run = run.advance(Event::DirectoryChanged { changed: false });
    assert_eq!(
        run.action(),
        Action::Finish {
            result: Err(RunError::ExecutionFailure { message: "guest crashed".to_string() })
        }
    );
}

#[test]
fn failed_directory_change_is_not_fatal_and_not_restored() {
    let mut events = resolved_from_cache();
    events.push(Event::Canonicalized { resolved: Some("/work/hello.py".to_string()) });
    events.push(Event::DirectoryQueried { directory: Some("/work".to_string()) });
    events.push(Event::DirectoryChanged { changed: false });
    let run = after(started("hello.py"), events);
    assert_eq!(run.action(), Action::ReadClock);
    let run = after(run, vec![Event::ClockRead { nanos: 1 }, Event::Executed]);
    assert_eq!(run.action(), Action::Finish { result: Ok(()) });
}

#[test]
fn python_run_without_known_directory_is_not_restored() {
    let mut events = resolved_from_cache();
    events.push(Event::Canonicalized { resolved: Some("/work/hello.py".to_string()) });
    events.push(Event::DirectoryQueried { directory: None });
    events.push(Event::DirectoryChanged { changed: true });
    events.push(Event::ClockRead { nanos: 1 });
    events.push(Event::Executed);
    let run = after(started("hello.py"), events);
    assert_eq!(run.action(), Action::Finish { result: Ok(()) });
}

#[test]
fn python_run_without_install_directory_stays_where_it_is() {
    let run = after(
        started("hello.py"),
        vec![
            Event::CacheProbed { present: false },
            Event::BinaryFetched { path: "python3".to_string() },
            Event::CacheProbed { present: true },
            Event::DirectoryCreated,
            Event::DirectoryCreated,
            Event::Canonicalized { resolved: Some("/work/hello.py".to_string()) },
            Event::DirectoryQueried { directory: Some("/work".to_string()) },
        ],
    );
    assert_eq!(run.action(), Action::ReadClock);
    let run = after(run, vec![Event::ClockRead { nanos: 1 }, Event::Executed]);
    assert_eq!(run.action(), Action::Finish { result: Ok(()) });
}

#[test]
fn binary_run_never_looks_for_an_interpreter() {
    let mut run = started("app.elf");
    assert_eq!(run.kind, WorkloadType::Binary);
    assert_eq!(
        run.action(),
        Action::ProbeCache { path: "/home/user/.cache/nanvix-registry/bin/kernel.elf".to_string() }
    );
    let events = vec![
        Event::CacheProbed { present: false },
        Event::BinaryFetched { path: "/registry/bin/kernel.elf".to_string() },
        Event::DirectoryCreated,
        Event::DirectoryCreated,
        Event::Canonicalized { resolved: Some("/work/app.elf".to_string()) },
        Event::ClockRead { nanos: 7 },
    ];
    for event in events {
        run = run.advance(event);
        match run.action() {
            Action::ProbeCache { path } => assert!(path.ends_with("/bin/kernel.elf")),
            Action::FetchBinary { binary_name, .. } => assert_eq!(binary_name, "kernel.elf"),
            Action::ChangeDirectory { .. } => panic!("a binary run changes no directory"),
            _ => {}
        }
    }
    assert_eq!(run.interpreter_path, "");
    match run.action() {
        Action::Execute { invocation } => {
            assert_eq!(invocation.executable, "/work/app.elf");
            assert_eq!(invocation.arguments, "");
            assert_eq!(invocation.script_name, "app.elf");
            assert_eq!(invocation.settings.kernel_path, "/registry/bin/kernel.elf");
        }
        other => panic!("expected an execution, got {:?}", other),
    }
}

#[test]
fn unknown_workload_is_rejected_before_any_work() {
    let runtime = Runtime::new(RuntimeConfig::new()).unwrap();
    let result = runtime.run("nonexistent.unknown", Some("/home/user"));
    assert_eq!(
        result,
        Err(RunError::UnsupportedWorkload { path: "nonexistent.unknown".to_string() })
    );
    let result = runtime.start(None, "anything", None);
    assert_eq!(result, Err(RunError::UnsupportedWorkload { path: "anything".to_string() }));
}

#[test]
fn clock_failure_ends_the_run() {
    let mut events = resolved_from_cache();
    events.push(Event::Canonicalized { resolved: Some("/work/hello.js".to_string()) });
    events.push(Event::ClockFailed { message: "time went backwards".to_string() });
    let run = after(started("hello.js"), events);
    assert_eq!(
        run.action(),
        Action::Finish {
            result: Err(RunError::ClockFailure { message: "time went backwards".to_string() })
        }
    );
}

#[test]
fn path_without_final_component_is_rejected() {
    let mut events = resolved_from_cache();
    events.push(Event::Canonicalized { resolved: Some("/".to_string()) });
    let run = after(started("link.js"), events);
    assert_eq!(
        run.action(),
        Action::Finish { result: Err(RunError::InvalidWorkloadPath { path: "/".to_string() }) }
    );
}

#[test]
fn python_failure_after_entering_is_followed_by_restore() {
    let mut events = resolved_from_cache();
    events.push(Event::Canonicalized { resolved: Some("/work/hello.py".to_string()) });
    events.push(Event::DirectoryQueried { directory: Some("/work".to_string()) });
    events.push(Event::DirectoryChanged { changed: true });
    events.push(Event::ClockFailed { message: "no clock".to_string() });
    let run = after(started("hello.py"), events);
    assert_eq!(run.action(), Action::ChangeDirectory { path: "/work".to_string() });
    let run = run.advance(Event::DirectoryChanged { changed: true });
    assert_eq!(
        run.action(),
        Action::Finish { result: Err(RunError::ClockFailure { message: "no clock".to_string() }) }
    );
}

#[test]
fn unexpected_event_leaves_the_run_unchanged() {
    let run = started("hello.js");
    let run = run.advance(Event::Executed);
    assert_eq!(run.phase, Phase::InterpreterProbe);
    let run = run.advance(Event::DirectoryCreated);
    assert_eq!(run.phase, Phase::InterpreterProbe);
    assert_eq!(
        run.action(),
        Action::ProbeCache { path: "/home/user/.cache/nanvix-registry/bin/qjs".to_string() }
    );
}

#[test]
fn finished_run_stays_finished() {
    let run = started("hello.js")
        .advance(Event::CacheProbed { present: false })
        .advance(Event::BinaryFetchFailed { message: "down".to_string() });
    assert_eq!(run.phase, Phase::Done);
    let run = after(
        run,
        vec![Event::CacheProbed { present: true }, Event::Executed, Event::DirectoryCreated],
    );
    assert_eq!(run.phase, Phase::Done);
    assert_eq!(
        run.action(),
        Action::Finish { result: Err(RunError::FetchFailure { message: "down".to_string() }) }
    );
}

#[test]
fn supplied_syscall_table_is_shared_with_the_run() {
    let table = Arc::new(vec![1u8, 2, 3]);
    let config = RuntimeConfig::new().with_syscall_table(table.clone());
    let runtime = Runtime::new(config).unwrap();
    let shared = runtime.syscall_table().unwrap();
    assert!(Arc::ptr_eq(&shared, &table));
    let run = runtime.run("hello.js", None).unwrap();
    assert_eq!(run.syscall_policy, SyscallPolicy::Supplied);
    let plain = Runtime::new(RuntimeConfig::new()).unwrap();
    assert!(plain.syscall_table().is_none());
    assert_eq!(plain.run("hello.js", None).unwrap().syscall_policy, SyscallPolicy::Default);
}

#[test]
fn run_without_home_uses_current_directory_cache() {
    let runtime = Runtime::new(RuntimeConfig::new()).unwrap();
    let run = runtime.run("hello.js", None).unwrap();
    assert_eq!(
        run.action(),
        Action::ProbeCache { path: "./.cache/nanvix-registry/bin/qjs".to_string() }
    );
}

#[test]
fn clear_cache_passes_the_outcome_on() {
    let runtime = Runtime::new(RuntimeConfig::new()).unwrap();
    assert_eq!(runtime.clear_cache(Ok(())), Ok(()));
    assert_eq!(runtime.clear_cache(Ok(())), Ok(()));
    assert_eq!(
        runtime.clear_cache(Err("permission denied".to_string())),
        Err(RunError::CacheClearFailure { message: "permission denied".to_string() })
    );
}

#[test]
fn after_a_cleared_cache_the_next_run_fetches() {
    let run = after(
        started("hello.py"),
        vec![
            Event::CacheProbed { present: false },
            Event::BinaryFetched { path: "/registry/bin/python3".to_string() },
            Event::CacheProbed { present: false },
        ],
    );
    assert_eq!(
        run.action(),
        Action::FetchBinary {
            machine_type: "hyperlight".to_string(),
            deployment_type: "single-process".to_string(),
            binary_name: "kernel.elf".to_string(),
        }
    );
}

#[test]
fn only_python_runs_change_the_directory() {
    assert!(started("hello.py").changes_directory());
    assert!(!started("hello.js").changes_directory());
    assert!(!started("app.elf").changes_directory());
}

#[test]
fn longest_run_takes_thirteen_steps() {
    let events = vec![
        Event::CacheProbed { present: false },
        Event::BinaryFetched { path: "/registry/bin/python3".to_string() },
        Event::CacheProbed { present: false },
        Event::BinaryFetched { path: "/registry/bin/kernel.elf".to_string() },
        Event::DirectoryCreated,
        Event::DirectoryCreated,
        Event::Canonicalized { resolved: None },
        Event::DirectoryQueried { directory: Some("/work".to_string()) },
        Event::DirectoryQueried { directory: Some("/work".to_string()) },
        Event::DirectoryChanged { changed: true },
        Event::ClockRead { nanos: 9 },
        Event::Executed,
        Event::DirectoryChanged { changed: true },
    ];
    let mut run = started("hello.py");
    let mut steps = 0;
    for event in events {
        assert!(!matches!(run.action(), Action::Finish { .. }));
        run = run.advance(event);
        steps += 1;
    }
    assert_eq!(steps, 13);
    assert_eq!(run.action(), Action::Finish { result: Ok(()) });
    assert_eq!(run.absolute_path, "/work/hello.py");
}
