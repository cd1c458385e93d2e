use limited_run::args::cpus_parser;
use limited_run::args::ResourceRequest;
use limited_run::controller::FsOp;
use limited_run::controller::TeardownAction;
use limited_run::controller::TeardownEvent;
use limited_run::system_info::SystemCgroupInfo;
use limited_run::App;
use limited_run::Phase;
use limited_run::SetupError;
use limited_run::WaitStep;

fn v1_host() -> SystemCgroupInfo {
    SystemCgroupInfo {
        support_v1: true,
        support_v2: false,
        cgroup_root_ver: 1,
        support_control_cpu: true,
    }
}

#[test]
fn scenario_half_cpu_on_v1_host_runs_to_cleanup() {
    let request = ResourceRequest {
        cpus: Some(cpus_parser("0.5").unwrap()),
        memory: None,
        commands: vec!["true".to_string()],
    };
    let mut app = App::new(request, v1_host()).unwrap();
    assert_eq!(app.phase, Phase::Created);

    let plan = app.on_spawned(4321);
    assert_eq!(app.phase, Phase::Running);
    assert_eq!(
        plan,
        vec![
            FsOp::CreateDirAll { path: "/sys/fs/cgroup/cpu/limited-run/4321".to_string() },
            FsOp::WriteFile {
                path: "/sys/fs/cgroup/cpu/limited-run/4321/cpu.cfs_quota_us".to_string(),
                content: "50000".to_string(),
            },
            FsOp::WriteFile {
                path: "/sys/fs/cgroup/cpu/limited-run/4321/cgroup.procs".to_string(),
                content: "4321".to_string(),
            },
        ]
    );

    assert_eq!(app.on_child_event(false, false), WaitStep::KeepWaiting);
    assert_eq!(app.phase, Phase::Running);
    assert_eq!(app.on_child_event(false, true), WaitStep::Proceed);
    assert_eq!(app.phase, Phase::Completed);

    assert_eq!(
        app.teardown_step(TeardownEvent::Begin),
        TeardownAction::ReadProcs {
            path: "/sys/fs/cgroup/cpu/limited-run/4321/cgroup.procs".to_string()
        }
    );
    assert_eq!(
        app.teardown_step(TeardownEvent::ProcsRead { empty: false }),
        TeardownAction::ReadProcs {
            path: "/sys/fs/cgroup/cpu/limited-run/4321/cgroup.procs".to_string()
        }
    );
    assert_eq!(
        app.teardown_step(TeardownEvent::ProcsRead { empty: true }),
        TeardownAction::RemoveDir { path: "/sys/fs/cgroup/cpu/limited-run/4321".to_string() }
    );
    assert_eq!(app.teardown_step(TeardownEvent::Removed), TeardownAction::Done);
    assert_eq!(app.phase, Phase::CleanedUp);
}

#[test]
fn scenario_cpu_request_on_host_without_cpu_control_aborts_before_spawn() {
    let request = ResourceRequest {
        cpus: Some(cpus_parser("1").unwrap()),
        memory: None,
        commands: vec!["true".to_string()],
    };
    let host = SystemCgroupInfo { support_control_cpu: false, ..v1_host() };
    assert_eq!(App::new(request, host).unwrap_err(), SetupError::UnsupportedRequest);
}

#[test]
fn scenario_interrupt_kills_child_and_still_tears_down() {
    let request = ResourceRequest {
        cpus: Some(cpus_parser("0.5").unwrap()),
        memory: None,
        commands: vec!["sleep".to_string(), "60".to_string()],
    };
    let mut app = App::new(request, v1_host()).unwrap();
    let _plan = app.on_spawned(555);

    assert_eq!(app.on_child_event(true, false), WaitStep::KillChild);
    assert_eq!(app.phase, Phase::Terminated);

    assert_eq!(
        app.teardown_step(TeardownEvent::Begin),
        TeardownAction::ReadProcs {
            path: "/sys/fs/cgroup/cpu/limited-run/555/cgroup.procs".to_string()
        }
    );
    assert_eq!(
        app.teardown_step(TeardownEvent::ProcsRead { empty: true }),
        TeardownAction::RemoveDir { path: "/sys/fs/cgroup/cpu/limited-run/555".to_string() }
    );
    assert_eq!(app.teardown_step(TeardownEvent::Removed), TeardownAction::Done);
    assert_eq!(app.phase, Phase::CleanedUp);
}

#[test]
fn unknown_root_version_is_rejected() {
    let request = ResourceRequest {
        cpus: None,
        memory: None,
        commands: vec!["true".to_string()],
    };
    let host = SystemCgroupInfo {
        support_v1: false,
        support_v2: false,
        cgroup_root_ver: 0,
        support_control_cpu: false,
    };
    assert_eq!(App::new(request, host).unwrap_err(), SetupError::InvalidRootVersion);
}

#[test]
fn run_without_limits_plans_nothing_and_cleans_up_at_once() {
    let request = ResourceRequest {
        cpus: None,
        memory: None,
        commands: vec!["true".to_string()],
    };
    let mut app = App::new(request, v1_host()).unwrap();
    let plan = app.on_spawned(9);
    assert!(plan.is_empty());
    assert_eq!(app.on_child_event(false, true), WaitStep::Proceed);
    assert_eq!(app.teardown_step(TeardownEvent::Begin), TeardownAction::Done);
    assert_eq!(app.phase, Phase::CleanedUp);
}

#[test]
fn teardown_failure_still_reaches_cleanup() {
    let request = ResourceRequest {
        cpus: Some(cpus_parser("0.5").unwrap()),
        memory: None,
        commands: vec!["true".to_string()],
    };
    let mut app = App::new(request, v1_host()).unwrap();
    let _plan = app.on_spawned(42);
    assert_eq!(app.on_child_event(false, true), WaitStep::Proceed);
    let _ = app.teardown_step(TeardownEvent::Begin);
    let _ = app.teardown_step(TeardownEvent::ProcsRead { empty: true });
    // the removal failed: the run still ends cleaned up, never aborted
    assert_eq!(app.teardown_step(TeardownEvent::RemoveFailed), TeardownAction::Done);
    assert_eq!(app.phase, Phase::CleanedUp);
}

#[test]
fn memory_limit_runs_through_both_groups_on_v1() {
    let request = ResourceRequest {
        cpus: Some(cpus_parser("0.25").unwrap()),
        memory: Some("10m".to_string()),
        commands: vec!["true".to_string()],
    };
    let mut app = App::new(request, v1_host()).unwrap();
    let plan = app.on_spawned(70);
    assert_eq!(plan.len(), 6);
    assert_eq!(
        plan[1],
        FsOp::WriteFile {
            path: "/sys/fs/cgroup/cpu/limited-run/70/cpu.cfs_quota_us".to_string(),
            content: "25000".to_string(),
        }
    );
    assert_eq!(
        plan[4],
        FsOp::WriteFile {
            path: "/sys/fs/cgroup/memory/limited-run/70/memory.limit_in_bytes".to_string(),
            content: "10m".to_string(),
        }
    );
}
