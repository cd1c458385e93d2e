use limited_run::args::CpuShare;
use limited_run::common::get_cgroup_v1_control_dir;
use limited_run::common::get_cgroup_v1_tasks_path;
use limited_run::common::CGroupV1SubSystem;
use limited_run::controller::new_cgroup_controller;
use limited_run::controller::CgroupController;
use limited_run::controller::CgroupV1Controller;
use limited_run::controller::CgroupV2Controller;
use limited_run::controller::FsOp;
use limited_run::controller::TeardownAction;
use limited_run::controller::TeardownEvent;
use limited_run::system_info::SystemCgroupInfo;

fn v1_info() -> SystemCgroupInfo {
    SystemCgroupInfo {
        support_v1: true,
        support_v2: false,
        cgroup_root_ver: 1,
        support_control_cpu: true,
    }
}

fn v2_info() -> SystemCgroupInfo {
    SystemCgroupInfo {
        support_v1: false,
        support_v2: true,
        cgroup_root_ver: 2,
        support_control_cpu: true,
    }
}

#[test]
fn fixed_mount_points_are_recorded() {
    let paths = limited_run::common::CgroupPaths::new();
    assert_eq!(paths.root_dir, "/sys/fs/cgroup");
    assert_eq!(paths.v1_cpu_dir, "/sys/fs/cgroup/cpu");
}

#[test]
fn v1_path_helpers_follow_the_naming_scheme() {
    assert_eq!(CGroupV1SubSystem::CPU.get_dir(), "/sys/fs/cgroup/cpu");
    assert_eq!(CGroupV1SubSystem::Memory.get_dir(), "/sys/fs/cgroup/memory");
    assert_eq!(
        get_cgroup_v1_control_dir(CGroupV1SubSystem::CPU, 42),
        "/sys/fs/cgroup/cpu/limited-run/42"
    );
    assert_eq!(
        get_cgroup_v1_tasks_path(CGroupV1SubSystem::Memory, 42),
        "/sys/fs/cgroup/memory/limited-run/42/tasks"
    );
}

#[test]
fn v1_cpu_plan_writes_quota_and_attaches_pid() {
    let mut c = CgroupV1Controller::with_sys_cgroup_info(v1_info());
    c.set_pid(1234);
    let plan = c.set_cpus(CpuShare { quota_us: 50000 });
    assert_eq!(
        plan,
        vec![
            FsOp::CreateDirAll { path: "/sys/fs/cgroup/cpu/limited-run/1234".to_string() },
            FsOp::WriteFile {
                path: "/sys/fs/cgroup/cpu/limited-run/1234/cpu.cfs_quota_us".to_string(),
                content: "50000".to_string(),
            },
            FsOp::WriteFile {
                path: "/sys/fs/cgroup/cpu/limited-run/1234/cgroup.procs".to_string(),
                content: "1234".to_string(),
            },
        ]
    );
}

#[test]
fn v1_memory_plan_forwards_the_limit_verbatim() {
    let mut c = CgroupV1Controller::new();
    c.set_pid(99);
    let plan = c.set_memory("10m".to_string());
    assert_eq!(
        plan,
        vec![
            FsOp::CreateDirAll { path: "/sys/fs/cgroup/memory/limited-run/99".to_string() },
            FsOp::WriteFile {
                path: "/sys/fs/cgroup/memory/limited-run/99/memory.limit_in_bytes".to_string(),
                content: "10m".to_string(),
            },
            FsOp::WriteFile {
                path: "/sys/fs/cgroup/memory/limited-run/99/cgroup.procs".to_string(),
                content: "99".to_string(),
            },
        ]
    );
}

#[test]
fn v2_cpu_plan_writes_quota_with_period() {
    let mut c = CgroupV2Controller::with_sys_cgroup_info(v2_info());
    c.set_pid(77);
    let plan = c.set_cpus(CpuShare { quota_us: 50000 });
    assert_eq!(
        plan,
        vec![
            FsOp::CreateDirAll {
                path: "/sys/fs/cgroup/system.slice/limited-run-77.scope".to_string()
            },
            FsOp::WriteFile {
                path: "/sys/fs/cgroup/system.slice/limited-run-77.scope/cgroup.procs".to_string(),
                content: "77".to_string(),
            },
            FsOp::WriteFile {
                path: "/sys/fs/cgroup/system.slice/limited-run-77.scope/cpu.max".to_string(),
                content: "50000 100000".to_string(),
            },
        ]
    );
}

#[test]
fn v2_memory_plan_forwards_the_limit_verbatim() {
    let mut c = CgroupV2Controller::new();
    c.set_pid(8);
    let plan = c.set_memory("2g".to_string());
    assert_eq!(
        plan,
        vec![
            FsOp::CreateDirAll {
                path: "/sys/fs/cgroup/system.slice/limited-run-8.scope".to_string()
            },
            FsOp::WriteFile {
                path: "/sys/fs/cgroup/system.slice/limited-run-8.scope/cgroup.procs".to_string(),
                content: "8".to_string(),
            },
            FsOp::WriteFile {
                path: "/sys/fs/cgroup/system.slice/limited-run-8.scope/memory.max".to_string(),
                content: "2g".to_string(),
            },
        ]
    );
}

#[test]
fn v1_teardown_with_nothing_activated_is_a_noop() {
    let mut c = CgroupV1Controller::new();
    c.set_pid(5);
    assert_eq!(c.teardown_step(TeardownEvent::Begin), TeardownAction::Done);
}

#[test]
fn v2_teardown_with_nothing_activated_is_a_noop() {
    let mut c = CgroupV2Controller::new();
    c.set_pid(5);
    assert_eq!(c.teardown_step(TeardownEvent::Begin), TeardownAction::Done);
}

#[test]
fn v1_teardown_polls_until_empty_before_removing() {
    let mut c = CgroupV1Controller::new();
    c.set_pid(321);
    let _ = c.set_cpus(CpuShare { quota_us: 100000 });
    let procs = TeardownAction::ReadProcs {
        path: "/sys/fs/cgroup/cpu/limited-run/321/cgroup.procs".to_string(),
    };
    assert_eq!(c.teardown_step(TeardownEvent::Begin), procs);
    assert_eq!(c.teardown_step(TeardownEvent::ProcsRead { empty: false }), procs);
    assert_eq!(c.teardown_step(TeardownEvent::ProcsRead { empty: false }), procs);
    assert_eq!(c.teardown_step(TeardownEvent::ProcsRead { empty: false }), procs);
    assert_eq!(
        c.teardown_step(TeardownEvent::ProcsRead { empty: true }),
        TeardownAction::RemoveDir { path: "/sys/fs/cgroup/cpu/limited-run/321".to_string() }
    );
    assert_eq!(c.teardown_step(TeardownEvent::Removed), TeardownAction::Done);
}

#[test]
fn v1_teardown_cleans_cpu_before_memory() {
    let mut c = CgroupV1Controller::new();
    c.set_pid(6);
    let _ = c.set_cpus(CpuShare { quota_us: 200000 });
    let _ = c.set_memory("1g".to_string());
    assert_eq!(
        c.teardown_step(TeardownEvent::Begin),
        TeardownAction::ReadProcs {
            path: "/sys/fs/cgroup/cpu/limited-run/6/cgroup.procs".to_string()
        }
    );
    assert_eq!(
        c.teardown_step(TeardownEvent::ProcsRead { empty: true }),
        TeardownAction::RemoveDir { path: "/sys/fs/cgroup/cpu/limited-run/6".to_string() }
    );
    assert_eq!(
        c.teardown_step(TeardownEvent::Removed),
        TeardownAction::ReadProcs {
            path: "/sys/fs/cgroup/memory/limited-run/6/cgroup.procs".to_string()
        }
    );
    assert_eq!(
        c.teardown_step(TeardownEvent::ProcsRead { empty: true }),
        TeardownAction::RemoveDir { path: "/sys/fs/cgroup/memory/limited-run/6".to_string() }
    );
    assert_eq!(c.teardown_step(TeardownEvent::Removed), TeardownAction::Done);
}

#[test]
fn v1_teardown_moves_past_an_unreadable_membership_file() {
    let mut c = CgroupV1Controller::new();
    c.set_pid(13);
    let _ = c.set_cpus(CpuShare { quota_us: 50000 });
    let _ = c.set_memory("1g".to_string());
    assert_eq!(
        c.teardown_step(TeardownEvent::Begin),
        TeardownAction::ReadProcs {
            path: "/sys/fs/cgroup/cpu/limited-run/13/cgroup.procs".to_string()
        }
    );
    // the CPU group's membership cannot be read: it is given up, never
    // removed blind, and the memory group is still cleaned
    assert_eq!(
        c.teardown_step(TeardownEvent::ProcsReadFailed),
        TeardownAction::ReadProcs {
            path: "/sys/fs/cgroup/memory/limited-run/13/cgroup.procs".to_string()
        }
    );
    assert_eq!(
        c.teardown_step(TeardownEvent::ProcsRead { empty: true }),
        TeardownAction::RemoveDir { path: "/sys/fs/cgroup/memory/limited-run/13".to_string() }
    );
    assert_eq!(c.teardown_step(TeardownEvent::Removed), TeardownAction::Done);
}

#[test]
fn v1_teardown_moves_past_a_failed_removal() {
    let mut c = CgroupV1Controller::new();
    c.set_pid(14);
    let _ = c.set_cpus(CpuShare { quota_us: 50000 });
    let _ = c.set_memory("1g".to_string());
    let _ = c.teardown_step(TeardownEvent::Begin);
    let _ = c.teardown_step(TeardownEvent::ProcsRead { empty: true });
    // the CPU group's removal failed: the memory group is still cleaned
    assert_eq!(
        c.teardown_step(TeardownEvent::RemoveFailed),
        TeardownAction::ReadProcs {
            path: "/sys/fs/cgroup/memory/limited-run/14/cgroup.procs".to_string()
        }
    );
    let _ = c.teardown_step(TeardownEvent::ProcsRead { empty: true });
    assert_eq!(c.teardown_step(TeardownEvent::RemoveFailed), TeardownAction::Done);
}

#[test]
fn v2_teardown_finishes_after_a_failed_read_or_removal() {
    let mut c = CgroupV2Controller::new();
    c.set_pid(15);
    let _ = c.set_memory("1g".to_string());
    let _ = c.teardown_step(TeardownEvent::Begin);
    assert_eq!(c.teardown_step(TeardownEvent::ProcsReadFailed), TeardownAction::Done);

    let mut d = CgroupV2Controller::new();
    d.set_pid(16);
    let _ = d.set_memory("1g".to_string());
    let _ = d.teardown_step(TeardownEvent::Begin);
    let _ = d.teardown_step(TeardownEvent::ProcsRead { empty: true });
    assert_eq!(d.teardown_step(TeardownEvent::RemoveFailed), TeardownAction::Done);
}

#[test]
fn v2_teardown_polls_until_empty_before_removing() {
    let mut c = CgroupV2Controller::new();
    c.set_pid(11);
    let _ = c.set_memory("512m".to_string());
    let procs = TeardownAction::ReadProcs {
        path: "/sys/fs/cgroup/system.slice/limited-run-11.scope/cgroup.procs".to_string(),
    };
    assert_eq!(c.teardown_step(TeardownEvent::Begin), procs);
    assert_eq!(c.teardown_step(TeardownEvent::ProcsRead { empty: false }), procs);
    assert_eq!(
        c.teardown_step(TeardownEvent::ProcsRead { empty: true }),
        TeardownAction::RemoveDir {
            path: "/sys/fs/cgroup/system.slice/limited-run-11.scope".to_string()
        }
    );
    assert_eq!(c.teardown_step(TeardownEvent::Removed), TeardownAction::Done);
}

#[test]
fn controller_selection_follows_root_version() {
    match new_cgroup_controller(v1_info()) {
        CgroupController::V1(c) => assert_eq!(c.sys_cgroup_info, v1_info()),
        CgroupController::V2(_) => panic!("expected the v1 controller"),
    }
    match new_cgroup_controller(v2_info()) {
        CgroupController::V2(c) => assert_eq!(c.sys_cgroup_info, v2_info()),
        CgroupController::V1(_) => panic!("expected the v2 controller"),
    }
}
