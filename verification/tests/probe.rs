use limited_run::system_info::get_system_cgroup_info;
use limited_run::system_info::EnvironmentError;

fn lines(items: &[&str]) -> Vec<String> {
    items.iter().map(|s| s.to_string()).collect()
}

#[test]
fn probe_sees_both_versions_and_v2_root() {
    let fs = lines(&["nodev\tcgroup", "nodev\tcgroup2"]);
    let root = lines(&["cgroup.controllers", "cgroup.procs"]);
    let cpu = lines(&[]);
    let info = get_system_cgroup_info(&fs, Some(&root), Some(&cpu)).unwrap();
    assert!(info.support_v1);
    assert!(info.support_v2);
    assert_eq!(info.cgroup_root_ver, 2);
    assert!(info.support_control_cpu);
}

#[test]
fn probe_sees_v1_root_with_cpu_control() {
    let fs = lines(&["nodev\tcgroup"]);
    let root = lines(&["cpu", "memory"]);
    let cpu = lines(&["cpu.cfs_period_us", "cpu.cfs_quota_us"]);
    let info = get_system_cgroup_info(&fs, Some(&root), Some(&cpu)).unwrap();
    assert!(info.support_v1);
    assert!(!info.support_v2);
    assert_eq!(info.cgroup_root_ver, 1);
    assert!(info.support_control_cpu);
}

#[test]
fn probe_sees_v1_root_without_cpu_control() {
    let fs = lines(&["nodev\tcgroup"]);
    let root = lines(&["memory"]);
    let cpu = lines(&["notify_on_release"]);
    let info = get_system_cgroup_info(&fs, Some(&root), Some(&cpu)).unwrap();
    assert_eq!(info.cgroup_root_ver, 1);
    assert!(!info.support_control_cpu);
}

#[test]
fn probe_without_any_cgroup_leaves_version_unset() {
    let fs = lines(&["nodev\tsysfs", "\text4"]);
    let info = get_system_cgroup_info(&fs, None, None).unwrap();
    assert!(!info.support_v1);
    assert!(!info.support_v2);
    assert_eq!(info.cgroup_root_ver, 0);
    assert!(!info.support_control_cpu);
}

#[test]
fn probe_fails_when_root_listing_is_needed_but_missing() {
    let fs = lines(&["nodev\tcgroup2"]);
    let err = get_system_cgroup_info(&fs, None, None).unwrap_err();
    assert_eq!(err, EnvironmentError::RootDirUnreadable);
}

#[test]
fn probe_fails_when_cpu_listing_is_needed_but_missing() {
    let fs = lines(&["nodev\tcgroup"]);
    let root = lines(&["cpu"]);
    let err = get_system_cgroup_info(&fs, Some(&root), None).unwrap_err();
    assert_eq!(err, EnvironmentError::CpuDirUnreadable);
}

#[test]
fn probe_does_not_mistake_cgroup2_for_cgroup() {
    let fs = lines(&["nodev\tcgroup2"]);
    let root = lines(&["cgroup.controllers"]);
    let info = get_system_cgroup_info(&fs, Some(&root), None).unwrap();
    assert!(!info.support_v1);
    assert!(info.support_v2);
    assert_eq!(info.cgroup_root_ver, 2);
}
