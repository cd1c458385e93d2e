use vstd::prelude::*;

use crate::text::ends_with;
use crate::text::str_ends_with;
use crate::text::str_eq;

verus! {

/// What the host kernel exposes of the cgroup interface: which API versions
/// it registers, which one governs the root mount, and whether CPU control
/// is usable there.
#[derive(Clone, Copy, Debug, PartialEq, Eq, Structural)]
pub struct SystemCgroupInfo {
    pub support_v1: bool,
    pub support_v2: bool,
    pub cgroup_root_ver: u8,
    pub support_control_cpu: bool,
}

/// Why the probe could not finish: a directory listing it needed was not
/// available.
#[derive(Clone, Copy, Debug, PartialEq, Eq, Structural)]
pub enum EnvironmentError {
    RootDirUnreadable,
    CpuDirUnreadable,
}

/// A registered-filesystems line announces cgroup v1 when it ends in `cgroup`.
pub open spec fn line_marks_v1(line: Seq<char>) -> bool {
    ends_with(line, "cgroup"@)
}

/// A registered-filesystems line announces cgroup v2 when it ends in `cgroup2`.
pub open spec fn line_marks_v2(line: Seq<char>) -> bool {
    ends_with(line, "cgroup2"@)
}

/// Some line of the kernel's filesystem list announces cgroup v1.
pub open spec fn sees_v1(lines: Seq<String>) -> bool {
    exists|i: int| 0 <= i < lines.len() && line_marks_v1(#[trigger] lines[i]@)
}

/// Some line of the kernel's filesystem list announces cgroup v2.
pub open spec fn sees_v2(lines: Seq<String>) -> bool {
    exists|i: int| 0 <= i < lines.len() && line_marks_v2(#[trigger] lines[i]@)
}

/// A directory listing holds an entry of the given name.
pub open spec fn has_entry(entries: Seq<String>, name: Seq<char>) -> bool {
    exists|i: int| 0 <= i < entries.len() && #[trigger] entries[i]@ == name
}

/// The root mount is v2 exactly when it lists `cgroup.controllers`.
pub open spec fn root_ver_of(root_entries: Seq<String>) -> u8 {
    if has_entry(root_entries, "cgroup.controllers"@) {
        2u8
    } else {
        1u8
    }
}

/// What the probe concludes from its three observations: the lines of the
/// kernel's filesystem list, the root cgroup mount's entries (`None` when
/// unreadable) and the v1 CPU hierarchy's entries (`None` when unreadable).
pub open spec fn probe_result(
    fs_lines: Seq<String>,
    root_entries: Option<Seq<String>>,
    cpu_entries: Option<Seq<String>>,
) -> Result<SystemCgroupInfo, EnvironmentError> {
    let v1 = sees_v1(fs_lines);
    let v2 = sees_v2(fs_lines);
    if !(v1 || v2) {
        Result::Ok(
            SystemCgroupInfo {
                support_v1: v1,
                support_v2: v2,
                cgroup_root_ver: 0u8,
                support_control_cpu: false,
            },
        )
    } else {
        match root_entries {
            Option::None => Result::Err(EnvironmentError::RootDirUnreadable),
            Option::Some(re) => {
                let ver = root_ver_of(re);
                if ver == 2 {
                    Result::Ok(
                        SystemCgroupInfo {
                            support_v1: v1,
                            support_v2: v2,
                            cgroup_root_ver: 2u8,
                            support_control_cpu: true,
                        },
                    )
                } else {
                    match cpu_entries {
                        Option::None => Result::Err(EnvironmentError::CpuDirUnreadable),
                        Option::Some(ce) => Result::Ok(
                            SystemCgroupInfo {
                                support_v1: v1,
                                support_v2: v2,
                                cgroup_root_ver: 1u8,
                                support_control_cpu: has_entry(ce, "cpu.cfs_quota_us"@),
                            },
                        ),
                    }
                }
            },
        }
    }
}

/// Scans the kernel's filesystem list for the two cgroup API versions.
fn scan_filesystem_lines(lines: &Vec<String>) -> (r: (bool, bool))
    ensures
        r.0 == sees_v1(lines@),
        r.1 == sees_v2(lines@),
{
    let mut v1 = false;
    let mut v2 = false;
    let mut i: usize = 0;
    while i < lines.len()
        invariant
            i <= lines@.len(),
            v1 == exists|k: int| 0 <= k < i && line_marks_v1(#[trigger] lines@[k]@),
            v2 == exists|k: int| 0 <= k < i && line_marks_v2(#[trigger] lines@[k]@),
        decreases lines@.len() - i,
    {
        let line = &lines[i];
        if str_ends_with(line.as_str(), "cgroup") {
            v1 = true;
        }
        if str_ends_with(line.as_str(), "cgroup2") {
            v2 = true;
        }
        i = i + 1;
    }
    (v1, v2)
}

/// Whether a directory listing holds an entry of the given name.
fn contains_entry(entries: &Vec<String>, name: &str) -> (r: bool)
    ensures
        r == has_entry(entries@, name@),
{
    let mut i: usize = 0;
    while i < entries.len()
        invariant
            i <= entries@.len(),
            forall|k: int| 0 <= k < i ==> #[trigger] entries@[k]@ != name@,
        decreases entries@.len() - i,
    {
        if str_eq(entries[i].as_str(), name) {
            return true;
        }
        i = i + 1;
    }
    false
}

/// Concludes the host's cgroup capabilities from the given observations:
/// `fs_lines` are the lines of the kernel's registered-filesystems list,
/// `root_entries` the names in the root cgroup mount directory, and
/// `cpu_entries` the names in the v1 CPU hierarchy's root, the latter two
/// `None` where the directory could not be read. A listing is only required
/// when the decision depends on it; a missing one that is needed is fatal.
pub fn get_system_cgroup_info(
    fs_lines: &Vec<String>,
    root_entries: Option<&Vec<String>>,
    cpu_entries: Option<&Vec<String>>,
) -> (r: Result<SystemCgroupInfo, EnvironmentError>)
    ensures
        r == probe_result(
            fs_lines@,
            match root_entries {
                Option::Some(re) => Option::Some(re@),
                Option::None => Option::None,
            },
            match cpu_entries {
                Option::Some(ce) => Option::Some(ce@),
                Option::None => Option::None,
            },
        ),
{
    let (support_v1, support_v2) = scan_filesystem_lines(fs_lines);
    if !(support_v1 || support_v2) {
        return Ok(
            SystemCgroupInfo {
                support_v1,
                support_v2,
                cgroup_root_ver: 0,
                support_control_cpu: false,
            },
        );
    }
    let root = match root_entries {
        Some(re) => re,
        None => {
            return Err(EnvironmentError::RootDirUnreadable);
        },
    };
    if contains_entry(root, "cgroup.controllers") {
        return Ok(
            SystemCgroupInfo {
                support_v1,
                support_v2,
                cgroup_root_ver: 2,
                support_control_cpu: true,
            },
        );
    }
    let cpu = match cpu_entries {
        Some(ce) => ce,
        None => {
            return Err(EnvironmentError::CpuDirUnreadable);
        },
    };
    let support_control_cpu = contains_entry(cpu, "cpu.cfs_quota_us");
    Ok(SystemCgroupInfo { support_v1, support_v2, cgroup_root_ver: 1, support_control_cpu })
}

} // verus!
