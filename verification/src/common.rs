use vstd::prelude::*;
use vstd::string::*;

use crate::text::dec_str;
use crate::text::u64_to_string;

verus! {

/// The root of the cgroup filesystem mount.
pub open spec fn root_dir_seq() -> Seq<char> {
    "/sys/fs/cgroup"@
}

/// The root of the cgroup-v1 CPU subsystem hierarchy.
pub open spec fn v1_cpu_dir_seq() -> Seq<char> {
    "/sys/fs/cgroup/cpu"@
}

/// The root of the cgroup-v1 memory subsystem hierarchy.
pub open spec fn v1_memory_dir_seq() -> Seq<char> {
    "/sys/fs/cgroup/memory"@
}

/// The fixed mount points that the controllers work under.
pub struct CgroupPaths {
    pub root_dir: &'static str,
    pub v1_cpu_dir: &'static str,
}

impl CgroupPaths {
    /// The mount points of the host's cgroup hierarchies.
    pub fn new() -> (r: CgroupPaths)
        ensures
            r.root_dir@ == root_dir_seq(),
            r.v1_cpu_dir@ == v1_cpu_dir_seq(),
    {
        CgroupPaths { root_dir: "/sys/fs/cgroup", v1_cpu_dir: "/sys/fs/cgroup/cpu" }
    }
}

/// The cgroup-v1 subsystems this controller drives, each with its own hierarchy.
#[derive(Clone, Copy, Debug, PartialEq, Eq, Structural)]
pub enum CGroupV1SubSystem {
    CPU,
    Memory,
}

/// The root directory of a v1 subsystem hierarchy.
pub open spec fn sub_system_dir_seq(sub: CGroupV1SubSystem) -> Seq<char> {
    match sub {
        CGroupV1SubSystem::CPU => v1_cpu_dir_seq(),
        CGroupV1SubSystem::Memory => v1_memory_dir_seq(),
    }
}

impl CGroupV1SubSystem {
    pub fn get_dir(self) -> (r: &'static str)
        ensures
            r@ == sub_system_dir_seq(self),
    {
        match self {
            CGroupV1SubSystem::CPU => "/sys/fs/cgroup/cpu",
            CGroupV1SubSystem::Memory => "/sys/fs/cgroup/memory",
        }
    }
}

/// The per-process control directory of a v1 subsystem:
/// `<subsystem-root>/limited-run/<pid>`.
pub open spec fn v1_control_dir_seq(sub: CGroupV1SubSystem, pid: nat) -> Seq<char> {
    sub_system_dir_seq(sub) + "/limited-run/"@ + dec_str(pid)
}

/// The `tasks` file of a v1 per-process control directory.
pub open spec fn v1_tasks_path_seq(sub: CGroupV1SubSystem, pid: nat) -> Seq<char> {
    v1_control_dir_seq(sub, pid) + "/tasks"@
}

pub fn get_cgroup_v1_control_dir(sub_system: CGroupV1SubSystem, pid: u32) -> (r: String)
    ensures
        r@ == v1_control_dir_seq(sub_system, pid as nat),
{
    let mut s = String::from_str(sub_system.get_dir());
    s.append("/limited-run/");
    let pid_str = u64_to_string(pid as u64);
    s.append(pid_str.as_str());
    s
}

pub fn get_cgroup_v1_tasks_path(sub_system: CGroupV1SubSystem, pid: u32) -> (r: String)
    ensures
        r@ == v1_tasks_path_seq(sub_system, pid as nat),
{
    let mut s = get_cgroup_v1_control_dir(sub_system, pid);
    s.append("/tasks");
    s
}

} // verus!
