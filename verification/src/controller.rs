use vstd::prelude::*;
use vstd::string::*;

use crate::args::CpuShare;
use crate::args::valid_memory_string;
use crate::common::CGroupV1SubSystem;
use crate::common::get_cgroup_v1_control_dir;
use crate::common::v1_control_dir_seq;
use crate::system_info::SystemCgroupInfo;
use crate::text::dec_str;
use crate::text::u64_to_string;

verus! {

/// One mutation of the kernel's cgroup filesystem. The library only plans
/// these; performing them, and reporting their outcome, is the caller's work.
#[derive(Debug, Clone, PartialEq, Eq)]
pub enum FsOp {
    CreateDirAll { path: String },
    WriteFile { path: String, content: String },
}

/// What a teardown in progress asks its driver to do next.
#[derive(Debug, Clone, PartialEq, Eq)]
pub enum TeardownAction {
    /// Read the named membership file and report whether it is empty,
    /// pausing briefly first if the previous read was not.
    ReadProcs { path: String },
    /// Remove the named control directory and report back.
    RemoveDir { path: String },
    /// Nothing is left to do.
    Done,
}

/// What the driver observed since the last teardown step. Cleanup is
/// best-effort: a read or removal that failed is reported here too, the
/// driver logs it, and the machine moves on to whatever is left rather than
/// aborting the run.
#[derive(Clone, Copy, Debug, PartialEq, Eq, Structural)]
pub enum TeardownEvent {
    Begin,
    ProcsRead { empty: bool },
    ProcsReadFailed,
    Removed,
    RemoveFailed,
}

pub open spec fn is_create(op: FsOp, path: Seq<char>) -> bool {
    op matches FsOp::CreateDirAll { path: p } && p@ == path
}

pub open spec fn is_write(op: FsOp, path: Seq<char>, content: Seq<char>) -> bool {
    op matches FsOp::WriteFile { path: p, content: c } && p@ == path && c@ == content
}

pub open spec fn is_read_procs(act: TeardownAction, dir: Seq<char>) -> bool {
    act matches TeardownAction::ReadProcs { path } && path@ == procs_path_seq(dir)
}

pub open spec fn is_remove_dir(act: TeardownAction, dir: Seq<char>) -> bool {
    act matches TeardownAction::RemoveDir { path } && path@ == dir
}

/// The membership file of a control directory.
pub open spec fn procs_path_seq(dir: Seq<char>) -> Seq<char> {
    dir + "/cgroup.procs"@
}

/// The v1 CPU control directory of a process.
pub open spec fn v1_cpu_dir_of(pid: nat) -> Seq<char> {
    v1_control_dir_seq(CGroupV1SubSystem::CPU, pid)
}

/// The v1 memory control directory of a process.
pub open spec fn v1_mem_dir_of(pid: nat) -> Seq<char> {
    v1_control_dir_seq(CGroupV1SubSystem::Memory, pid)
}

/// The unified v2 control directory of a process.
pub open spec fn v2_scope_dir_seq(pid: nat) -> Seq<char> {
    "/sys/fs/cgroup/system.slice/limited-run-"@ + dec_str(pid) + ".scope"@
}

/// What the v2 controller writes into `cpu.max`: quota and period.
pub open spec fn v2_cpu_max_content_seq(quota: nat) -> Seq<char> {
    dec_str(quota) + " 100000"@
}

/// The three steps that activate v1 CPU control: create the group, write the
/// quota, attach the process.
pub open spec fn is_v1_cpu_plan(plan: Seq<FsOp>, pid: nat, quota: nat) -> bool {
    &&& plan.len() == 3
    &&& is_create(plan[0], v1_cpu_dir_of(pid))
    &&& is_write(plan[1], v1_cpu_dir_of(pid) + "/cpu.cfs_quota_us"@, dec_str(quota))
    &&& is_write(plan[2], procs_path_seq(v1_cpu_dir_of(pid)), dec_str(pid))
}

/// The three steps that activate v1 memory control: create the group, write
/// the limit verbatim, attach the process.
pub open spec fn is_v1_mem_plan(plan: Seq<FsOp>, pid: nat, limit: Seq<char>) -> bool {
    &&& plan.len() == 3
    &&& is_create(plan[0], v1_mem_dir_of(pid))
    &&& is_write(plan[1], v1_mem_dir_of(pid) + "/memory.limit_in_bytes"@, limit)
    &&& is_write(plan[2], procs_path_seq(v1_mem_dir_of(pid)), dec_str(pid))
}

/// The three steps that activate v2 CPU control: create the scope, attach
/// the process, write quota and period into the one `cpu.max` file.
pub open spec fn is_v2_cpu_plan(plan: Seq<FsOp>, pid: nat, quota: nat) -> bool {
    &&& plan.len() == 3
    &&& is_create(plan[0], v2_scope_dir_seq(pid))
    &&& is_write(plan[1], procs_path_seq(v2_scope_dir_seq(pid)), dec_str(pid))
    &&& is_write(plan[2], v2_scope_dir_seq(pid) + "/cpu.max"@, v2_cpu_max_content_seq(quota))
}

/// The three steps that activate v2 memory control.
pub open spec fn is_v2_mem_plan(plan: Seq<FsOp>, pid: nat, limit: Seq<char>) -> bool {
    &&& plan.len() == 3
    &&& is_create(plan[0], v2_scope_dir_seq(pid))
    &&& is_write(plan[1], procs_path_seq(v2_scope_dir_seq(pid)), dec_str(pid))
    &&& is_write(plan[2], v2_scope_dir_seq(pid) + "/memory.max"@, limit)
}

/// The two versions' naming schemes never collide: whatever the process id,
/// a v1 per-subsystem directory and the v2 unified scope directory are
/// different paths, so a controller of one version never touches the other's
/// directories.
pub proof fn law_version_naming_disjoint(pid: nat)
    ensures
        v1_cpu_dir_of(pid) != v2_scope_dir_seq(pid),
        v1_mem_dir_of(pid) != v2_scope_dir_seq(pid),
{
    reveal_strlit("/sys/fs/cgroup/cpu");
    reveal_strlit("/sys/fs/cgroup/memory");
    reveal_strlit("/sys/fs/cgroup/system.slice/limited-run-");
    reveal_strlit("/limited-run/");
    assert(v1_cpu_dir_of(pid)[15] == 'c');
    assert(v1_mem_dir_of(pid)[15] == 'm');
    assert(v2_scope_dir_seq(pid)[15] == 's');
}

/// Where a v1 teardown stands: each activated subsystem is first polled
/// until its membership file is empty, then its directory is removed; CPU
/// before memory.
#[derive(Clone, Copy, Debug, PartialEq, Eq, Structural)]
pub enum V1TeardownPhase {
    Idle,
    CpuWait,
    CpuRemove,
    MemWait,
    MemRemove,
    Done,
}

/// Drives one process's control groups under cgroup v1: one directory per
/// activated subsystem, named after the bound process id.
#[derive(Clone, Copy, Debug, PartialEq, Eq, Structural)]
pub struct CgroupV1Controller {
    pub sys_cgroup_info: SystemCgroupInfo,
    pub pid: u32,
    pub controlled_cpu: bool,
    pub controlled_memory: bool,
    pub teardown: V1TeardownPhase,
}

impl CgroupV1Controller {
    /// A fresh controller: nothing bound, nothing activated.
    pub fn new() -> (r: Self)
        ensures
            r == (CgroupV1Controller {
                sys_cgroup_info: SystemCgroupInfo {
                    support_v1: false,
                    support_v2: false,
                    cgroup_root_ver: 0,
                    support_control_cpu: false,
                },
                pid: 0,
                controlled_cpu: false,
                controlled_memory: false,
                teardown: V1TeardownPhase::Idle,
            }),
    {
        CgroupV1Controller {
            sys_cgroup_info: SystemCgroupInfo {
                support_v1: false,
                support_v2: false,
                cgroup_root_ver: 0,
                support_control_cpu: false,
            },
            pid: 0,
            controlled_cpu: false,
            controlled_memory: false,
            teardown: V1TeardownPhase::Idle,
        }
    }

    /// A fresh controller that remembers the probe's findings.
    pub fn with_sys_cgroup_info(info: SystemCgroupInfo) -> (r: Self)
        ensures
            r == (CgroupV1Controller {
                sys_cgroup_info: info,
                pid: 0,
                controlled_cpu: false,
                controlled_memory: false,
                teardown: V1TeardownPhase::Idle,
            }),
    {
        CgroupV1Controller {
            sys_cgroup_info: info,
            pid: 0,
            controlled_cpu: false,
            controlled_memory: false,
            teardown: V1TeardownPhase::Idle,
        }
    }

    /// Records the process this controller governs: exactly once per run,
    /// before any limit is applied.
    pub fn set_pid(&mut self, pid: u32)
        requires
            old(self).pid == 0,
            pid != 0,
        ensures
            *final(self) == (CgroupV1Controller { pid, ..*old(self) }),
    {
        self.pid = pid;
    }

    pub fn get_cpu_control_dir(&self) -> (r: String)
        ensures
            r@ == v1_cpu_dir_of(self.pid as nat),
    {
        get_cgroup_v1_control_dir(CGroupV1SubSystem::CPU, self.pid)
    }

    pub fn get_memory_control_dir(&self) -> (r: String)
        ensures
            r@ == v1_mem_dir_of(self.pid as nat),
    {
        get_cgroup_v1_control_dir(CGroupV1SubSystem::Memory, self.pid)
    }

    /// Activates CPU control: marks it for teardown and plans the group's
    /// creation, the quota write and the attachment of the bound process.
    pub fn set_cpus(&mut self, cpus: CpuShare) -> (plan: Vec<FsOp>)
        requires
            old(self).pid != 0,
            old(self).teardown is Idle,
        ensures
            *final(self) == (CgroupV1Controller { controlled_cpu: true, ..*old(self) }),
            is_v1_cpu_plan(plan@, old(self).pid as nat, cpus.quota_us as nat),
    {
        self.controlled_cpu = true;
        let dir = self.get_cpu_control_dir();
        let mut quota_path = dir.clone();
        quota_path.append("/cpu.cfs_quota_us");
        let mut procs_path = dir.clone();
        procs_path.append("/cgroup.procs");
        let mut plan: Vec<FsOp> = Vec::new();
        plan.push(FsOp::CreateDirAll { path: dir });
        plan.push(FsOp::WriteFile { path: quota_path, content: u64_to_string(cpus.quota_us) });
        plan.push(FsOp::WriteFile { path: procs_path, content: u64_to_string(self.pid as u64) });
        plan
    }

    /// Activates memory control: marks it for teardown and plans the group's
    /// creation, the verbatim limit write and the attachment of the bound
    /// process. Only a limit that passed `memory_parser` can be planned at
    /// all, so a malformed string is rejected before any write exists.
    pub fn set_memory(&mut self, memory: String) -> (plan: Vec<FsOp>)
        requires
            old(self).pid != 0,
            old(self).teardown is Idle,
            valid_memory_string(memory@),
        ensures
            *final(self) == (CgroupV1Controller { controlled_memory: true, ..*old(self) }),
            is_v1_mem_plan(plan@, old(self).pid as nat, memory@),
    {
        self.controlled_memory = true;
        let dir = self.get_memory_control_dir();
        let mut limit_path = dir.clone();
        limit_path.append("/memory.limit_in_bytes");
        let mut procs_path = dir.clone();
        procs_path.append("/cgroup.procs");
        let mut plan: Vec<FsOp> = Vec::new();
        plan.push(FsOp::CreateDirAll { path: dir });
        plan.push(FsOp::WriteFile { path: limit_path, content: memory });
        plan.push(FsOp::WriteFile { path: procs_path, content: u64_to_string(self.pid as u64) });
        plan
    }

    /// Which teardown events the current phase can answer.
    pub open spec fn td_event_ok(self, ev: TeardownEvent) -> bool {
        match self.teardown {
            V1TeardownPhase::Idle => ev is Begin,
            V1TeardownPhase::CpuWait => ev is ProcsRead || ev is ProcsReadFailed,
            V1TeardownPhase::CpuRemove => ev is Removed || ev is RemoveFailed,
            V1TeardownPhase::MemWait => ev is ProcsRead || ev is ProcsReadFailed,
            V1TeardownPhase::MemRemove => ev is Removed || ev is RemoveFailed,
            V1TeardownPhase::Done => false,
        }
    }

    fn cpu_procs_path(&self) -> (r: String)
        ensures
            r@ == procs_path_seq(v1_cpu_dir_of(self.pid as nat)),
    {
        let mut p = self.get_cpu_control_dir();
        p.append("/cgroup.procs");
        p
    }

    fn mem_procs_path(&self) -> (r: String)
        ensures
            r@ == procs_path_seq(v1_mem_dir_of(self.pid as nat)),
    {
        let mut p = self.get_memory_control_dir();
        p.append("/cgroup.procs");
        p
    }

    /// The complete transition relation of one v1 teardown step: what the
    /// state becomes and which action is ordered, for every phase and event.
    pub open spec fn td_transition(
        pre: Self,
        post: Self,
        ev: TeardownEvent,
        act: TeardownAction,
    ) -> bool {
        &&& post.sys_cgroup_info == pre.sys_cgroup_info
        &&& post.pid == pre.pid
        &&& post.controlled_cpu == pre.controlled_cpu
        &&& post.controlled_memory == pre.controlled_memory
        // a removal is only ever the answer to an empty membership read
        &&& (act is RemoveDir ==> ev == (TeardownEvent::ProcsRead { empty: true }))
        // with nothing activated, teardown finishes in one harmless step
        &&& (pre.teardown is Idle && !pre.controlled_cpu && !pre.controlled_memory ==> act is Done
            && post.teardown is Done)
        &&& (pre.teardown is Idle && pre.controlled_cpu ==> post.teardown is CpuWait
            && is_read_procs(act, v1_cpu_dir_of(pre.pid as nat)))
        &&& (pre.teardown is Idle && !pre.controlled_cpu && pre.controlled_memory ==> post.teardown
            is MemWait && is_read_procs(act, v1_mem_dir_of(pre.pid as nat)))
        &&& (pre.teardown is CpuWait && ev == (TeardownEvent::ProcsRead { empty: false })
            ==> post.teardown is CpuWait && is_read_procs(act, v1_cpu_dir_of(pre.pid as nat)))
        &&& (pre.teardown is CpuWait && ev == (TeardownEvent::ProcsRead { empty: true })
            ==> post.teardown is CpuRemove && is_remove_dir(act, v1_cpu_dir_of(pre.pid as nat)))
        // a membership file that cannot be read: give that group up and move on
        &&& (pre.teardown is CpuWait && ev is ProcsReadFailed && pre.controlled_memory
            ==> post.teardown is MemWait && is_read_procs(act, v1_mem_dir_of(pre.pid as nat)))
        &&& (pre.teardown is CpuWait && ev is ProcsReadFailed && !pre.controlled_memory
            ==> post.teardown is Done && act is Done)
        &&& (pre.teardown is MemWait && ev is ProcsReadFailed ==> post.teardown is Done && act
            is Done)
        // a removal that failed was logged by the driver; continue regardless
        &&& (pre.teardown is CpuRemove && pre.controlled_memory ==> post.teardown is MemWait
            && is_read_procs(act, v1_mem_dir_of(pre.pid as nat)))
        &&& (pre.teardown is CpuRemove && !pre.controlled_memory ==> post.teardown is Done && act
            is Done)
        &&& (pre.teardown is MemWait && ev == (TeardownEvent::ProcsRead { empty: false })
            ==> post.teardown is MemWait && is_read_procs(act, v1_mem_dir_of(pre.pid as nat)))
        &&& (pre.teardown is MemWait && ev == (TeardownEvent::ProcsRead { empty: true })
            ==> post.teardown is MemRemove && is_remove_dir(act, v1_mem_dir_of(pre.pid as nat)))
        &&& (pre.teardown is MemRemove ==> post.teardown is Done && act is Done)
        &&& (act is Done <==> post.teardown is Done)
    }

    /// One step of teardown. Only subsystems whose activation flag was set
    /// are touched at all; each one's directory is removed only after its
    /// membership file has been read empty, however many polls that takes.
    /// Cleanup is best-effort: a failed read or removal, once reported, is
    /// skipped over and the remaining groups are still attempted.
    pub fn teardown_step(&mut self, ev: TeardownEvent) -> (act: TeardownAction)
        requires
            old(self).td_event_ok(ev),
        ensures
            Self::td_transition(*old(self), *final(self), ev, act),
    {
        match (self.teardown, ev) {
            (V1TeardownPhase::Idle, TeardownEvent::Begin) => {
                if self.controlled_cpu {
                    self.teardown = V1TeardownPhase::CpuWait;
                    TeardownAction::ReadProcs { path: self.cpu_procs_path() }
                } else if self.controlled_memory {
                    self.teardown = V1TeardownPhase::MemWait;
                    TeardownAction::ReadProcs { path: self.mem_procs_path() }
                } else {
                    self.teardown = V1TeardownPhase::Done;
                    TeardownAction::Done
                }
            },
            (V1TeardownPhase::CpuWait, TeardownEvent::ProcsRead { empty }) => {
                if empty {
                    self.teardown = V1TeardownPhase::CpuRemove;
                    TeardownAction::RemoveDir { path: self.get_cpu_control_dir() }
                } else {
                    TeardownAction::ReadProcs { path: self.cpu_procs_path() }
                }
            },
            (
                V1TeardownPhase::CpuWait,
                TeardownEvent::ProcsReadFailed,
            )
            | (
                V1TeardownPhase::CpuRemove,
                TeardownEvent::Removed,
            )
            | (
                V1TeardownPhase::CpuRemove,
                TeardownEvent::RemoveFailed,
            ) => {
                if self.controlled_memory {
                    self.teardown = V1TeardownPhase::MemWait;
                    TeardownAction::ReadProcs { path: self.mem_procs_path() }
                } else {
                    self.teardown = V1TeardownPhase::Done;
                    TeardownAction::Done
                }
            },
            (V1TeardownPhase::MemWait, TeardownEvent::ProcsRead { empty }) => {
                if empty {
                    self.teardown = V1TeardownPhase::MemRemove;
                    TeardownAction::RemoveDir { path: self.get_memory_control_dir() }
                } else {
                    TeardownAction::ReadProcs { path: self.mem_procs_path() }
                }
            },
            (
                V1TeardownPhase::MemWait,
                TeardownEvent::ProcsReadFailed,
            )
            | (
                V1TeardownPhase::MemRemove,
                TeardownEvent::Removed,
            )
            | (
                V1TeardownPhase::MemRemove,
                TeardownEvent::RemoveFailed,
            ) => {
                self.teardown = V1TeardownPhase::Done;
                TeardownAction::Done
            },
            _ => {
                proof {
                    assert(false);
                }
                TeardownAction::Done
            },
        }
    }
}

/// How many steps a v1 teardown still has before it is done, not counting
/// repeated polls of a still-nonempty membership file.
pub open spec fn v1_td_measure(phase: V1TeardownPhase) -> nat {
    match phase {
        V1TeardownPhase::Idle => 5,
        V1TeardownPhase::CpuWait => 4,
        V1TeardownPhase::CpuRemove => 3,
        V1TeardownPhase::MemWait => 2,
        V1TeardownPhase::MemRemove => 1,
        V1TeardownPhase::Done => 0,
    }
}

/// Teardown makes progress: every v1 step that is not a poll answered by a
/// still-nonempty membership file moves strictly closer to done. So once
/// each group's membership empties — which the kernel guarantees after the
/// process exits — teardown completes.
pub proof fn law_v1_teardown_progress(
    pre: CgroupV1Controller,
    post: CgroupV1Controller,
    ev: TeardownEvent,
    act: TeardownAction,
)
    requires
        pre.td_event_ok(ev),
        CgroupV1Controller::td_transition(pre, post, ev, act),
        ev != (TeardownEvent::ProcsRead { empty: false }),
    ensures
        v1_td_measure(post.teardown) < v1_td_measure(pre.teardown),
{
}

/// Where a v2 teardown stands: the one scope directory, if it was ever
/// created, is polled until its membership file is empty, then removed.
#[derive(Clone, Copy, Debug, PartialEq, Eq, Structural)]
pub enum V2TeardownPhase {
    Idle,
    Wait,
    Remove,
    Done,
}

/// Drives one process's control group under cgroup v2: one unified scope
/// directory covering every subsystem. `control_dir` stays empty until a
/// limit is applied, so an untouched controller tears down as a no-op.
#[derive(Debug, Clone, PartialEq, Eq)]
pub struct CgroupV2Controller {
    pub sys_cgroup_info: SystemCgroupInfo,
    pub pid: u32,
    pub control_dir: String,
    pub teardown: V2TeardownPhase,
}

fn v2_scope_dir(pid: u32) -> (r: String)
    ensures
        r@ == v2_scope_dir_seq(pid as nat),
{
    let mut s = String::from_str("/sys/fs/cgroup/system.slice/limited-run-");
    let pid_str = u64_to_string(pid as u64);
    s.append(pid_str.as_str());
    s.append(".scope");
    s
}

impl CgroupV2Controller {
    /// A fresh controller: nothing bound, no scope created.
    pub fn new() -> (r: Self)
        ensures
            r.sys_cgroup_info == (SystemCgroupInfo {
                support_v1: false,
                support_v2: false,
                cgroup_root_ver: 0,
                support_control_cpu: false,
            }),
            r.pid == 0,
            r.control_dir@ == Seq::<char>::empty(),
            r.teardown is Idle,
    {
        CgroupV2Controller {
            sys_cgroup_info: SystemCgroupInfo {
                support_v1: false,
                support_v2: false,
                cgroup_root_ver: 0,
                support_control_cpu: false,
            },
            pid: 0,
            control_dir: String::new(),
            teardown: V2TeardownPhase::Idle,
        }
    }

    /// A fresh controller that remembers the probe's findings.
    pub fn with_sys_cgroup_info(info: SystemCgroupInfo) -> (r: Self)
        ensures
            r.sys_cgroup_info == info,
            r.pid == 0,
            r.control_dir@ == Seq::<char>::empty(),
            r.teardown is Idle,
    {
        CgroupV2Controller {
            sys_cgroup_info: info,
            pid: 0,
            control_dir: String::new(),
            teardown: V2TeardownPhase::Idle,
        }
    }

    /// Records the process this controller governs: exactly once per run,
    /// before any limit is applied.
    pub fn set_pid(&mut self, pid: u32)
        requires
            old(self).pid == 0,
            pid != 0,
        ensures
            final(self).pid == pid,
            final(self).sys_cgroup_info == old(self).sys_cgroup_info,
            final(self).control_dir@ == old(self).control_dir@,
            final(self).teardown == old(self).teardown,
    {
        self.pid = pid;
    }

    /// Activates CPU control: creates the scope if need be, attaches the
    /// bound process, and plans one `cpu.max` write holding quota and period.
    pub fn set_cpus(&mut self, cpus: CpuShare) -> (plan: Vec<FsOp>)
        requires
            old(self).pid != 0,
            old(self).teardown is Idle,
        ensures
            final(self).sys_cgroup_info == old(self).sys_cgroup_info,
            final(self).pid == old(self).pid,
            final(self).teardown == old(self).teardown,
            final(self).control_dir@ == v2_scope_dir_seq(old(self).pid as nat),
            is_v2_cpu_plan(plan@, old(self).pid as nat, cpus.quota_us as nat),
    {
        let dir = v2_scope_dir(self.pid);
        let mut procs_path = dir.clone();
        procs_path.append("/cgroup.procs");
        let mut cpu_max_path = dir.clone();
        cpu_max_path.append("/cpu.max");
        let mut content = u64_to_string(cpus.quota_us);
        content.append(" 100000");
        self.control_dir = dir.clone();
        let mut plan: Vec<FsOp> = Vec::new();
        plan.push(FsOp::CreateDirAll { path: dir });
        plan.push(FsOp::WriteFile { path: procs_path, content: u64_to_string(self.pid as u64) });
        plan.push(FsOp::WriteFile { path: cpu_max_path, content });
        plan
    }

    /// Activates memory control: creates the scope if need be, attaches the
    /// bound process, and plans one verbatim `memory.max` write.
    pub fn set_memory(&mut self, memory: String) -> (plan: Vec<FsOp>)
        requires
            old(self).pid != 0,
            old(self).teardown is Idle,
            valid_memory_string(memory@),
        ensures
            final(self).sys_cgroup_info == old(self).sys_cgroup_info,
            final(self).pid == old(self).pid,
            final(self).teardown == old(self).teardown,
            final(self).control_dir@ == v2_scope_dir_seq(old(self).pid as nat),
            is_v2_mem_plan(plan@, old(self).pid as nat, memory@),
    {
        let dir = v2_scope_dir(self.pid);
        let mut procs_path = dir.clone();
        procs_path.append("/cgroup.procs");
        let mut memory_max_path = dir.clone();
        memory_max_path.append("/memory.max");
        self.control_dir = dir.clone();
        let mut plan: Vec<FsOp> = Vec::new();
        plan.push(FsOp::CreateDirAll { path: dir });
        plan.push(FsOp::WriteFile { path: procs_path, content: u64_to_string(self.pid as u64) });
        plan.push(FsOp::WriteFile { path: memory_max_path, content: memory });
        plan
    }

    /// Which teardown events the current phase can answer.
    pub open spec fn td_event_ok(self, ev: TeardownEvent) -> bool {
        match self.teardown {
            V2TeardownPhase::Idle => ev is Begin,
            V2TeardownPhase::Wait => ev is ProcsRead || ev is ProcsReadFailed,
            V2TeardownPhase::Remove => ev is Removed || ev is RemoveFailed,
            V2TeardownPhase::Done => false,
        }
    }

    /// The complete transition relation of one v2 teardown step.
    pub open spec fn td_transition(
        pre: Self,
        post: Self,
        ev: TeardownEvent,
        act: TeardownAction,
    ) -> bool {
        &&& post.sys_cgroup_info == pre.sys_cgroup_info
        &&& post.pid == pre.pid
        &&& post.control_dir@ == pre.control_dir@
        // a removal is only ever the answer to an empty membership read
        &&& (act is RemoveDir ==> ev == (TeardownEvent::ProcsRead { empty: true }))
        // with no scope ever created, teardown finishes in one harmless step
        &&& (pre.teardown is Idle && pre.control_dir@.len() == 0 ==> act is Done && post.teardown
            is Done)
        &&& (pre.teardown is Idle && pre.control_dir@.len() > 0 ==> post.teardown is Wait
            && is_read_procs(act, pre.control_dir@))
        &&& (pre.teardown is Wait && ev == (TeardownEvent::ProcsRead { empty: false })
            ==> post.teardown is Wait && is_read_procs(act, pre.control_dir@))
        &&& (pre.teardown is Wait && ev == (TeardownEvent::ProcsRead { empty: true })
            ==> post.teardown is Remove && is_remove_dir(act, pre.control_dir@))
        // a failed read or removal was logged by the driver; give the scope
        // up and finish rather than abort the run
        &&& (pre.teardown is Wait && ev is ProcsReadFailed ==> post.teardown is Done && act
            is Done)
        &&& (pre.teardown is Remove ==> post.teardown is Done && act is Done)
        &&& (act is Done <==> post.teardown is Done)
    }

    /// One step of teardown. If no scope was ever created the whole teardown
    /// is a single harmless step; otherwise the scope directory is removed
    /// only after its membership file has been read empty. Cleanup is
    /// best-effort: a failed read or removal, once reported, ends the
    /// teardown without aborting the run.
    pub fn teardown_step(&mut self, ev: TeardownEvent) -> (act: TeardownAction)
        requires
            old(self).td_event_ok(ev),
        ensures
            Self::td_transition(*old(self), *final(self), ev, act),
    {
        match (self.teardown, ev) {
            (V2TeardownPhase::Idle, TeardownEvent::Begin) => {
                if self.control_dir.as_str().unicode_len() == 0 {
                    self.teardown = V2TeardownPhase::Done;
                    TeardownAction::Done
                } else {
                    self.teardown = V2TeardownPhase::Wait;
                    let mut p = self.control_dir.clone();
                    p.append("/cgroup.procs");
                    TeardownAction::ReadProcs { path: p }
                }
            },
            (V2TeardownPhase::Wait, TeardownEvent::ProcsRead { empty }) => {
                if empty {
                    self.teardown = V2TeardownPhase::Remove;
                    TeardownAction::RemoveDir { path: self.control_dir.clone() }
                } else {
                    let mut p = self.control_dir.clone();
                    p.append("/cgroup.procs");
                    TeardownAction::ReadProcs { path: p }
                }
            },
            (
                V2TeardownPhase::Wait,
                TeardownEvent::ProcsReadFailed,
            )
            | (
                V2TeardownPhase::Remove,
                TeardownEvent::Removed,
            )
            | (
                V2TeardownPhase::Remove,
                TeardownEvent::RemoveFailed,
            ) => {
                self.teardown = V2TeardownPhase::Done;
                TeardownAction::Done
            },
            _ => {
                proof {
                    assert(false);
                }
                TeardownAction::Done
            },
        }
    }
}

/// How many steps a v2 teardown still has before it is done, not counting
/// repeated polls of a still-nonempty membership file.
pub open spec fn v2_td_measure(phase: V2TeardownPhase) -> nat {
    match phase {
        V2TeardownPhase::Idle => 3,
        V2TeardownPhase::Wait => 2,
        V2TeardownPhase::Remove => 1,
        V2TeardownPhase::Done => 0,
    }
}

/// Teardown makes progress: every v2 step that is not a poll answered by a
/// still-nonempty membership file moves strictly closer to done.
pub proof fn law_v2_teardown_progress(
    pre: CgroupV2Controller,
    post: CgroupV2Controller,
    ev: TeardownEvent,
    act: TeardownAction,
)
    requires
        pre.td_event_ok(ev),
        CgroupV2Controller::td_transition(pre, post, ev, act),
        ev != (TeardownEvent::ProcsRead { empty: false }),
    ensures
        v2_td_measure(post.teardown) < v2_td_measure(pre.teardown),
{
}

/// The version-polymorphic controller: selected once from the probed root
/// version, then driven through one uniform capability set.
#[derive(Debug, Clone, PartialEq, Eq)]
pub enum CgroupController {
    V1(CgroupV1Controller),
    V2(CgroupV2Controller),
}

/// Builds the controller variant that matches the root hierarchy version.
/// Any version other than 1 or 2 means the probe itself is broken, and no
/// controller can be chosen.
pub fn new_cgroup_controller(info: SystemCgroupInfo) -> (r: CgroupController)
    requires
        info.cgroup_root_ver == 1 || info.cgroup_root_ver == 2,
    ensures
        info.cgroup_root_ver == 1 ==> r == CgroupController::V1(
            CgroupV1Controller::with_sys_cgroup_info_spec(info),
        ),
        info.cgroup_root_ver == 2 ==> (r matches CgroupController::V2(c) && c.sys_cgroup_info
            == info && c.pid == 0 && c.control_dir@ == Seq::<char>::empty() && c.teardown is Idle),
{
    if info.cgroup_root_ver == 1 {
        CgroupController::V1(CgroupV1Controller::with_sys_cgroup_info(info))
    } else {
        CgroupController::V2(CgroupV2Controller::with_sys_cgroup_info(info))
    }
}

impl CgroupV1Controller {
    /// The value `with_sys_cgroup_info` returns.
    pub open spec fn with_sys_cgroup_info_spec(info: SystemCgroupInfo) -> CgroupV1Controller {
        CgroupV1Controller {
            sys_cgroup_info: info,
            pid: 0,
            controlled_cpu: false,
            controlled_memory: false,
            teardown: V1TeardownPhase::Idle,
        }
    }
}

impl CgroupController {
    /// The process this controller governs.
    pub open spec fn pid_of(self) -> u32 {
        match self {
            CgroupController::V1(c) => c.pid,
            CgroupController::V2(c) => c.pid,
        }
    }

    /// No resource type was ever activated: there is nothing to remove.
    pub open spec fn nothing_activated(self) -> bool {
        match self {
            CgroupController::V1(c) => !c.controlled_cpu && !c.controlled_memory,
            CgroupController::V2(c) => c.control_dir@.len() == 0,
        }
    }

    /// Teardown has not begun.
    pub open spec fn td_idle(self) -> bool {
        match self {
            CgroupController::V1(c) => c.teardown is Idle,
            CgroupController::V2(c) => c.teardown is Idle,
        }
    }

    /// Teardown has finished.
    pub open spec fn td_done(self) -> bool {
        match self {
            CgroupController::V1(c) => c.teardown is Done,
            CgroupController::V2(c) => c.teardown is Done,
        }
    }

    /// Which teardown events the controller can answer now.
    pub open spec fn td_event_ok(self, ev: TeardownEvent) -> bool {
        match self {
            CgroupController::V1(c) => c.td_event_ok(ev),
            CgroupController::V2(c) => c.td_event_ok(ev),
        }
    }

    /// Two controllers of the same version, process and activation state,
    /// differing at most in how far teardown has progressed.
    pub open spec fn same_config(a: CgroupController, b: CgroupController) -> bool {
        match (a, b) {
            (CgroupController::V1(c), CgroupController::V1(d)) => {
                &&& c.sys_cgroup_info == d.sys_cgroup_info
                &&& c.pid == d.pid
                &&& c.controlled_cpu == d.controlled_cpu
                &&& c.controlled_memory == d.controlled_memory
            },
            (CgroupController::V2(c), CgroupController::V2(d)) => {
                &&& c.sys_cgroup_info == d.sys_cgroup_info
                &&& c.pid == d.pid
                &&& c.control_dir@ == d.control_dir@
            },
            _ => false,
        }
    }

    /// Records the process this controller governs: exactly once per run,
    /// before any limit is applied.
    pub fn set_pid(&mut self, pid: u32)
        requires
            old(self).pid_of() == 0,
            pid != 0,
        ensures
            (*old(self)) matches CgroupController::V1(c) ==> *final(self) == CgroupController::V1(
                (CgroupV1Controller { pid, ..c }),
            ),
            (*old(self)) matches CgroupController::V2(c) ==> (*final(self) matches CgroupController::V2(
                d,
            ) && d.pid == pid && d.sys_cgroup_info == c.sys_cgroup_info && d.control_dir@
                == c.control_dir@ && d.teardown == c.teardown),
    {
        match self {
            CgroupController::V1(c) => c.set_pid(pid),
            CgroupController::V2(c) => c.set_pid(pid),
        }
    }

    /// Activates CPU control for the bound process, planning the version's
    /// own directory creation, quota write and attachment.
    pub fn set_cpus(&mut self, cpus: CpuShare) -> (plan: Vec<FsOp>)
        requires
            old(self).pid_of() != 0,
            old(self).td_idle(),
        ensures
            (*old(self)) matches CgroupController::V1(c) ==> (*final(self) == CgroupController::V1(
                (CgroupV1Controller { controlled_cpu: true, ..c }),
            ) && is_v1_cpu_plan(plan@, c.pid as nat, cpus.quota_us as nat)),
            (*old(self)) matches CgroupController::V2(c) ==> (*final(self) matches CgroupController::V2(
                d,
            ) && d.pid == c.pid && d.sys_cgroup_info == c.sys_cgroup_info && d.teardown
                == c.teardown && d.control_dir@ == v2_scope_dir_seq(c.pid as nat)
                && is_v2_cpu_plan(plan@, c.pid as nat, cpus.quota_us as nat)),
    {
        match self {
            CgroupController::V1(c) => c.set_cpus(cpus),
            CgroupController::V2(c) => c.set_cpus(cpus),
        }
    }

    /// Activates memory control for the bound process, planning the
    /// version's own directory creation, verbatim limit write and
    /// attachment. Only a limit that passed `memory_parser` can be planned
    /// at all, so a malformed string is rejected before any write exists.
    pub fn set_memory(&mut self, memory: String) -> (plan: Vec<FsOp>)
        requires
            old(self).pid_of() != 0,
            old(self).td_idle(),
            valid_memory_string(memory@),
        ensures
            (*old(self)) matches CgroupController::V1(c) ==> (*final(self) == CgroupController::V1(
                (CgroupV1Controller { controlled_memory: true, ..c }),
            ) && is_v1_mem_plan(plan@, c.pid as nat, memory@)),
            (*old(self)) matches CgroupController::V2(c) ==> (*final(self) matches CgroupController::V2(
                d,
            ) && d.pid == c.pid && d.sys_cgroup_info == c.sys_cgroup_info && d.teardown
                == c.teardown && d.control_dir@ == v2_scope_dir_seq(c.pid as nat)
                && is_v2_mem_plan(plan@, c.pid as nat, memory@)),
    {
        match self {
            CgroupController::V1(c) => c.set_memory(memory),
            CgroupController::V2(c) => c.set_memory(memory),
        }
    }

    /// The complete transition relation of one teardown step: the variant is
    /// kept and its own machine moves one step.
    pub open spec fn td_transition(
        pre: CgroupController,
        post: CgroupController,
        ev: TeardownEvent,
        act: TeardownAction,
    ) -> bool {
        match (pre, post) {
            (CgroupController::V1(c), CgroupController::V1(d)) => CgroupV1Controller::td_transition(
                c,
                d,
                ev,
                act,
            ),
            (CgroupController::V2(c), CgroupController::V2(d)) => CgroupV2Controller::td_transition(
                c,
                d,
                ev,
                act,
            ),
            _ => false,
        }
    }

    /// One step of teardown, whichever version is in charge. Directories are
    /// only ever removed right after their membership file was read empty,
    /// and a controller that never activated anything finishes in one
    /// harmless step.
    pub fn teardown_step(&mut self, ev: TeardownEvent) -> (act: TeardownAction)
        requires
            old(self).td_event_ok(ev),
        ensures
            Self::td_transition(*old(self), *final(self), ev, act),
            Self::same_config(*old(self), *final(self)),
            act is RemoveDir ==> ev == (TeardownEvent::ProcsRead { empty: true }),
            old(self).td_idle() && old(self).nothing_activated() ==> act is Done,
            act is Done <==> final(self).td_done(),
    {
        match self {
            CgroupController::V1(c) => c.teardown_step(ev),
            CgroupController::V2(c) => c.teardown_step(ev),
        }
    }
}

} // verus!
