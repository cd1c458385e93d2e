//! A resource-control engine for running one child process under CPU and
//! memory limits through the kernel's control-group interface.
//!
//! Everything here is decision logic, verified end to end: probing which
//! cgroup API governs the host, validating requests, deriving quotas,
//! planning the filesystem writes that apply limits, and stepping the
//! teardown machine that waits out group membership before removing
//! directories. The caller performs the planned operations and feeds the
//! observed outcomes back in.

use vstd::prelude::*;

pub mod args;
pub mod common;
pub mod controller;
pub mod system_info;
pub mod text;

use crate::args::ResourceRequest;
use crate::controller::CgroupController;
use crate::controller::CgroupV1Controller;
use crate::controller::FsOp;
use crate::controller::TeardownAction;
use crate::controller::TeardownEvent;
use crate::controller::is_v1_cpu_plan;
use crate::controller::is_v1_mem_plan;
use crate::controller::is_v2_cpu_plan;
use crate::controller::is_v2_mem_plan;
use crate::controller::new_cgroup_controller;
use crate::controller::v2_scope_dir_seq;
use crate::system_info::SystemCgroupInfo;

verus! {

/// Phases of one supervised run.
#[derive(Clone, Copy, Debug, PartialEq, Eq, Structural)]
pub enum Phase {
    Created,
    Running,
    Completed,
    Terminated,
    CleanedUp,
}

/// Why a run must abort before anything is spawned.
#[derive(Clone, Copy, Debug, PartialEq, Eq, Structural)]
pub enum SetupError {
    /// A CPU share was requested but the host cannot enforce one.
    UnsupportedRequest,
    /// The probed root version names no known controller: the probe itself
    /// must be broken.
    InvalidRootVersion,
}

/// What the supervisor decides on each turn of its wait loop.
#[derive(Clone, Copy, Debug, PartialEq, Eq, Structural)]
pub enum WaitStep {
    /// Neither an interrupt nor an exit: pause briefly and look again.
    KeepWaiting,
    /// An interrupt arrived: kill the child, then tear down.
    KillChild,
    /// The child exited on its own: tear down.
    Proceed,
}

/// The filesystem steps that apply the requested limits, in order: the CPU
/// group first if a share was requested, then the memory group if a limit
/// was, each in the naming scheme of the selected version and nothing else.
pub open spec fn is_setup_plan(
    v1: bool,
    plan: Seq<FsOp>,
    pid: nat,
    cpus: Option<crate::args::CpuShare>,
    mem: Option<Seq<char>>,
) -> bool {
    let cn: int = if cpus is Some {
        3
    } else {
        0
    };
    let mn: int = if mem is Some {
        3
    } else {
        0
    };
    &&& plan.len() == cn + mn
    &&& (cpus matches Option::Some(c) ==> (if v1 {
        is_v1_cpu_plan(plan.subrange(0, 3), pid, c.quota_us as nat)
    } else {
        is_v2_cpu_plan(plan.subrange(0, 3), pid, c.quota_us as nat)
    }))
    &&& (mem matches Option::Some(m) ==> (if v1 {
        is_v1_mem_plan(plan.subrange(cn, cn + 3), pid, m)
    } else {
        is_v2_mem_plan(plan.subrange(cn, cn + 3), pid, m)
    }))
}

/// Supervises one run: owns the validated request and the selected
/// controller, and walks the run through its phases. Spawning, waiting,
/// signalling and every filesystem touch stay with the caller, who performs
/// what this machine plans and reports back what happened.
#[derive(Debug)]
pub struct App {
    pub args: ResourceRequest,
    pub cgroup_controller: CgroupController,
    pub phase: Phase,
}

impl App {
    /// Checks the request against the host's abilities and selects the
    /// controller variant for the probed root version. A CPU share the host
    /// cannot enforce, or a root version naming no controller, aborts here,
    /// before anything is spawned.
    pub fn new(args: ResourceRequest, info: SystemCgroupInfo) -> (r: Result<App, SetupError>)
        requires
            args.wf(),
        ensures
            args.cpus is Some && !info.support_control_cpu ==> r == Result::<App, SetupError>::Err(
                SetupError::UnsupportedRequest,
            ),
            (args.cpus is None || info.support_control_cpu) && !(info.cgroup_root_ver == 1
                || info.cgroup_root_ver == 2) ==> r == Result::<App, SetupError>::Err(
                SetupError::InvalidRootVersion,
            ),
            r is Ok <==> ((args.cpus is None || info.support_control_cpu) && (info.cgroup_root_ver
                == 1 || info.cgroup_root_ver == 2)),
            r matches Ok(app) ==> app.phase is Created && app.args == args,
            info.cgroup_root_ver == 1 ==> (r matches Ok(app) ==> app.cgroup_controller
                == CgroupController::V1(CgroupV1Controller::with_sys_cgroup_info_spec(info))),
            info.cgroup_root_ver == 2 ==> (r matches Ok(app) ==> (app.cgroup_controller
                matches CgroupController::V2(c) && c.sys_cgroup_info == info && c.pid == 0
                && c.control_dir@ == Seq::<char>::empty() && c.teardown is Idle)),
    {
        if args.cpus.is_some() && !info.support_control_cpu {
            return Err(SetupError::UnsupportedRequest);
        }
        if !(info.cgroup_root_ver == 1 || info.cgroup_root_ver == 2) {
            return Err(SetupError::InvalidRootVersion);
        }
        Ok(App {
            args,
            cgroup_controller: new_cgroup_controller(info),
            phase: Phase::Created,
        })
    }

    /// The child is running: binds its process id to the controller and
    /// plans the limit applications the request asks for — fewer steps for a
    /// smaller request, none for an empty one.
    pub fn on_spawned(&mut self, pid: u32) -> (plan: Vec<FsOp>)
        requires
            old(self).phase is Created,
            old(self).args.wf(),
            old(self).cgroup_controller.pid_of() == 0,
            old(self).cgroup_controller.td_idle(),
            pid != 0,
        ensures
            final(self).phase is Running,
            final(self).args == old(self).args,
            final(self).cgroup_controller.pid_of() == pid,
            is_setup_plan(
                (*old(self)).cgroup_controller is V1,
                plan@,
                pid as nat,
                old(self).args.cpus,
                old(self).args.memory_view(),
            ),
            (*old(self)).cgroup_controller matches CgroupController::V1(c) ==> (
            final(self).cgroup_controller matches CgroupController::V1(d) && d.sys_cgroup_info
                == c.sys_cgroup_info && d.teardown == c.teardown && d.pid == pid
                && d.controlled_cpu == (c.controlled_cpu || old(self).args.cpus is Some)
                && d.controlled_memory == (c.controlled_memory || old(self).args.memory is Some)),
            (*old(self)).cgroup_controller matches CgroupController::V2(c) ==> (
            final(self).cgroup_controller matches CgroupController::V2(d) && d.sys_cgroup_info
                == c.sys_cgroup_info && d.teardown == c.teardown && d.pid == pid && d.control_dir@
                == (if old(self).args.cpus is Some || old(self).args.memory is Some {
                v2_scope_dir_seq(pid as nat)
            } else {
                c.control_dir@
            })),
    {
        self.cgroup_controller.set_pid(pid);
        let mut plan: Vec<FsOp> = Vec::new();
        if let Some(c) = self.args.cpus {
            let mut cpu_plan = self.cgroup_controller.set_cpus(c);
            let ghost cp = cpu_plan@;
            plan.append(&mut cpu_plan);
            proof {
                assert(plan@ =~= cp);
                assert(plan@.subrange(0, 3) =~= cp);
            }
        }
        let mem = match &self.args.memory {
            Some(m) => Some(m.clone()),
            None => None,
        };
        if let Some(m) = mem {
            let ghost before = plan@;
            let mut mem_plan = self.cgroup_controller.set_memory(m);
            let ghost mp = mem_plan@;
            plan.append(&mut mem_plan);
            proof {
                assert(plan@.subrange(before.len() as int, before.len() as int + 3) =~= mp);
                if before.len() == 3 {
                    assert(plan@.subrange(0, 3) =~= before.subrange(0, 3));
                    assert(before.subrange(0, 3) =~= before);
                }
            }
        }
        self.phase = Phase::Running;
        plan
    }

    /// One turn of the wait loop, from what the caller observed: an
    /// interrupt beats an exit and turns the run to `Terminated` with the
    /// order to kill the child; an exit alone completes the run; otherwise
    /// the caller pauses briefly and observes again.
    pub fn on_child_event(&mut self, interrupted: bool, child_exited: bool) -> (d: WaitStep)
        requires
            old(self).phase is Running,
        ensures
            final(self).args == old(self).args,
            final(self).cgroup_controller == old(self).cgroup_controller,
            interrupted ==> d == WaitStep::KillChild && final(self).phase is Terminated,
            !interrupted && child_exited ==> d == WaitStep::Proceed && final(self).phase
                is Completed,
            !interrupted && !child_exited ==> d == WaitStep::KeepWaiting && final(self).phase
                is Running,
    {
        if interrupted {
            self.phase = Phase::Terminated;
            WaitStep::KillChild
        } else if child_exited {
            self.phase = Phase::Completed;
            WaitStep::Proceed
        } else {
            WaitStep::KeepWaiting
        }
    }

    /// One step of cleanup, run on every exit path once the controller was
    /// bound. Removal never precedes an empty membership read, a run that
    /// activated nothing cleans up in one harmless step, and the phase turns
    /// to `CleanedUp` exactly when nothing is left to do. Cleanup is
    /// best-effort: the caller logs a failed read or removal and reports it
    /// as an event, and the machine moves on; such a failure never escapes
    /// past the run, so it cannot change the run's reported outcome.
    pub fn teardown_step(&mut self, ev: TeardownEvent) -> (act: TeardownAction)
        requires
            old(self).cgroup_controller.td_event_ok(ev),
        ensures
            final(self).args == old(self).args,
            CgroupController::td_transition(
                old(self).cgroup_controller,
                final(self).cgroup_controller,
                ev,
                act,
            ),
            act is RemoveDir ==> ev == (TeardownEvent::ProcsRead { empty: true }),
            old(self).cgroup_controller.td_idle() && old(self).cgroup_controller.nothing_activated()
                ==> act is Done,
            act is Done ==> final(self).phase is CleanedUp
                && final(self).cgroup_controller.td_done(),
            !(act is Done) ==> final(self).phase == old(self).phase,
    {
        let act = self.cgroup_controller.teardown_step(ev);
        if action_is_done(&act) {
            self.phase = Phase::CleanedUp;
        }
        act
    }
}

fn action_is_done(act: &TeardownAction) -> (r: bool)
    ensures
        r == (act is Done),
{
    match act {
        TeardownAction::Done => true,
        _ => false,
    }
}

} // verus!
