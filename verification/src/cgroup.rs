//! The control group of a container: its limits and its processes.

use crate::cli::ContainerConfig;
use crate::command::{
    detailed, host_step, needed, push_step, Action, ActionView, Failure, Policy, PolicyView, Step,
    StepView,
};
use crate::error::{error_of, ContainerError, ContainerResult, ErrorKind};
use crate::text::{decimal_string, decimal_text, signed_string, signed_text, views};
use vstd::prelude::*;

verus! {

/// How many bytes a mebibyte has.
pub const MIB: u64 = 1_048_576;

/// The length of the period that a CPU limit refers to, in microseconds.
pub const CPU_PERIOD: u64 = 100_000;

/// The largest memory limit, in mebibytes, whose number of bytes fits in 64 bits.
pub const MAX_MEMORY_MB: u64 = 17_592_186_044_415;

/// The largest CPU limit, in percent of one core, whose quota fits in 64 bits.
pub const MAX_CPU_PERCENT: u64 = 18_446_744_073_709_551;

/// The name of a container's control group and the limits asked for it.
#[derive(Debug, Clone, PartialEq, Eq)]
pub struct CgroupConfig {
    pub container_id: String,
    pub memory_limit_mb: Option<u64>,
    pub cpu_percent: Option<u64>,
    pub pids_limit: Option<i64>,
}

/// `CgroupConfig`, with every text as the sequence of its characters.
pub struct CgroupConfigView {
    pub container_id: Seq<char>,
    pub memory_limit_mb: Option<u64>,
    pub cpu_percent: Option<u64>,
    pub pids_limit: Option<i64>,
}

impl View for CgroupConfig {
    type V = CgroupConfigView;

    open spec fn view(&self) -> CgroupConfigView {
        CgroupConfigView {
            container_id: self.container_id@,
            memory_limit_mb: self.memory_limit_mb,
            cpu_percent: self.cpu_percent,
            pids_limit: self.pids_limit,
        }
    }
}

/// The directory of the control group of the container `id`.
pub open spec fn cgroup_dir(id: Seq<char>) -> Seq<char> {
    "/sys/fs/cgroup/"@ + id
}

/// The file `name` in the control group of the container `id`.
pub open spec fn cgroup_file(id: Seq<char>, name: Seq<char>) -> Seq<char> {
    cgroup_dir(id) + "/"@ + name
}

/// What is written to `memory.max` for a limit in mebibytes: that many bytes.
pub open spec fn memory_max(mb: u64) -> Seq<char> {
    decimal_text((mb * MIB) as nat)
}

/// What is written to `cpu.max` for a limit in percent of one core: the
/// quota in microseconds per period, a blank, and the period.
pub open spec fn cpu_max(percent: u64) -> Seq<char> {
    decimal_text((percent * 1000) as nat) + " "@ + decimal_text(CPU_PERIOD as nat)
}

/// Whether the limits can be written: the memory limit in bytes and the CPU
/// quota fit in 64 bits.
pub open spec fn limits_fit(config: CgroupConfigView) -> bool {
    &&& config.memory_limit_mb matches Some(mb) ==> mb <= MAX_MEMORY_MB
    &&& config.cpu_percent matches Some(percent) ==> percent <= MAX_CPU_PERCENT
}

/// The step that writes one limit.
pub open spec fn limit_write(id: Seq<char>, file: Seq<char>, value: Seq<char>) -> StepView {
    host_step(
        ActionView::Write { path: cgroup_file(id, file), content: value },
        needed(ErrorKind::Cgroup, "Failed to write "@ + file + ": "@),
    )
}

/// The steps that make the control group and write the limits that were
/// asked for: memory, then CPU, then the number of processes.
pub open spec fn cgroup_setup(config: CgroupConfigView) -> Seq<StepView> {
    seq![
        host_step(
            ActionView::CreateDir { path: cgroup_dir(config.container_id) },
            needed(ErrorKind::Cgroup, "Failed to create cgroup: "@),
        ),
    ] + (match config.memory_limit_mb {
        Some(mb) => seq![limit_write(config.container_id, "memory.max"@, memory_max(mb))],
        None => seq![],
    }) + (match config.cpu_percent {
        Some(percent) => seq![limit_write(config.container_id, "cpu.max"@, cpu_max(percent))],
        None => seq![],
    }) + (match config.pids_limit {
        Some(pids) => seq![
            limit_write(config.container_id, "pids.max"@, signed_text(pids as int)),
        ],
        None => seq![],
    })
}

/// The step that puts the process `pid` into the control group: its number
/// in decimal is written at the end of `cgroup.procs`.
pub open spec fn attachment(id: Seq<char>, pid: i32) -> StepView {
    host_step(
        ActionView::Append {
            path: cgroup_file(id, "cgroup.procs"@),
            content: signed_text(pid as int),
        },
        needed(ErrorKind::Cgroup, "Failed to add process to cgroup: "@),
    )
}

/// The step that removes the control group; one that is gone already is no failure.
pub open spec fn teardown(id: Seq<char>) -> StepView {
    host_step(
        ActionView::RemoveDir { path: cgroup_dir(id) },
        PolicyView::Present { failure: detailed(ErrorKind::Cgroup, "Failed to remove cgroup: "@) },
    )
}

/// The control group of the container `id` with the limits that the
/// request asks for.
pub fn limits_of(id: String, config: &ContainerConfig) -> (c: CgroupConfig)
    ensures
        c@ == (CgroupConfigView {
            container_id: id@,
            memory_limit_mb: config.memory_limit_mb,
            cpu_percent: config.cpu_percent,
            pids_limit: config.pids_limit,
        }),
{
    CgroupConfig {
        container_id: id,
        memory_limit_mb: config.memory_limit_mb,
        cpu_percent: config.cpu_percent,
        pids_limit: config.pids_limit,
    }
}

impl CgroupConfig {
    /// The configuration of the control group of `container_id`, without limits.
    pub fn new(container_id: String) -> (c: CgroupConfig)
        ensures
            c@ == (CgroupConfigView {
                container_id: container_id@,
                memory_limit_mb: None,
                cpu_percent: None,
                pids_limit: None,
            }),
    {
        CgroupConfig { container_id, memory_limit_mb: None, cpu_percent: None, pids_limit: None }
    }

    /// The same configuration with a memory limit of `mb` mebibytes.
    pub fn with_memory_mb(self, mb: u64) -> (c: CgroupConfig)
        ensures
            c@ == (CgroupConfigView { memory_limit_mb: Some(mb), ..self@ }),
    {
        CgroupConfig {
            container_id: self.container_id,
            memory_limit_mb: Some(mb),
            cpu_percent: self.cpu_percent,
            pids_limit: self.pids_limit,
        }
    }

    /// The same configuration with a CPU limit of `percent` of one core.
    pub fn with_cpu_percent(self, percent: u64) -> (c: CgroupConfig)
        ensures
            c@ == (CgroupConfigView { cpu_percent: Some(percent), ..self@ }),
    {
        CgroupConfig {
            container_id: self.container_id,
            memory_limit_mb: self.memory_limit_mb,
            cpu_percent: Some(percent),
            pids_limit: self.pids_limit,
        }
    }

    /// The same configuration with at most `pids` processes.
    pub fn with_pids_limit(self, pids: i64) -> (c: CgroupConfig)
        ensures
            c@ == (CgroupConfigView { pids_limit: Some(pids), ..self@ }),
    {
        CgroupConfig {
            container_id: self.container_id,
            memory_limit_mb: self.memory_limit_mb,
            cpu_percent: self.cpu_percent,
            pids_limit: Some(pids),
        }
    }

    /// Whether any limit is asked for.
    pub fn has_limits(&self) -> (r: bool)
        ensures
            r == (self.memory_limit_mb is Some || self.cpu_percent is Some || self.pids_limit
                is Some),
    {
        self.memory_limit_mb.is_some() || self.cpu_percent.is_some() || self.pids_limit.is_some()
    }
}

/// The control group of one container.
#[derive(Debug, Clone, PartialEq, Eq)]
pub struct CgroupManager {
    config: CgroupConfig,
}

impl CgroupManager {
    /// The configuration that the manager works on.
    pub closed spec fn config(&self) -> CgroupConfigView {
        self.config@
    }

    /// The limits can be written.
    pub open spec fn wf(&self) -> bool {
        limits_fit(self.config())
    }

    /// The manager of the control group that `config` describes. Limits
    /// that cannot be written in 64 bits are refused.
    pub fn new(config: CgroupConfig) -> (r: ContainerResult<CgroupManager>)
        ensures
            match r {
                Ok(m) => limits_fit(config@) && m.wf() && m.config() == config@,
                Err(e) => !limits_fit(config@) && e@ == error_of(
                    ErrorKind::Cgroup,
                    "Resource limit is too large"@,
                ),
            },
    {
        let memory_fits = match config.memory_limit_mb {
            Some(mb) => mb <= MAX_MEMORY_MB,
            None => true,
        };
        let cpu_fits = match config.cpu_percent {
            Some(percent) => percent <= MAX_CPU_PERCENT,
            None => true,
        };
        if memory_fits && cpu_fits {
            Ok(CgroupManager { config })
        } else {
            Err(ContainerError::Cgroup { message: String::from_str("Resource limit is too large") })
        }
    }

    /// The directory of the control group.
    pub fn path(&self) -> (s: String)
        ensures
            s@ == cgroup_dir(self.config().container_id),
    {
        let mut s = String::from_str("/sys/fs/cgroup/");
        s.append(self.config.container_id.as_str());
        s
    }

    fn file(&self, name: &str) -> (s: String)
        ensures
            s@ == cgroup_file(self.config().container_id, name@),
    {
        let mut s = self.path();
        s.append("/");
        s.append(name);
        s
    }

    fn limit(&self, name: &str, value: String) -> (s: Step)
        ensures
            s@ == limit_write(self.config().container_id, name@, value@),
    {
        let mut prefix = String::from_str("Failed to write ");
        prefix.append(name);
        prefix.append(": ");
        Step::of(
            Action::Write { path: self.file(name), content: value },
            Policy::needed(ErrorKind::Cgroup, prefix.as_str()),
        )
    }

    /// Plans making the control group and writing its limits.
    pub fn setup(&self) -> (plan: Vec<Step>)
        requires
            self.wf(),
        ensures
            views(plan@) == cgroup_setup(self.config()),
    {
        let mut plan: Vec<Step> = Vec::new();
        push_step(
            &mut plan,
            Step::of(
                Action::CreateDir { path: self.path() },
                Policy::needed(ErrorKind::Cgroup, "Failed to create cgroup: "),
            ),
        );
        match self.config.memory_limit_mb {
            Some(mb) => {
                push_step(&mut plan, self.limit("memory.max", decimal_string(mb * MIB)));
            },
            None => {},
        }
        match self.config.cpu_percent {
            Some(percent) => {
                let mut value = decimal_string(percent * 1000);
                value.append(" ");
                let period = decimal_string(CPU_PERIOD);
                value.append(period.as_str());
                push_step(&mut plan, self.limit("cpu.max", value));
            },
            None => {},
        }
        match self.config.pids_limit {
            Some(pids) => {
                push_step(&mut plan, self.limit("pids.max", signed_string(pids)));
            },
            None => {},
        }
        assert(views(plan@) =~= cgroup_setup(self.config()));
        plan
    }

    /// The step that puts the process `pid` into the control group.
    pub fn add_process(&self, pid: i32) -> (s: Step)
        ensures
            s@ == attachment(self.config().container_id, pid),
    {
        Step::of(
            Action::Append { path: self.file("cgroup.procs"), content: signed_string(pid as i64) },
            Policy::needed(ErrorKind::Cgroup, "Failed to add process to cgroup: "),
        )
    }

    /// The step that removes the control group.
    pub fn cleanup(&self) -> (s: Step)
        ensures
            s@ == teardown(self.config().container_id),
    {
        Step::of(
            Action::RemoveDir { path: self.path() },
            Policy::Present {
                failure: Failure::detailed(ErrorKind::Cgroup, "Failed to remove cgroup: "),
            },
        )
    }
}

} // verus!
