//! What the worker of a machine is launched with.

use vstd::prelude::*;

use crate::config::{Config, HostFile};
use crate::run::{restore_gate_timeout, RestoreTime};

verus! {

/// The name of the worker that runs a machine.
pub const VM_WORKER: &'static str = "VmWorker";

/// The whole event that is written before a restored machine can execute.
pub const RESTORE_READY_EVENT_V1: &'static str = "OPENVMM_RESTORE_READY_V1\n";

/// The memory that a machine is launched on.
#[derive(Debug)]
pub enum LaunchMemory {
    /// Memory of its own.
    Anonymous,
    /// A file that the machine writes to.
    Shared(HostFile),
    /// A snapshot that stays as it is, with what the machine is told about the
    /// time since it was taken.
    Snapshot { file: HostFile, saved_state: HostFile, time: Option<RestoreTime> },
}

/// Launch parameters for the worker of a machine.
#[derive(Debug)]
pub struct VmWorkerParameters {
    /// The initial configuration.
    pub cfg: Config,
    /// The saved state.
    pub saved_state: Option<HostFile>,
    /// File-backed guest memory.
    pub shared_memory: Option<HostFile>,
    /// Whether writes to `shared_memory` stay private to this machine.
    pub shared_memory_copy_on_write: bool,
    /// Host downtime to apply before a restored machine starts.
    pub restore_downtime_ns: Option<u128>,
    pub restore_tsc_frequency_hz: Option<u64>,
    pub restore_apic_frequency_hz: Option<u64>,
    pub restore_cpu_contract: Option<Vec<u8>>,
    /// How long a gated restore waits for the guest, where there is a limit.
    pub restore_gate_timeout_ms: Option<u64>,
}

/// The parameters are those of a machine on this memory.
pub open spec fn launches(
    p: VmWorkerParameters,
    cfg: Config,
    memory: LaunchMemory,
    gate_required: bool,
    gate_timeout_ms: u64,
) -> bool {
    &&& p.cfg == cfg
    &&& p.restore_gate_timeout_ms == (if gate_required {
        Some(gate_timeout_ms)
    } else {
        None
    })
    &&& match memory {
        LaunchMemory::Anonymous => p.shared_memory is None && p.saved_state is None
            && !p.shared_memory_copy_on_write,
        LaunchMemory::Shared(file) => p.shared_memory == Some(file) && p.saved_state is None
            && !p.shared_memory_copy_on_write,
        LaunchMemory::Snapshot { file, saved_state, .. } => p.shared_memory == Some(file)
            && p.saved_state == Some(saved_state) && p.shared_memory_copy_on_write,
    }
    &&& match memory {
        LaunchMemory::Snapshot { time: Some(time), .. } => {
            &&& p.restore_downtime_ns == Some(time.downtime_ns)
            &&& p.restore_tsc_frequency_hz == Some(time.tsc_frequency_hz)
            &&& p.restore_apic_frequency_hz == time.apic_frequency_hz
            &&& p.restore_cpu_contract == Some(time.cpu_contract)
        },
        _ => {
            &&& p.restore_downtime_ns is None && p.restore_tsc_frequency_hz is None
            &&& p.restore_apic_frequency_hz is None && p.restore_cpu_contract is None
        },
    }
}

/// Gathers the launch parameters of a machine.
pub fn worker_parameters(
    cfg: Config,
    memory: LaunchMemory,
    gate_required: bool,
    gate_timeout_ms: u64,
) -> (p: VmWorkerParameters)
    ensures
        launches(p, cfg, memory, gate_required, gate_timeout_ms),
{
    let mut p = VmWorkerParameters {
        cfg,
        saved_state: None,
        shared_memory: None,
        shared_memory_copy_on_write: false,
        restore_downtime_ns: None,
        restore_tsc_frequency_hz: None,
        restore_apic_frequency_hz: None,
        restore_cpu_contract: None,
        restore_gate_timeout_ms: restore_gate_timeout(gate_required, gate_timeout_ms),
    };
    match memory {
        LaunchMemory::Anonymous => {},
        LaunchMemory::Shared(file) => {
            p.shared_memory = Some(file);
        },
        LaunchMemory::Snapshot { file, saved_state, time } => {
            p.shared_memory = Some(file);
            p.saved_state = Some(saved_state);
            p.shared_memory_copy_on_write = true;
            if let Some(time) = time {
                p.restore_downtime_ns = Some(time.downtime_ns);
                p.restore_tsc_frequency_hz = Some(time.tsc_frequency_hz);
                p.restore_apic_frequency_hz = time.apic_frequency_hz;
                p.restore_cpu_contract = Some(time.cpu_contract);
            }
        },
    }
    p
}

/// A machine never writes to the snapshot that it is restored from.
pub proof fn law_snapshots_stay_as_they_are(
    p: VmWorkerParameters,
    cfg: Config,
    memory: LaunchMemory,
    gate_required: bool,
    gate_timeout_ms: u64,
)
    requires
        launches(p, cfg, memory, gate_required, gate_timeout_ms),
        memory is Snapshot,
    ensures
        p.shared_memory is Some ==> p.shared_memory_copy_on_write,
        p.saved_state is Some,
{
}

} // verus!
