//! Management requests to the machine worker.

use vstd::prelude::*;

use crate::config::{DeviceResource, DeviceVtl, Guid, HostFile};

verus! {

/// A failure reported by another process, by its text.
#[derive(Debug)]
pub struct RemoteError {
    pub message: String,
}

impl View for RemoteError {
    type V = Seq<char>;

    open spec fn view(&self) -> Seq<char> {
        self.message@
    }
}

/// A request to the machine worker, with its arguments.
#[derive(Debug)]
pub enum VmRpc {
    Save,
    /// Boundedly quiesce the VM and return saved state while leaving it stopped.
    QuiesceForSnapshot { timeout_ms: u64 },
    /// Resume a VM after a rollback-safe snapshot failure before commit.
    ResumeAfterFailedSnapshot { timeout_ms: u64 },
    /// Release a post-OUT boundary without starting a snapshot transaction.
    ReleaseSnapshotBoundary,
    Resume,
    Pause,
    ClearHalt,
    Reset,
    Nmi(u32),
    AddVmbusDevice(DeviceVtl, DeviceResource),
    ConnectHvsock(Guid, DeviceVtl),
    PulseSaveRestore,
    StartReloadIgvm(HostFile),
    CompleteReloadIgvm(bool),
    ReadMemory(u64, usize),
    WriteMemory(u64, Vec<u8>),
    /// Updates the command line parameters that will be passed to the boot shim
    /// on the *next* VM load. This will replace the existing command line
    /// parameters.
    UpdateCliParams(String),
    /// Hot-add a PCIe device to a named port at runtime.
    AddPcieDevice(String, DeviceResource),
    /// Hot-remove a PCIe device from a named port at runtime.
    RemovePcieDevice(String),
    /// Dump VM state (VP registers and memory) to a file.
    DumpState(HostFile),
}

/// State captured at a stopped snapshot boundary.
#[derive(Debug)]
pub struct SnapshotSaveResponse {
    /// Encoded VM saved state.
    pub saved_state: Vec<u8>,
    /// Complete state-unit inventory in stable registration order.
    pub state_unit_names: Vec<String>,
    /// Effective guest TSC frequency.
    pub tsc_frequency_hz: u64,
    /// Effective local APIC timer frequency.
    pub apic_frequency_hz: u64,
    /// Host wall time at the stopped capture boundary, in nanoseconds since the
    /// Unix epoch.
    pub capture_wall_clock_ns: u128,
    /// Canonical effective CPU compatibility contract.
    pub cpu_contract: Vec<u8>,
}

/// How a quiesce request failed.
#[derive(Debug)]
pub enum SnapshotQuiesceError {
    /// The request was rejected before any state transition began.
    Rejected(RemoteError),
    /// No uncertain transition occurred; the controller may request rollback.
    RollbackSafe(RemoteError),
    /// A unit may have partially transitioned; the VM must be terminated.
    Uncertain(RemoteError),
}

impl SnapshotQuiesceError {
    pub open spec fn text(self) -> Seq<char> {
        match self {
            SnapshotQuiesceError::Rejected(_) => "snapshot quiesce request was rejected"@,
            SnapshotQuiesceError::RollbackSafe(_) =>
                "snapshot quiesce failed without uncertain state"@,
            SnapshotQuiesceError::Uncertain(_) => "snapshot quiesce left uncertain state"@,
        }
    }

    pub fn message(&self) -> (s: &'static str)
        ensures
            s@ == self.text(),
    {
        match self {
            SnapshotQuiesceError::Rejected(_) => "snapshot quiesce request was rejected",
            SnapshotQuiesceError::RollbackSafe(_) =>
                "snapshot quiesce failed without uncertain state",
            SnapshotQuiesceError::Uncertain(_) => "snapshot quiesce left uncertain state",
        }
    }
}

/// How a save-and-restore pulse failed.
#[derive(Debug)]
pub enum PulseSaveRestoreError {
    ResetNotSupported,
    Other(RemoteError),
    UnsupportedMachineProfile,
}

impl PulseSaveRestoreError {
    pub open spec fn text(self) -> Seq<char> {
        match self {
            PulseSaveRestoreError::ResetNotSupported => "reset not supported"@,
            PulseSaveRestoreError::Other(_) => "pulse save+restore failed"@,
            PulseSaveRestoreError::UnsupportedMachineProfile =>
                "save and restore are unavailable for this machine profile"@,
        }
    }

    pub fn message(&self) -> (s: &'static str)
        ensures
            s@ == self.text(),
    {
        match self {
            PulseSaveRestoreError::ResetNotSupported => "reset not supported",
            PulseSaveRestoreError::Other(_) => "pulse save+restore failed",
            PulseSaveRestoreError::UnsupportedMachineProfile =>
                "save and restore are unavailable for this machine profile",
        }
    }

    /// Any other failure is reported with its own text behind this one.
    pub fn from_error(error: RemoteError) -> (r: PulseSaveRestoreError)
        ensures
            r == PulseSaveRestoreError::Other(error),
    {
        PulseSaveRestoreError::Other(error)
    }
}

impl VmRpc {
    /// The name of the request, as logs show it.
    pub open spec fn spec_name(self) -> Seq<char> {
        match self {
            VmRpc::Reset => "Reset"@,
            VmRpc::Save => "Save"@,
            VmRpc::QuiesceForSnapshot { .. } => "QuiesceForSnapshot"@,
            VmRpc::ResumeAfterFailedSnapshot { .. } => "ResumeAfterFailedSnapshot"@,
            VmRpc::ReleaseSnapshotBoundary => "ReleaseSnapshotBoundary"@,
            VmRpc::Resume => "Resume"@,
            VmRpc::Pause => "Pause"@,
            VmRpc::ClearHalt => "ClearHalt"@,
            VmRpc::Nmi(_) => "Nmi"@,
            VmRpc::AddVmbusDevice(_, _) => "AddVmbusDevice"@,
            VmRpc::ConnectHvsock(_, _) => "ConnectHvsock"@,
            VmRpc::PulseSaveRestore => "PulseSaveRestore"@,
            VmRpc::StartReloadIgvm(_) => "StartReloadIgvm"@,
            VmRpc::CompleteReloadIgvm(_) => "CompleteReloadIgvm"@,
            VmRpc::ReadMemory(_, _) => "ReadMemory"@,
            VmRpc::WriteMemory(_, _) => "WriteMemory"@,
            VmRpc::UpdateCliParams(_) => "UpdateCliParams"@,
            VmRpc::AddPcieDevice(_, _) => "AddPcieDevice"@,
            VmRpc::RemovePcieDevice(_) => "RemovePcieDevice"@,
            VmRpc::DumpState(_) => "DumpState"@,
        }
    }

    /// Returns the name of the request.
    pub fn name(&self) -> (s: &'static str)
        ensures
            s@ == self.spec_name(),
    {
        match self {
            VmRpc::Reset => "Reset",
            VmRpc::Save => "Save",
            VmRpc::QuiesceForSnapshot { .. } => "QuiesceForSnapshot",
            VmRpc::ResumeAfterFailedSnapshot { .. } => "ResumeAfterFailedSnapshot",
            VmRpc::ReleaseSnapshotBoundary => "ReleaseSnapshotBoundary",
            VmRpc::Resume => "Resume",
            VmRpc::Pause => "Pause",
            VmRpc::ClearHalt => "ClearHalt",
            VmRpc::Nmi(_) => "Nmi",
            VmRpc::AddVmbusDevice(_, _) => "AddVmbusDevice",
            VmRpc::ConnectHvsock(_, _) => "ConnectHvsock",
            VmRpc::PulseSaveRestore => "PulseSaveRestore",
            VmRpc::StartReloadIgvm(_) => "StartReloadIgvm",
            VmRpc::CompleteReloadIgvm(_) => "CompleteReloadIgvm",
            VmRpc::ReadMemory(_, _) => "ReadMemory",
            VmRpc::WriteMemory(_, _) => "WriteMemory",
            VmRpc::UpdateCliParams(_) => "UpdateCliParams",
            VmRpc::AddPcieDevice(_, _) => "AddPcieDevice",
            VmRpc::RemovePcieDevice(_) => "RemovePcieDevice",
            VmRpc::DumpState(_) => "DumpState",
        }
    }
}

} // verus!
