//! The controller of a running machine: what it does on each event, and which
//! of its operator's requests it can serve.

use vstd::prelude::*;

use crate::config::{Guid, MachineProfile};
use crate::refusal::{refusal_of, refuse, string_view, Refusal};

verus! {

/// Inspection target: host-side workers or the paravisor.
#[derive(Clone, Copy, Debug, PartialEq, Eq, Structural)]
pub enum InspectTarget {
    Host,
    Paravisor,
}

#[derive(Debug)]
pub struct AddVtl0ScsiDiskParams {
    pub controller_guid: Guid,
    pub lun: u32,
    pub device_type: i32,
    pub device_path: Guid,
    pub sub_device_path: u32,
}

#[derive(Debug)]
pub struct RemoveVtl0ScsiDiskParams {
    pub controller_guid: Guid,
    pub lun: u32,
}

#[derive(Debug)]
pub struct RemoveVtl0ScsiDiskByNvmeNsidParams {
    pub controller_guid: Guid,
    pub nvme_controller_guid: Guid,
    pub nsid: u32,
}

#[derive(Debug)]
pub struct ServiceVtl2Params {
    pub user_mode_only: bool,
    pub igvm: Option<String>,
    pub nvme_keepalive: bool,
    pub mana_keepalive: bool,
}

/// Events sent from the controller to its operator.
#[derive(Debug)]
pub enum VmControllerEvent {
    /// The VM worker stopped (normally or with error).
    WorkerStopped { error: Option<String> },
    /// The VNC worker stopped or failed.
    VncWorkerStopped { error: Option<String> },
    /// The guest halted.
    GuestHalt(String),
    /// The controller requests that the process exit with this code, because the
    /// guest drove a power event the user opted into exiting on.
    ExitRequested { code: i32 },
}

/// The mathematical value of a [`VmControllerEvent`].
pub enum ControllerNotice {
    WorkerStopped { error: Option<Seq<char>> },
    VncWorkerStopped { error: Option<Seq<char>> },
    GuestHalt(Seq<char>),
    ExitRequested { code: int },
}

impl View for VmControllerEvent {
    type V = ControllerNotice;

    open spec fn view(&self) -> ControllerNotice {
        match self {
            VmControllerEvent::WorkerStopped { error } => ControllerNotice::WorkerStopped {
                error: string_view(*error),
            },
            VmControllerEvent::VncWorkerStopped { error } => ControllerNotice::VncWorkerStopped {
                error: string_view(*error),
            },
            VmControllerEvent::GuestHalt(text) => ControllerNotice::GuestHalt(text@),
            VmControllerEvent::ExitRequested { code } => ControllerNotice::ExitRequested {
                code: *code as int,
            },
        }
    }
}

/// What to do when the guest drives a power event.
#[derive(Clone, Copy, Debug, PartialEq, Eq, Structural)]
pub enum GuestPowerAction {
    /// Keep the stopped machine.
    Halt,
    /// Reboot in place.
    Reset,
    /// Exit this process with a code.
    Exit(u8),
}

/// The action to take for each guest power event.
#[derive(Clone, Copy, Debug, PartialEq, Eq, Structural)]
pub struct GuestPowerActions {
    /// Guest powered off or hibernated.
    pub shutdown: GuestPowerAction,
    /// Guest requested a reset.
    pub reset: GuestPowerAction,
    /// Guest triple-faulted.
    pub crash: GuestPowerAction,
    /// Guest watchdog timer expired.
    pub watchdog: GuestPowerAction,
}

impl Default for GuestPowerActions {
    /// A guest reset and a watchdog timeout reboot in place; a power-off or crash
    /// keeps the stopped machine.
    fn default() -> (r: GuestPowerActions)
        ensures
            r == default_power_actions(),
    {
        GuestPowerActions {
            shutdown: GuestPowerAction::Halt,
            reset: GuestPowerAction::Reset,
            crash: GuestPowerAction::Halt,
            watchdog: GuestPowerAction::Reset,
        }
    }
}

pub open spec fn default_power_actions() -> GuestPowerActions {
    GuestPowerActions {
        shutdown: GuestPowerAction::Halt,
        reset: GuestPowerAction::Reset,
        crash: GuestPowerAction::Halt,
        watchdog: GuestPowerAction::Reset,
    }
}

/// Why the guest halted.
#[derive(Clone, Copy, Debug, PartialEq, Eq, Structural)]
pub enum HaltReason {
    PowerOff,
    PowerOffWithStatus { code: u8 },
    Hibernate,
    Reset,
    TripleFault,
    Watchdog,
    /// Any other reason.
    Other,
}

pub open spec fn power_action(reason: HaltReason, actions: GuestPowerActions) -> GuestPowerAction {
    match reason {
        HaltReason::PowerOff
        | HaltReason::PowerOffWithStatus { .. }
        | HaltReason::Hibernate => actions.shutdown,
        HaltReason::Reset => actions.reset,
        HaltReason::TripleFault => actions.crash,
        HaltReason::Watchdog => actions.watchdog,
        HaltReason::Other => GuestPowerAction::Halt,
    }
}

/// Decides what to do for a guest halt, given the per-event actions. A halt for
/// any other reason keeps the stopped machine for inspection.
pub fn action_for(reason: &HaltReason, actions: &GuestPowerActions) -> (r: GuestPowerAction)
    ensures
        r == power_action(*reason, *actions),
{
    match reason {
        HaltReason::PowerOff
        | HaltReason::PowerOffWithStatus { .. }
        | HaltReason::Hibernate => actions.shutdown,
        HaltReason::Reset => actions.reset,
        HaltReason::TripleFault => actions.crash,
        HaltReason::Watchdog => actions.watchdog,
        HaltReason::Other => GuestPowerAction::Halt,
    }
}

/// What happened to a worker process.
#[derive(Debug)]
pub enum WorkerEvent {
    Stopped,
    /// With the text of the failure.
    Failed(String),
    RestartFailed,
    Started,
}

/// What a guest's snapshot request ended in.
#[derive(Clone, Copy, Debug, PartialEq, Eq, Structural)]
pub enum GuestSnapshotAction {
    Continue,
    Terminate { exit_code: i32 },
}

/// What happened to the machine or to its operator.
#[derive(Debug)]
pub enum MachineEvent {
    /// The operator asked the machine to quit.
    Quit,
    /// The operator is gone.
    RpcClosed,
    Worker(WorkerEvent),
    VncWorker(WorkerEvent),
    /// The guest halted, with the text of the reason.
    Halt { reason: HaltReason, text: String },
    /// A reset that the controller ordered failed, with the text of the reason
    /// that led to it.
    ResetFailed { text: String },
    /// A snapshot request of the guest was served.
    SnapshotServed(GuestSnapshotAction),
}

/// What the controller does outside itself.
#[derive(Clone, Copy, Debug, PartialEq, Eq, Structural)]
pub enum MachineAction {
    Nothing,
    /// Ask the VM worker to stop.
    StopWorker,
    /// Reboot the machine in place.
    ResetMachine,
}

/// Whether the controller goes on.
#[derive(Clone, Copy, Debug, PartialEq, Eq, Structural)]
pub enum Flow {
    /// Wait for the next event.
    Continue,
    /// Stop and join the workers, and end.
    CleanUp,
    /// End at once: the worker's teardown cannot finish while the guest's
    /// processors are parked.
    Leave,
}

/// What the controller remembers between events.
#[derive(Clone, Copy, Debug, PartialEq, Eq, Structural)]
pub struct ControllerState {
    /// The machine was asked to quit.
    pub quit: bool,
    /// The operator is gone.
    pub rpc_closed: bool,
    pub guest_power_actions: GuestPowerActions,
    /// A crash is to be dumped.
    pub crash_dump: bool,
}

/// What the controller does on an event.
#[derive(Debug)]
pub struct ControllerStep {
    /// Write the guest's state to the configured file first.
    pub dump: bool,
    pub action: MachineAction,
    pub notice: Option<VmControllerEvent>,
    pub flow: Flow,
}

/// The mathematical value of a [`ControllerStep`].
pub struct Step {
    pub dump: bool,
    pub action: MachineAction,
    pub notice: Option<ControllerNotice>,
    pub flow: Flow,
}

impl View for ControllerStep {
    type V = Step;

    open spec fn view(&self) -> Step {
        Step {
            dump: self.dump,
            action: self.action,
            notice: match self.notice {
                Some(n) => Some(n@),
                None => None,
            },
            flow: self.flow,
        }
    }
}

/// The controller's state after an event.
pub open spec fn controller_after(state: ControllerState, event: MachineEvent) -> ControllerState {
    match event {
        MachineEvent::Quit => ControllerState { quit: true, ..state },
        MachineEvent::RpcClosed => ControllerState { quit: true, rpc_closed: true, ..state },
        _ => state,
    }
}

pub open spec fn quiet() -> Step {
    Step { dump: false, action: MachineAction::Nothing, notice: None, flow: Flow::Continue }
}

/// What the controller does on an event.
pub open spec fn controller_step(state: ControllerState, event: MachineEvent) -> Step {
    match event {
        MachineEvent::Quit | MachineEvent::RpcClosed => Step {
            action: MachineAction::StopWorker,
            ..quiet()
        },
        MachineEvent::Worker(WorkerEvent::Stopped) => Step {
            notice: Some(
                ControllerNotice::WorkerStopped {
                    error: if state.quit {
                        None
                    } else {
                        Some("VM worker unexpectedly stopped"@)
                    },
                },
            ),
            flow: Flow::CleanUp,
            ..quiet()
        },
        MachineEvent::Worker(WorkerEvent::Failed(text)) => Step {
            notice: Some(ControllerNotice::WorkerStopped { error: Some(text@) }),
            flow: Flow::CleanUp,
            ..quiet()
        },
        MachineEvent::VncWorker(WorkerEvent::Stopped) => Step {
            notice: Some(ControllerNotice::VncWorkerStopped { error: None }),
            ..quiet()
        },
        MachineEvent::VncWorker(WorkerEvent::Failed(text)) => Step {
            notice: Some(ControllerNotice::VncWorkerStopped { error: Some(text@) }),
            ..quiet()
        },
        MachineEvent::Halt { reason: HaltReason::PowerOffWithStatus { code }, .. } => Step {
            notice: Some(ControllerNotice::ExitRequested { code: code as int }),
            flow: Flow::Leave,
            ..quiet()
        },
        MachineEvent::Halt { reason, text } => {
            let dump = reason == HaltReason::TripleFault && state.crash_dump;
            match power_action(reason, state.guest_power_actions) {
                GuestPowerAction::Exit(code) => Step {
                    dump,
                    notice: Some(ControllerNotice::ExitRequested { code: code as int }),
                    flow: Flow::Leave,
                    ..quiet()
                },
                GuestPowerAction::Reset => Step {
                    dump,
                    action: MachineAction::ResetMachine,
                    ..quiet()
                },
                GuestPowerAction::Halt => Step {
                    dump,
                    notice: Some(ControllerNotice::GuestHalt(text@)),
                    ..quiet()
                },
            }
        },
        MachineEvent::ResetFailed { text } => Step {
            notice: Some(ControllerNotice::GuestHalt(text@)),
            ..quiet()
        },
        MachineEvent::SnapshotServed(GuestSnapshotAction::Terminate { exit_code }) => Step {
            notice: Some(ControllerNotice::ExitRequested { code: exit_code as int }),
            flow: Flow::CleanUp,
            ..quiet()
        },
        _ => quiet(),
    }
}

fn notify(notice: VmControllerEvent, flow: Flow) -> (r: ControllerStep)
    ensures
        r@ == (Step { notice: Some(notice@), flow, ..quiet() }),
{
    ControllerStep { dump: false, action: MachineAction::Nothing, notice: Some(notice), flow }
}

impl ControllerState {
    /// Takes an event, and says what to do about it.
    pub fn handle(&mut self, event: MachineEvent) -> (step: ControllerStep)
        ensures
            *final(self) == controller_after(*old(self), event),
            step@ == controller_step(*old(self), event),
    {
        match event {
            MachineEvent::Quit => {
                self.quit = true;
                ControllerStep {
                    dump: false,
                    action: MachineAction::StopWorker,
                    notice: None,
                    flow: Flow::Continue,
                }
            },
            MachineEvent::RpcClosed => {
                self.quit = true;
                self.rpc_closed = true;
                ControllerStep {
                    dump: false,
                    action: MachineAction::StopWorker,
                    notice: None,
                    flow: Flow::Continue,
                }
            },
            MachineEvent::Worker(WorkerEvent::Stopped) => {
                let error: Option<String> = if self.quit {
                    None
                } else {
                    Some("VM worker unexpectedly stopped".to_owned())
                };
                notify(VmControllerEvent::WorkerStopped { error }, Flow::CleanUp)
            },
            MachineEvent::Worker(WorkerEvent::Failed(text)) => notify(
                VmControllerEvent::WorkerStopped { error: Some(text) },
                Flow::CleanUp,
            ),
            MachineEvent::VncWorker(WorkerEvent::Stopped) => notify(
                VmControllerEvent::VncWorkerStopped { error: None },
                Flow::Continue,
            ),
            MachineEvent::VncWorker(WorkerEvent::Failed(text)) => notify(
                VmControllerEvent::VncWorkerStopped { error: Some(text) },
                Flow::Continue,
            ),
            MachineEvent::Halt { reason, text } => {
                if let HaltReason::PowerOffWithStatus { code } = reason {
                    return notify(
                        VmControllerEvent::ExitRequested { code: code as i32 },
                        Flow::Leave,
                    );
                }
                let dump: bool = reason == HaltReason::TripleFault && self.crash_dump;
                match action_for(&reason, &self.guest_power_actions) {
                    GuestPowerAction::Exit(code) => ControllerStep {
                        dump,
                        action: MachineAction::Nothing,
                        notice: Some(VmControllerEvent::ExitRequested { code: code as i32 }),
                        flow: Flow::Leave,
                    },
                    GuestPowerAction::Reset => ControllerStep {
                        dump,
                        action: MachineAction::ResetMachine,
                        notice: None,
                        flow: Flow::Continue,
                    },
                    GuestPowerAction::Halt => ControllerStep {
                        dump,
                        action: MachineAction::Nothing,
                        notice: Some(VmControllerEvent::GuestHalt(text)),
                        flow: Flow::Continue,
                    },
                }
            },
            MachineEvent::ResetFailed { text } => notify(
                VmControllerEvent::GuestHalt(text),
                Flow::Continue,
            ),
            MachineEvent::SnapshotServed(GuestSnapshotAction::Terminate { exit_code }) => notify(
                VmControllerEvent::ExitRequested { code: exit_code },
                Flow::CleanUp,
            ),
            _ => ControllerStep {
                dump: false,
                action: MachineAction::Nothing,
                notice: None,
                flow: Flow::Continue,
            },
        }
    }
}

/// Once asked to quit, a controller stays asked; and a worker that then stops is
/// not reported as a failure.
pub proof fn law_quit_is_final(state: ControllerState, event: MachineEvent)
    requires
        state.quit,
    ensures
        controller_after(state, event).quit,
        event == MachineEvent::Worker(WorkerEvent::Stopped) ==> controller_step(state, event).notice
            == Some(ControllerNotice::WorkerStopped { error: None }),
{
}

/// The controller ends exactly when the worker is gone, when the guest's power
/// event asks for an exit, or when a snapshot ends the source; and whenever it
/// ends it says why.
pub proof fn law_controller_ends_with_a_notice(state: ControllerState, event: MachineEvent)
    ensures
        controller_step(state, event).flow != Flow::Continue <==> (match event {
            MachineEvent::Worker(WorkerEvent::Stopped) => true,
            MachineEvent::Worker(WorkerEvent::Failed(_)) => true,
            MachineEvent::Halt { reason, .. } => reason is PowerOffWithStatus || power_action(
                reason,
                state.guest_power_actions,
            ) is Exit,
            MachineEvent::SnapshotServed(action) => action is Terminate,
            _ => false,
        }),
        controller_step(state, event).flow != Flow::Continue ==> controller_step(
            state,
            event,
        ).notice is Some,
        controller_step(state, event).notice matches Some(ControllerNotice::ExitRequested { .. })
            ==> controller_step(state, event).flow != Flow::Continue,
{
}

/// Whatever turns a controller towards its end stops the VM worker: a quit, or the
/// loss of the operator, always orders the worker to stop, and nothing else does.
/// The controller itself goes on until the worker has stopped.
pub proof fn law_quit_stops_the_worker(state: ControllerState, event: MachineEvent)
    ensures
        !state.quit && controller_after(state, event).quit ==> controller_step(state, event).action
            == MachineAction::StopWorker,
        event is Quit || event is RpcClosed ==> {
            &&& controller_after(state, event).quit
            &&& controller_step(state, event).action == MachineAction::StopWorker
            &&& controller_step(state, event).flow == Flow::Continue
            &&& controller_step(state, event).notice is None
        },
        controller_step(state, event).action == MachineAction::StopWorker ==> event is Quit || event
            is RpcClosed,
{
}

/// A controller forgets nothing and is never reconfigured by an event; it knows
/// that its operator is gone exactly once it was told.
pub proof fn law_controller_keeps_its_settings(state: ControllerState, event: MachineEvent)
    ensures
        controller_after(state, event).guest_power_actions == state.guest_power_actions,
        controller_after(state, event).crash_dump == state.crash_dump,
        controller_after(state, event).rpc_closed <==> state.rpc_closed || event is RpcClosed,
        controller_after(state, event).quit <==> state.quit || event is Quit || event is RpcClosed,
{
}

/// A halt of the guest is answered by the setting for its own kind of power event,
/// and by no other: a reset reboots, an exit leaves with the configured code, and
/// a kept machine is reported with the reason's text. A power-off with a status
/// leaves with that status, whatever is configured, and a halt of no known kind
/// keeps the machine.
pub proof fn law_halt_follows_its_own_setting(
    state: ControllerState,
    reason: HaltReason,
    text: String,
    setting: GuestPowerAction,
)
    requires
        reason is PowerOff || reason is Hibernate ==> setting == state.guest_power_actions.shutdown,
        reason is Reset ==> setting == state.guest_power_actions.reset,
        reason is TripleFault ==> setting == state.guest_power_actions.crash,
        reason is Watchdog ==> setting == state.guest_power_actions.watchdog,
        reason is Other ==> setting is Halt,
    ensures
        ({
            let step = controller_step(state, MachineEvent::Halt { reason, text });
            &&& match reason {
                HaltReason::PowerOffWithStatus { code } => {
                    &&& step.notice == Some(ControllerNotice::ExitRequested { code: code as int })
                    &&& step.flow == Flow::Leave
                    &&& step.action == MachineAction::Nothing
                },
                _ => {
                    &&& step.action == MachineAction::ResetMachine <==> setting is Reset
                    &&& step.action != MachineAction::ResetMachine ==> step.action
                        == MachineAction::Nothing
                    &&& step.flow == Flow::Leave <==> setting is Exit
                    &&& setting is Exit ==> step.notice == Some(
                        ControllerNotice::ExitRequested { code: setting->Exit_0 as int },
                    )
                    &&& setting is Halt ==> step.notice == Some(ControllerNotice::GuestHalt(text@))
                    &&& setting is Reset ==> step.notice is None && step.flow == Flow::Continue
                },
            }
        }),
{
}

/// The guest's state is dumped exactly for a triple fault of a machine whose
/// crashes are to be dumped.
pub proof fn law_only_crashes_are_dumped(state: ControllerState, event: MachineEvent)
    ensures
        controller_step(state, event).dump <==> state.crash_dump && (event matches
            MachineEvent::Halt { reason: HaltReason::TripleFault, .. }),
        controller_step(state, event).action == MachineAction::ResetMachine ==> event is Halt,
{
}

/// What happens to a worker, to a reset or to a snapshot is reported as what it
/// is: a failure with its own text, a stop that nobody asked for as a failure, a
/// failed reset as the halt that it was to answer, and a snapshot that ends its
/// source with the exit code that it was given. The VNC worker never ends the
/// machine.
pub proof fn law_endings_are_reported(
    state: ControllerState,
    text: String,
    worker: WorkerEvent,
    exit_code: i32,
)
    ensures
        ({
            let step = controller_step(
                state,
                MachineEvent::Worker(WorkerEvent::Failed(text)),
            );
            step.notice == Some(ControllerNotice::WorkerStopped { error: Some(text@) }) && step.flow
                == Flow::CleanUp
        }),
        ({
            let step = controller_step(state, MachineEvent::Worker(WorkerEvent::Stopped));
            &&& step.flow == Flow::CleanUp
            &&& step.notice matches Some(ControllerNotice::WorkerStopped { error }) && (error is Some
                <==> !state.quit)
        }),
        ({
            let step = controller_step(state, MachineEvent::VncWorker(worker));
            &&& step.flow == Flow::Continue && step.action == MachineAction::Nothing
            &&& worker is Stopped ==> step.notice == Some(
                ControllerNotice::VncWorkerStopped { error: None },
            )
            &&& worker matches WorkerEvent::Failed(text) ==> step.notice == Some(
                ControllerNotice::VncWorkerStopped { error: Some(text@) },
            )
            &&& worker is Started || worker is RestartFailed ==> step.notice is None
        }),
        ({
            let step = controller_step(state, MachineEvent::ResetFailed { text });
            step.notice == Some(ControllerNotice::GuestHalt(text@)) && step.flow == Flow::Continue
        }),
        ({
            let step = controller_step(
                state,
                MachineEvent::SnapshotServed(GuestSnapshotAction::Terminate { exit_code }),
            );
            step.notice == Some(ControllerNotice::ExitRequested { code: exit_code as int })
                && step.flow == Flow::CleanUp
        }),
        ({
            let step = controller_step(
                state,
                MachineEvent::SnapshotServed(GuestSnapshotAction::Continue),
            );
            step.notice is None && step.flow == Flow::Continue && step.action
                == MachineAction::Nothing
        }),
{
}

/// A machine that was configured with nothing reboots when the guest resets or its
/// watchdog expires, is kept when the guest powers off or crashes, and never ends
/// the process.
pub proof fn law_default_machine_survives_its_guest(
    reason: HaltReason,
    state: ControllerState,
    text: String,
)
    requires
        state.guest_power_actions == default_power_actions(),
        !(reason is PowerOffWithStatus),
    ensures
        ({
            let step = controller_step(state, MachineEvent::Halt { reason, text });
            &&& step.flow == Flow::Continue
            &&& step.action == MachineAction::ResetMachine <==> reason is Reset || reason
                is Watchdog
            &&& !(reason is Reset || reason is Watchdog) ==> step.notice == Some(
                ControllerNotice::GuestHalt(text@),
            )
        }),
{
}

/// A request of the operator, with its arguments.
#[derive(Debug)]
pub enum VmControllerRpc {
    /// Restart the VM worker.
    Restart,
    /// Restart the VNC worker.
    RestartVnc,
    /// Deferred inspection.
    Inspect(InspectTarget),
    /// Query current VTL2 settings.
    GetVtl2Settings,
    /// Add a VTL0 SCSI disk backed by a VTL2 storage device.
    AddVtl0ScsiDisk(AddVtl0ScsiDiskParams),
    /// Remove a VTL0 SCSI disk.
    RemoveVtl0ScsiDisk(RemoveVtl0ScsiDiskParams),
    /// Remove a VTL0 SCSI disk by NVMe namespace ID.
    RemoveVtl0ScsiDiskByNvmeNsid(RemoveVtl0ScsiDiskByNvmeNsidParams),
    /// Save a VM snapshot to a directory.
    SaveSnapshot(String),
    /// Dump VM state (VP registers and memory) to a file.
    DumpState(String),
    /// Service (update) the VTL2 firmware.
    ServiceVtl2(ServiceVtl2Params),
    /// Stop the VM and quit.
    Quit,
}

/// The resources that requests need.
#[derive(Debug)]
pub struct ControllerResources {
    pub machine_profile: MachineProfile,
    pub vnc_worker: bool,
    pub paravisor_inspector: bool,
    pub paravisor_diag: bool,
    pub memory_backing_file: bool,
    pub vtl2_settings: bool,
    pub ged: bool,
    pub igvm_path: Option<String>,
}

/// Why a request cannot be served, if it cannot.
pub open spec fn rpc_refusal(rpc: VmControllerRpc, r: ControllerResources) -> Option<Seq<char>> {
    match rpc {
        VmControllerRpc::Restart => if r.machine_profile == MachineProfile::Microvm {
            Some("worker restart is unavailable for microVM"@)
        } else {
            None
        },
        VmControllerRpc::RestartVnc => if r.vnc_worker {
            None
        } else {
            Some("no VNC server running"@)
        },
        VmControllerRpc::SaveSnapshot(_) => if r.machine_profile == MachineProfile::Microvm {
            Some("disk snapshots are unavailable for microVM"@)
        } else if !r.memory_backing_file {
            Some("save-snapshot requires --memory-backing-file"@)
        } else {
            None
        },
        VmControllerRpc::AddVtl0ScsiDisk(_)
        | VmControllerRpc::RemoveVtl0ScsiDisk(_)
        | VmControllerRpc::RemoveVtl0ScsiDiskByNvmeNsid(_) => if !r.vtl2_settings {
            Some("vtl2 settings not configured"@)
        } else if !r.ged {
            Some("no GED configured"@)
        } else {
            None
        },
        VmControllerRpc::ServiceVtl2(params) => if params.user_mode_only {
            if r.paravisor_diag {
                None
            } else {
                Some("no paravisor diagnostics client"@)
            }
        } else if params.igvm is None && r.igvm_path is None {
            Some("no igvm file loaded"@)
        } else if !r.ged {
            Some("no GED"@)
        } else {
            None
        },
        _ => None,
    }
}

/// Whether a request can be served with the resources at hand.
pub fn check_rpc(rpc: &VmControllerRpc, resources: &ControllerResources) -> (r: Result<(), Refusal>)
    ensures
        refusal_of(r) == rpc_refusal(*rpc, *resources),
{
    match rpc {
        VmControllerRpc::Restart => {
            if resources.machine_profile == MachineProfile::Microvm {
                return Err(refuse("worker restart is unavailable for microVM"));
            }
            Ok(())
        },
        VmControllerRpc::RestartVnc => {
            if !resources.vnc_worker {
                return Err(refuse("no VNC server running"));
            }
            Ok(())
        },
        VmControllerRpc::SaveSnapshot(_) => {
            if resources.machine_profile == MachineProfile::Microvm {
                return Err(refuse("disk snapshots are unavailable for microVM"));
            }
            if !resources.memory_backing_file {
                return Err(refuse("save-snapshot requires --memory-backing-file"));
            }
            Ok(())
        },
        VmControllerRpc::AddVtl0ScsiDisk(_)
        | VmControllerRpc::RemoveVtl0ScsiDisk(_)
        | VmControllerRpc::RemoveVtl0ScsiDiskByNvmeNsid(_) => {
            if !resources.vtl2_settings {
                return Err(refuse("vtl2 settings not configured"));
            }
            if !resources.ged {
                return Err(refuse("no GED configured"));
            }
            Ok(())
        },
        VmControllerRpc::ServiceVtl2(params) => {
            if params.user_mode_only {
                if !resources.paravisor_diag {
                    return Err(refuse("no paravisor diagnostics client"));
                }
                return Ok(());
            }
            if params.igvm.is_none() && resources.igvm_path.is_none() {
                return Err(refuse("no igvm file loaded"));
            }
            if !resources.ged {
                return Err(refuse("no GED"));
            }
            Ok(())
        },
        _ => Ok(()),
    }
}

/// The firmware file that servicing loads: the one asked for, or else the one
/// the machine was started with.
pub fn servicing_file<'a>(
    params: &'a ServiceVtl2Params,
    resources: &'a ControllerResources,
) -> (file: Option<&'a str>)
    ensures
        crate::refusal::text_view(file) == (match string_view(params.igvm) {
            Some(path) => Some(path),
            None => string_view(resources.igvm_path),
        }),
{
    match &params.igvm {
        Some(path) => Some(path.as_str()),
        None => match &resources.igvm_path {
            Some(path) => Some(path.as_str()),
            None => None,
        },
    }
}

/// Resources only help: whatever is served with some of them is served with more.
pub proof fn law_more_resources_serve_no_less(
    rpc: VmControllerRpc,
    fewer: ControllerResources,
    more: ControllerResources,
)
    requires
        rpc_refusal(rpc, fewer) is None,
        fewer.machine_profile == more.machine_profile,
        fewer.vnc_worker ==> more.vnc_worker,
        fewer.paravisor_diag ==> more.paravisor_diag,
        fewer.memory_backing_file ==> more.memory_backing_file,
        fewer.vtl2_settings ==> more.vtl2_settings,
        fewer.ged ==> more.ged,
        fewer.igvm_path is Some ==> more.igvm_path is Some,
    ensures
        rpc_refusal(rpc, more) is None,
{
}

/// Each request is served exactly where what it works on is there. A microVM is
/// neither restarted nor saved to disk on request; and every machine can be asked
/// to quit, to be looked at and to dump its state.
pub proof fn law_requests_need_their_resources(
    rpc: VmControllerRpc,
    resources: ControllerResources,
    r: Result<(), Refusal>,
)
    requires
        call_ensures(check_rpc, (&rpc, &resources), r),
    ensures
        rpc is Quit || rpc is Inspect || rpc is DumpState || rpc is GetVtl2Settings ==> r is Ok,
        rpc is Restart ==> (r is Ok <==> resources.machine_profile is Standard),
        rpc is RestartVnc ==> (r is Ok <==> resources.vnc_worker),
        rpc is SaveSnapshot ==> (r is Ok <==> resources.machine_profile is Standard
            && resources.memory_backing_file),
        rpc is AddVtl0ScsiDisk || rpc is RemoveVtl0ScsiDisk || rpc is RemoveVtl0ScsiDiskByNvmeNsid
            ==> (r is Ok <==> resources.vtl2_settings && resources.ged),
        rpc matches VmControllerRpc::ServiceVtl2(params) ==> if params.user_mode_only {
            r is Ok <==> resources.paravisor_diag
        } else {
            r is Ok <==> resources.ged && (params.igvm is Some || resources.igvm_path is Some)
        },
{
}

/// Servicing that replaces the firmware and is accepted has a file to load: the one
/// that the request names, where it names one.
pub proof fn law_accepted_servicing_has_a_file(
    params: ServiceVtl2Params,
    resources: ControllerResources,
    file: Option<&str>,
)
    requires
        rpc_refusal(VmControllerRpc::ServiceVtl2(params), resources) is None,
        !params.user_mode_only,
        call_ensures(servicing_file, (&params, &resources), file),
    ensures
        file is Some,
        params.igvm is Some ==> file->0@ == params.igvm->0@,
        params.igvm is None ==> file->0@ == resources.igvm_path->0@,
{
}

} // verus!
