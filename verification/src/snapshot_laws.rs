//! What holds of captures and restores as a whole.

use vstd::prelude::*;

use crate::capture::{
    capture_next, capture_run, consumed_config_sections, preflight, recorded_block, Block, Capture,
    CaptureAction, CaptureEvent, CaptureFacts, ConfigSections, MicrovmSandboxBlockRole,
    QuiesceReply, ScratchPolicy, SnapshotTier, TierPolicy, WriteOutcome,
};
use crate::capture_write::{
    capture_inputs, describe_capture, plan_write, save_next, scratch_to_capture, CaptureInputs,
    CaptureSource, CapturedMachine, DiskSave, SaveStep, SnapshotFormat, SnapshotManifest,
    StoppedMachine, WritePlan,
};
use crate::config::MachineProfile;
use crate::controller::GuestSnapshotAction;
use crate::refusal::Refusal;
use crate::restore::calculate_snapshot_downtime;
use crate::rpc::SnapshotSaveResponse;
use crate::run::{
    check_started, choose_hypervisor, contract_inputs, memory_source, plan_restore, plan_session,
    prepare_snapshot_restore, recorded_scratch_policy, restore_gate_timeout, select_rpc,
    ContractInputs, HypervisorChoice, MemorySource, PreparationFacts, RequestedMicrovm,
    RestoreOptions, RestorePlan, RestoreTime, SessionOptions, SessionPlan,
};
use crate::snapshot::SnapshotMachineContract;
use crate::text::string_views;
use crate::transport::RpcTransport;

verus! {

/// A capture followed by a restore hands the machine back what it ran with. Where a
/// contract records what a capture gave, the restored worker is told the very TSC
/// frequency, the very APIC frequency and the very processor contract that the
/// stopped worker reported, and the snapshot is held against these and against the
/// state units that were saved.
pub proof fn law_restored_clocks_are_the_captured_ones(
    source: CaptureSource,
    stopped: SnapshotSaveResponse,
    captured: Result<CaptureInputs, Refusal>,
    contract: SnapshotMachineContract,
    facts: PreparationFacts,
    prepared: Result<Option<RestoreTime>, Refusal>,
    requested: RequestedMicrovm,
    again: Result<ContractInputs, Refusal>,
)
    requires
        call_ensures(capture_inputs, (source, stopped), captured),
        captured is Ok,
        contract.tsc_frequency_hz == captured->Ok_0.inputs.tsc_frequency_hz,
        contract.apic_frequency_hz == captured->Ok_0.inputs.apic_frequency_hz,
        contract.cpu_contract@ == captured->Ok_0.inputs.cpu_contract@,
        string_views(contract.state_unit_names@) == string_views(
            captured->Ok_0.inputs.state_unit_names@,
        ),
        call_ensures(prepare_snapshot_restore, (&facts, Some(&contract)), prepared),
        facts.machine is Microvm,
        prepared is Ok,
        call_ensures(contract_inputs, (requested, &contract), again),
        again is Ok,
    ensures
        prepared->Ok_0 is Some,
        prepared->Ok_0->0.tsc_frequency_hz == stopped.tsc_frequency_hz,
        prepared->Ok_0->0.apic_frequency_hz == Some(stopped.apic_frequency_hz),
        prepared->Ok_0->0.cpu_contract@ == stopped.cpu_contract@,
        again->Ok_0.tsc_frequency_hz == stopped.tsc_frequency_hz,
        again->Ok_0.apic_frequency_hz == Some(stopped.apic_frequency_hz),
        again->Ok_0.cpu_contract@ == stopped.cpu_contract@,
        string_views(again->Ok_0.state_unit_names@) == string_views(stopped.state_unit_names@),
{
}

/// A capture records the machine that runs: its hypervisor, its command line, its
/// processors, its memory and how far that can grow, its consoles, and the moment
/// at which the worker stopped. A network or an exported directory is recorded
/// exactly when all of its parts are known, and then with those parts.
pub proof fn law_capture_records_the_machine(
    source: CaptureSource,
    stopped: SnapshotSaveResponse,
    r: Result<CaptureInputs, Refusal>,
)
    requires
        call_ensures(capture_inputs, (source, stopped), r),
    ensures
        r is Ok <==> source.blocks is Ok,
        r is Ok ==> {
            let i = r->Ok_0.inputs;
            &&& i.hypervisor@ == source.hypervisor@ && i.command_line@ == source.command_line@
            &&& i.processors == source.processors && i.memory == source.memory
            &&& i.memory_capacity == source.memory_capacity
            &&& i.console == source.console && r->Ok_0.control_console == source.control_console
            &&& r->Ok_0.capture_wall_clock_ns == stopped.capture_wall_clock_ns
            &&& i.tsc_frequency_hz == stopped.tsc_frequency_hz
            &&& i.apic_frequency_hz == Some(stopped.apic_frequency_hz)
            &&& i.filesystem_slot == source.filesystem_slot
            &&& i.network is Some <==> source.network is Some && source.egress_policy is Some
                && source.network_attachment is Some
            &&& i.network matches Some(network) ==> Some(network.config) == source.network && Some(
                network.policy,
            ) == source.egress_policy && Some(network.attachment) == source.network_attachment
            &&& i.filesystem is Some <==> source.filesystem is Some && source.filesystem_root_path
                is Some && source.filesystem_attachment is Some
            &&& i.filesystem matches Some(fs) ==> Some(fs.config) == source.filesystem && Some(
                fs.root_path,
            ) == source.filesystem_root_path && Some(fs.attachment) == source.filesystem_attachment
        },
{
}

/// A capture neither adds, drops nor reorders block devices, and it changes one only
/// in a platform snapshot and only where it is read-only: such a device loses its
/// identity and keeps its role, its length and its place. A writable disk is
/// recorded as it is, whatever the tier.
pub proof fn law_blocks_are_recorded_in_place(
    source: CaptureSource,
    stopped: SnapshotSaveResponse,
    r: Result<CaptureInputs, Refusal>,
    k: int,
)
    requires
        call_ensures(capture_inputs, (source, stopped), r),
        r is Ok,
        0 <= k < source.blocks->Ok_0@.len(),
    ensures
        r->Ok_0.inputs.blocks@.len() == source.blocks->Ok_0@.len(),
        ({
            let before = source.blocks->Ok_0@[k];
            let after = r->Ok_0.inputs.blocks@[k];
            &&& after.role@ == before.role@ && after.length == before.length && after.read_only
                == before.read_only && after.artifact@ == before.artifact@
            &&& !before.read_only || source.tier != Some(SnapshotTier::Platform)
                ==> after.identity_kind@ == before.identity_kind@ && after.identity@
                == before.identity@
            &&& before.read_only && source.tier == Some(SnapshotTier::Platform)
                ==> after.identity_kind@ == "unbound"@ && after.identity@.len() == 0
        }),
{
    let blocks = r->Ok_0.inputs.blocks@;
    let views = crate::capture::block_views(blocks);
    let given = crate::capture::block_views(source.blocks->Ok_0@);
    let recorded = given.map_values(|b: Block| recorded_block(b, source.tier));
    assert(views.len() == blocks.len());
    assert(views == recorded);
    assert(views[k] == blocks[k]@);
    assert(given[k] == source.blocks->Ok_0@[k]@);
    assert(recorded[k] == recorded_block(given[k], source.tier));
}

/// A snapshot is restored onto this host's machine: what the contract is held against
/// is what is requested here, but an exported directory counts only where the
/// snapshot records one, and memory can grow as far as the snapshot says, where it
/// says that it can.
pub proof fn law_contract_is_held_against_this_host(
    requested: RequestedMicrovm,
    saved: SnapshotMachineContract,
    r: Result<ContractInputs, Refusal>,
)
    requires
        call_ensures(contract_inputs, (requested, &saved), r),
        r is Ok,
    ensures
        r->Ok_0.hypervisor@ == requested.hypervisor@,
        r->Ok_0.command_line@ == requested.command_line@,
        r->Ok_0.network == requested.network,
        r->Ok_0.console == requested.console,
        r->Ok_0.blocks == requested.blocks,
        r->Ok_0.processors == requested.processors,
        r->Ok_0.memory == requested.memory,
        saved.microvm_filesystem is Some ==> r->Ok_0.filesystem == requested.filesystem,
        saved.microvm_filesystem is None ==> r->Ok_0.filesystem is None,
        r->Ok_0.filesystem_slot <==> exists|i: int|
            0 <= i < saved.devices@.len() && (#[trigger] saved.devices@[i]).stable_id@
                == "fs:microvm0"@,
        r->Ok_0.memory_capacity is Some <==> saved.memory_expansion_version > 0,
        r->Ok_0.memory_capacity is Some ==> r->Ok_0.memory_capacity->0
            == saved.memory_capacity_bytes,
{
}

/// Entropy that is asked for is always injected, whatever else is restored; and it is
/// injected unasked exactly when the guest is held until it has read its packet or is given
/// other processors.
pub proof fn law_asked_entropy_is_injected(
    options: RestoreOptions,
    contract: Option<&SnapshotMachineContract>,
    r: Result<RestorePlan, Refusal>,
)
    requires
        call_ensures(plan_restore, (&options, contract), r),
        r is Ok,
    ensures
        options.entropy ==> r->Ok_0.entropy,
        r->Ok_0.gate_required ==> r->Ok_0.entropy,
        options.processors is Some ==> r->Ok_0.entropy,
        r->Ok_0.entropy && !options.entropy && options.processors is None
            ==> r->Ok_0.gate_required,
{
}

/// Only a microVM is held until it has read its packet: where its snapshot asks for that,
/// where it is given other processors, and where memory is added to it; and never otherwise.
pub proof fn law_gate_follows_the_changes(
    options: RestoreOptions,
    contract: Option<&SnapshotMachineContract>,
    r: Result<RestorePlan, Refusal>,
)
    requires
        call_ensures(plan_restore, (&options, contract), r),
        r is Ok,
    ensures
        options.machine is Standard ==> !r->Ok_0.gate_required,
        options.machine is Microvm ==> (r->Ok_0.gate_required <==> options.gate_requested
            || options.processors is Some || r->Ok_0.ranges@.len() > 0),
{
}

/// A restored microVM has the memory that is asked for, or else what its snapshot
/// records, and is given exactly the ranges that this takes; a standard machine
/// keeps what its own options say, and nothing is added to it.
pub proof fn law_restored_memory(
    options: RestoreOptions,
    contract: Option<&SnapshotMachineContract>,
    r: Result<RestorePlan, Refusal>,
)
    requires
        call_ensures(plan_restore, (&options, contract), r),
        r is Ok,
    ensures
        r->Ok_0.memory_size is Some <==> options.machine is Microvm,
        options.machine is Microvm && options.memory is None ==> r->Ok_0.memory_size == Some(
            options.recorded_memory,
        ) && r->Ok_0.ranges@.len() == 0,
        options.machine is Microvm ==> (options.memory matches Some((size, ranges))
            ==> r->Ok_0.memory_size == Some(size) && ranges is Ok && r->Ok_0.ranges@
            == ranges->Ok_0@),
        options.machine is Standard ==> r->Ok_0.ranges@.len() == 0 && r->Ok_0.scratch is Absent,
{
}

/// The scratch disk of a restored microVM: none where the snapshot has no block
/// devices; a private copy of the captured one where it was captured, and then none
/// may be given; and otherwise the one that is given, which then must be.
pub proof fn law_restored_scratch(
    options: RestoreOptions,
    contract: SnapshotMachineContract,
    r: Result<RestorePlan, Refusal>,
)
    requires
        call_ensures(plan_restore, (&options, Some(&contract)), r),
        r is Ok,
        options.machine is Microvm,
    ensures
        ({
            let blocks = contract.microvm_sandbox_blocks@;
            &&& r->Ok_0.scratch is Absent <==> blocks.len() == 0
            &&& r->Ok_0.scratch is PrivateCopy <==> blocks.len() > 0 && blocks.last().artifact@
                == "scratch.img"@
            &&& blocks.len() > 0 ==> blocks.last().role@ == "scratch"@
            &&& r->Ok_0.scratch is PrivateCopy ==> !options.scratch_block
            &&& r->Ok_0.scratch is Given ==> options.scratch_block
        }),
{
}

/// A snapshot goes back to a machine of its own profile, and only unchanged: a microVM
/// needs a supported contract and takes neither another command line nor another
/// memory layout, and checks that fail on the host refuse the restore.
pub proof fn law_restores_that_are_refused(
    options: RestoreOptions,
    contract: Option<&SnapshotMachineContract>,
    r: Result<RestorePlan, Refusal>,
)
    requires
        call_ensures(plan_restore, (&options, contract), r),
    ensures
        options.machine is Microvm && r is Ok ==> {
            &&& contract is Some && contract->0.machine_profile@ == "microvm"@
            &&& options.supported is Ok
            &&& options.processors is Some ==> options.processors->0 is Ok
            &&& options.memory matches Some((_, ranges)) ==> ranges is Ok
            &&& !options.command_line_overridden && !options.memory_overridden
        },
        options.machine is Standard ==> (r is Ok <==> contract is None
            || contract->0.machine_profile@ != "microvm"@),
{
}

/// A gated restore waits as long as it is told to; one without a gate does not wait.
pub proof fn law_only_gated_restores_wait(required: bool, timeout_ms: u64, r: Option<u64>)
    requires
        call_ensures(restore_gate_timeout, (required, timeout_ms), r),
    ensures
        r is Some <==> required,
        r is Some ==> r->0 == timeout_ms,
{
}

/// A restored machine's memory is its snapshot's. A machine that is to be captured has
/// its memory in a file: the given one, or else a fresh one; and a machine that is
/// neither has a file only where one is given.
pub proof fn law_captured_memory_is_in_a_file(
    restoring: bool,
    capturing: bool,
    backing_file: bool,
    r: MemorySource,
)
    requires
        call_ensures(memory_source, (restoring, capturing, backing_file), r),
    ensures
        r is Restored <==> restoring,
        r is SnapshotFile || r is SnapshotBackingFile <==> capturing && !restoring,
        r is SnapshotBackingFile || r is BackingFile <==> backing_file && !restoring,
        r is Anonymous <==> !restoring && !capturing && !backing_file,
{
}

/// A named hypervisor is taken at its name; else the machine's profile decides.
pub proof fn law_named_hypervisor_is_taken(
    name: Option<String>,
    machine: MachineProfile,
    r: HypervisorChoice,
)
    requires
        call_ensures(choose_hypervisor, (name, machine), r),
    ensures
        r is Named <==> name is Some,
        r matches HypervisorChoice::Named(n) ==> n@ == name->0@,
        r is MicrovmDefault <==> name is None && machine is Microvm,
{
}

/// A machine is started at once unless it is to stay paused; a display is served
/// where graphics or a display server are asked for; the debugger listens where it
/// is told to; and only a machine that stays paused still owes its restore report.
pub proof fn law_sessions_start_unless_paused(options: SessionOptions, plan: SessionPlan)
    requires
        call_ensures(plan_session, (options,), plan),
    ensures
        plan.resume <==> !options.paused,
        options.gfx || options.vnc <==> plan.vnc_worker,
        plan.debugger_port == options.gdb,
        plan.restore_ready_pending ==> !plan.resume && options.restore_ready,
        options.restore_ready && !plan.resume ==> plan.restore_ready_pending,
{
}

/// Only a machine that was to start and did not is a failure.
pub proof fn law_failed_starts_are_failures(paused: bool, resumed: bool, r: Result<(), Refusal>)
    requires
        call_ensures(check_started, (paused, resumed), r),
    ensures
        r is Err <==> !paused && !resumed,
{
}

/// The management server listens where the first of its options says, the general one
/// before the two for one protocol each, and speaks what that option speaks.
pub proof fn law_general_rpc_option_goes_first(
    rpc: Option<(String, RpcTransport)>,
    ttrpc: Option<String>,
    grpc: Option<String>,
    r: Option<(String, RpcTransport)>,
)
    requires
        call_ensures(select_rpc, (rpc, ttrpc, grpc), r),
    ensures
        rpc is Some ==> r == rpc,
        rpc is None && ttrpc is Some ==> (r matches Some((path, transport)) && path@ == ttrpc->0@
            && transport is Ttrpc),
        rpc is None && ttrpc is None && grpc is Some ==> (r matches Some((path, transport)) && path@
            == grpc->0@ && transport is Grpc),
        r is None <==> rpc is None && ttrpc is None && grpc is None,
{
}

/// A recorded scratch disk is paired with its machine exactly when its contents are in
/// the snapshot, so a restored machine that is captured again keeps the policy: its
/// scratch is paired exactly when the restore copies it.
pub proof fn law_scratch_policy_survives_a_restore(
    options: RestoreOptions,
    contract: SnapshotMachineContract,
    policy: ScratchPolicy,
    r: Result<RestorePlan, Refusal>,
)
    requires
        call_ensures(recorded_scratch_policy, (Some(&contract),), policy),
        call_ensures(plan_restore, (&options, Some(&contract)), r),
        r is Ok,
        options.machine is Microvm,
    ensures
        policy is Paired <==> r->Ok_0.scratch is PrivateCopy,
{
}

/// The time that a machine was away is the time between its capture and now: it is
/// never negative and never more than thirty days, and every such time is accepted.
pub proof fn law_downtime_is_the_time_between(
    capture: i128,
    now: i128,
    r: Result<u128, Refusal>,
)
    requires
        call_ensures(calculate_snapshot_downtime, (capture, now), r),
    ensures
        r is Ok <==> capture <= now <= capture + 30 * 24 * 60 * 60 * 1_000_000_000int,
        r is Ok ==> capture + r->Ok_0 == now,
{
}

/// A microVM that may be restored is told how long it was away, by this host's clock
/// and its snapshot's; any other machine is told nothing. Every check of the host
/// has passed, and the saved state holds exactly the recorded units.
pub proof fn law_prepared_restores_were_checked(
    facts: PreparationFacts,
    contract: Option<&SnapshotMachineContract>,
    r: Result<Option<RestoreTime>, Refusal>,
)
    requires
        call_ensures(prepare_snapshot_restore, (&facts, contract), r),
        r is Ok,
    ensures
        facts.manifest_check is Ok && facts.saved_state is Ok,
        contract is Some ==> facts.inventory is Ok && string_views(facts.inventory->Ok_0@)
            == string_views(contract->0.state_unit_names@),
        facts.machine is Standard ==> r->Ok_0 is None,
        facts.machine is Microvm ==> {
            &&& contract is Some && r->Ok_0 is Some
            &&& facts.block_contract is Ok && facts.command_line
            &&& facts.expected_contract is Ok && facts.contract_check is Ok
            &&& facts.capture_time_ns is Ok
            &&& facts.capture_time_ns->Ok_0 + r->Ok_0->0.downtime_ns == facts.now_ns
            &&& r->Ok_0->0.downtime_ns <= 2_592_000 * 1_000_000_000int
        },
{
}

/// A capture begins only where it can be finished, and with the command line that the
/// machine runs with: on a microVM of a supported hypervisor whose memory is in an
/// open file of its own size, to a place that is free, and with block devices that
/// fit the tier.
pub proof fn law_capture_begins_where_it_can_finish(
    facts: CaptureFacts,
    r: Result<String, Refusal>,
)
    requires
        call_ensures(preflight, (&facts,), r),
        r is Ok,
    ensures
        facts.machine_profile is Microvm,
        facts.source_hypervisor@ == "kvm"@ || facts.source_hypervisor@ == "mshv"@
            || facts.source_hypervisor@ == "whp"@,
        facts.effective_command_line is Some && r->Ok_0@ == facts.effective_command_line->0@,
        facts.destination_absent,
        facts.memory_backing_file is Some,
        facts.memory_handle is Some && facts.memory_handle->0 is Ok && facts.memory_handle->0->Ok_0
            == facts.memory,
        facts.tier is Some <==> facts.block_roles@.len() > 0,
        facts.block_roles@.len() != 1,
        facts.block_roles@.len() > 0 ==> facts.block_roles@.last() is Scratch && (
        facts.scratch_policy is Paired <==> facts.tier->0.requires_paired_scratch),
{
}

/// A capture that could be finished begins: a microVM without block devices, on a
/// supported hypervisor, with its memory in an open file of its own size and a free
/// destination, is captured.
pub proof fn law_plain_capture_begins(facts: CaptureFacts, r: Result<String, Refusal>)
    requires
        call_ensures(preflight, (&facts,), r),
        facts.machine_profile is Microvm,
        facts.source_hypervisor@ == "kvm"@ || facts.source_hypervisor@ == "mshv"@
            || facts.source_hypervisor@ == "whp"@,
        facts.block_roles@.len() == 0,
        facts.tier is None,
        facts.destination_absent,
        facts.memory_backing_file is Some,
        facts.automatic_memory_file is None,
        facts.memory_handle is Some && facts.memory_handle->0 is Ok && facts.memory_handle->0->Ok_0
            == facts.memory,
        facts.effective_command_line is Some,
    ensures
        r is Ok,
{
}

/// Later tiers consume no less of a configuration than earlier ones: the image and the
/// sandbox together, from the start of the workload on, and the invariants with any
/// tier.
pub proof fn law_tiers_consume_more_and_more(tier: Option<SnapshotTier>, r: ConfigSections)
    requires
        call_ensures(consumed_config_sections, (tier,), r),
    ensures
        r.invariants <==> tier is Some,
        r.image_binding <==> r.sandbox,
        r.sandbox <==> tier is Some && (tier->0 is WorkloadStart || tier->0 is InstanceCheckpoint),
{
}

/// A manifest says what was captured: the memory and the processors of the machine, when
/// it was captured, the contract and the tier that it was given, and nothing yet of
/// the files that are still to be written. A snapshot without a tier consumes no
/// part of a configuration.
pub proof fn law_manifest_says_what_was_captured(
    format: SnapshotFormat,
    machine: CapturedMachine,
    contract: Option<SnapshotMachineContract>,
    tier: Option<TierPolicy>,
    manifest: SnapshotManifest,
)
    requires
        call_ensures(describe_capture, (format, machine, contract, tier), manifest),
    ensures
        manifest.memory_size_bytes == machine.memory,
        manifest.vp_count == machine.processors,
        manifest.created_at_ns == machine.created_at_ns,
        manifest.machine_contract == contract,
        manifest.version == format.version && manifest.page_size == format.page_size,
        manifest.saved_state_schema_version == format.saved_state_schema_version,
        manifest.saved_state_root_type@ == format.saved_state_root_type@,
        manifest.openvmm_version@ == format.openvmm_version@,
        manifest.architecture@ == format.architecture@,
        manifest.format_magic@ == format.format_magic@,
        manifest.state_size_bytes == 0 && manifest.state_sha256@.len() == 0
            && manifest.memory_sha256@.len() == 0,
        tier is None ==> manifest.snapshot_tier@.len() == 0 && manifest.restore_policy@.len() == 0
            && manifest.consumed_config_sections == 0,
        tier matches Some(policy) ==> {
            &&& manifest.snapshot_tier@ == policy.manifest_name@
            &&& manifest.restore_policy@ == policy.restore_policy@
            &&& policy.tier is Platform ==> manifest.consumed_config_sections
                == format.section_bits.invariants
            &&& !(policy.tier is Platform) ==> manifest.consumed_config_sections
                == format.section_bits.invariants | format.section_bits.image_binding
                | format.section_bits.sandbox
        },
{
    let bits = format.section_bits.invariants;
    assert(bits | 0u32 | 0u32 == bits) by (bit_vector);
}

/// The scratch disk that goes into a snapshot is a scratch disk, the first of them, and
/// goes in exactly when the machine has block devices and pairs its scratch.
pub proof fn law_captured_scratch_is_the_first(
    roles: Vec<MicrovmSandboxBlockRole>,
    policy: ScratchPolicy,
    r: Result<Option<usize>, Refusal>,
    k: int,
)
    requires
        call_ensures(scratch_to_capture, (&roles, policy), r),
        0 <= k < roles@.len(),
    ensures
        policy is Fresh ==> r is Ok && r->Ok_0 is None,
        policy is Paired && r is Ok ==> {
            &&& r->Ok_0 is Some && r->Ok_0->0 < roles@.len()
            &&& roles@[r->Ok_0->0 as int] is Scratch
            &&& roles@[k] is Scratch ==> r->Ok_0->0 <= k
        },
        policy is Paired && roles@[k] is Scratch ==> r is Ok,
{
}

/// A snapshot is written only of a machine whose contract stands and whose memory was
/// flushed; it takes along the contract as it stands. A memory file that was made
/// for the capture moves into the snapshot, and the operator's own is copied.
pub proof fn law_only_flushed_machines_are_written(
    format: SnapshotFormat,
    stopped: StoppedMachine,
    r: Result<WritePlan, Refusal>,
)
    requires
        call_ensures(plan_write, (format, stopped), r),
    ensures
        r is Ok ==> {
            &&& stopped.contract is Ok && stopped.memory_flush is Some && stopped.memory_flush->0
                is Ok
            &&& r->Ok_0.manifest.machine_contract == Some(stopped.contract->Ok_0)
            &&& r->Ok_0.manifest.memory_size_bytes == stopped.machine.memory
            &&& r->Ok_0.manifest.vp_count == stopped.machine.processors
            &&& r->Ok_0.memory is Owned <==> stopped.automatic_memory_file
            &&& stopped.scratch_policy is Fresh ==> r->Ok_0.scratch is None
            &&& r->Ok_0.scratch is None ==> stopped.scratch_policy is Fresh
                || stopped.block_roles@.len() == 0
        },
        stopped.contract is Ok && stopped.memory_flush is Some && stopped.memory_flush->0 is Ok
            && stopped.scratch_policy is Fresh ==> r is Ok,
{
}

/// What a transaction does next is decided by the last report: a stopped machine is
/// written, a rejected order lets the guest cross, a stop that can be undone is
/// undone, and so is one whose snapshot could not be written; nothing is undone
/// where that is not safe. Whatever is committed goes on to remove the sockets.
pub proof fn law_reports_decide_the_next_step(reply: QuiesceReply, outcome: WriteOutcome)
    ensures
        ({
            let next = capture_next(Capture::Quiescing, CaptureEvent::Quiesced(reply));
            &&& next is Writing <==> reply is Stopped
            &&& next is Releasing <==> reply is Rejected
            &&& next is RollingBack <==> reply is RollbackSafe
            &&& next is Ended <==> reply is Uncertain || reply is Lost
            &&& next is Ended ==> next == Capture::Ended(
                GuestSnapshotAction::Terminate { exit_code: 1 },
            )
        }),
        ({
            let next = capture_next(Capture::Writing, CaptureEvent::Written(outcome));
            &&& next is RemovingSockets <==> outcome is Committed
            &&& next is RemovingSocketsAfterFailure <==> outcome is CommittedUnconfirmed
            &&& next is RollingBack <==> outcome is Failed
            &&& next is Ended <==> outcome is NotRollbackSafe
            &&& next is Ended ==> next == Capture::Ended(
                GuestSnapshotAction::Terminate { exit_code: 1 },
            )
        }),
{
}

/// A failed step never ends in success, and a transaction that has ended stays ended:
/// the last steps give the guest back where they succeed and it is still the
/// source, and otherwise end the source with a failure.
pub proof fn law_last_steps_end_the_transaction(capture: Capture, event: CaptureEvent, ok: bool)
    ensures
        capture is Ended ==> capture_next(capture, event) == capture,
        !crate::capture::answers(capture, event) ==> capture_next(capture, event) == capture,
        capture is Releasing || capture is RollingBack ==> capture_next(
            capture,
            CaptureEvent::Done(ok),
        ) == Capture::Ended(
            if ok {
                GuestSnapshotAction::Continue
            } else {
                GuestSnapshotAction::Terminate { exit_code: 1 }
            },
        ),
        capture is RemovingSockets || capture is RemovingSocketsAfterFailure ==> {
            let next = capture_next(capture, CaptureEvent::Done(ok));
            next is Ended && next->Ended_0 is Terminate && (next->Ended_0->exit_code == 0 <==> ok
                && capture is RemovingSockets)
        },
{
}

/// The machine is ordered to stop only where a destination is configured and the
/// preflight passed; otherwise the guest just crosses the boundary. A transaction
/// asks for something exactly until it has ended.
pub proof fn law_nothing_stops_without_a_destination(
    destination: bool,
    preflight_ok: bool,
    start: Capture,
    capture: Capture,
    action: Option<CaptureAction>,
)
    requires
        call_ensures(Capture::start, (destination, preflight_ok), start),
        call_ensures(Capture::action, (&capture,), action),
    ensures
        start is Quiescing <==> destination && preflight_ok,
        start is Releasing <==> !destination || !preflight_ok,
        action is None <==> capture is Ended,
        action == Some(CaptureAction::Quiesce) <==> capture is Quiescing,
        action == Some(CaptureAction::Write) <==> capture is Writing,
        action == Some(CaptureAction::Rollback) <==> capture is RollingBack,
        action == Some(CaptureAction::ReleaseBoundary) <==> capture is Releasing,
        action == Some(CaptureAction::RemoveSockets) <==> capture is RemovingSockets,
{
}

/// A snapshot that is written was saved from a stopped machine: before anything is
/// written the worker reported that it stopped, and nothing else was done.
pub proof fn law_only_stopped_machines_are_written(events: Seq<CaptureEvent>)
    requires
        crate::capture::in_order(Capture::Quiescing, events),
        capture_run(Capture::Quiescing, events) is Writing,
    ensures
        events == seq![CaptureEvent::Quiesced(QuiesceReply::Stopped)],
{
    let front = events.drop_last();
    let before = capture_run(Capture::Quiescing, front);
    assert(before is Quiescing);
    lemma_quiescing_is_first(front);
    assert(events =~= front.push(events.last()));
    assert(front =~= Seq::empty());
}

proof fn lemma_quiescing_is_first(events: Seq<CaptureEvent>)
    requires
        crate::capture::in_order(Capture::Quiescing, events),
        capture_run(Capture::Quiescing, events) is Quiescing,
    ensures
        events.len() == 0,
{
    if events.len() > 0 {
        let before = capture_run(Capture::Quiescing, events.drop_last());
        assert(crate::capture::answers(before, events.last()));
        assert(capture_next(before, events.last()) is Quiescing);
    }
}

/// Saving a snapshot takes its steps in order, and the first failure is the one that is
/// reported; a saving that is over stays as it is.
pub proof fn law_first_failed_step_is_reported(save: DiskSave, ok: bool)
    ensures
        save matches DiskSave::Next(step) ==> (!ok ==> save_next(save, ok) == DiskSave::Failed(
            step,
        )),
        save is Saved || save is Failed ==> save_next(save, ok) == save,
        save_next(save, ok) == DiskSave::Saved && save != DiskSave::Saved ==> save
            == DiskSave::Next(SaveStep::Write) && ok,
        save_next(save, ok) == DiskSave::Next(SaveStep::Write) ==> save == DiskSave::Next(
            SaveStep::Flush,
        ) && ok,
        save_next(save, ok) == DiskSave::Next(SaveStep::Flush) ==> save == DiskSave::Next(
            SaveStep::Save,
        ) && ok,
        save_next(save, ok) == DiskSave::Next(SaveStep::Save) ==> save == DiskSave::Next(
            SaveStep::Pause,
        ) && ok,
{
}

} // verus!
