//! What a launch of one machine decides before and after its worker starts.

use vstd::prelude::*;

use crate::capture::ScratchPolicy;
use crate::config::MachineProfile;
use crate::filesystem::{
    microvm_filesystem_slot_from_snapshot, slot_refusal, EffectiveMicrovmFilesystem,
    MICROVM_FILESYSTEM_STABLE_ID,
};
use crate::net::{Endpoint, Ipv4Address, SocketAddress};
use crate::network_attachment::EffectiveMicrovmNetwork;
use crate::refusal::{refusal_of, refuse, refuse_quoting, Refusal};
use crate::restore::{calculate_snapshot_downtime, MAX_SNAPSHOT_DOWNTIME_NS};
use crate::snapshot::{
    has_device, SnapshotAttachment, SnapshotMachineContract, SnapshotMemoryExpansionRange,
    SnapshotMicrovmSandboxBlock,
};
use crate::text::{copy_texts, same_text, same_texts, string_views};
use crate::transport::RpcTransport;

verus! {

/// The snapshot file that holds the contents of a paired scratch disk.
pub const SCRATCH_FILE_NAME: &'static str = "scratch.img";

/// What is asked of a restore, and what the host found out about it.
#[derive(Debug)]
pub struct RestoreOptions {
    pub machine: MachineProfile,
    /// Whether the snapshot's contract is one that this version supports.
    pub supported: Result<(), Refusal>,
    /// Whether the snapshot asks for a gate after the restore.
    pub gate_requested: bool,
    /// Whether a number of processors is asked for, and whether the snapshot can
    /// be restored with it.
    pub processors: Option<Result<(), Refusal>>,
    /// The memory that is asked for, and the ranges that have to be added for it.
    pub memory: Option<(u64, Result<Vec<SnapshotMemoryExpansionRange>, Refusal>)>,
    /// The memory that the snapshot records.
    pub recorded_memory: u64,
    /// Whether options try to change the command line.
    pub command_line_overridden: bool,
    /// Whether options try to change the memory.
    pub memory_overridden: bool,
    /// Whether a scratch block is given.
    pub scratch_block: bool,
    pub entropy: bool,
}

/// Where the scratch disk of a restored machine comes from.
#[derive(Clone, Copy, Debug, PartialEq, Eq, Structural)]
pub enum ScratchSource {
    /// The machine has none.
    Absent,
    /// A private copy of the one in the snapshot.
    PrivateCopy,
    /// The one that is given.
    Given,
}

/// A planned restore.
#[derive(Debug)]
pub struct RestorePlan {
    /// The guest reports before it goes on.
    pub gate_required: bool,
    /// Fresh entropy is injected.
    pub entropy: bool,
    /// The memory of a restored microVM. Other machines keep what their options say.
    pub memory_size: Option<u64>,
    pub ranges: Vec<SnapshotMemoryExpansionRange>,
    pub scratch: ScratchSource,
}

/// Why the scratch disk of a snapshot cannot be provided, if it cannot.
pub open spec fn scratch_refusal(
    blocks: Seq<SnapshotMicrovmSandboxBlock>,
    given: bool,
) -> Option<Seq<char>> {
    if blocks.len() == 0 {
        None
    } else if blocks.last().role@ != "scratch"@ {
        Some("microVM snapshot is missing its scratch contract"@)
    } else if blocks.last().artifact@ == SCRATCH_FILE_NAME@ && given {
        Some("paired snapshot restore supplies scratch.img; do not pass a scratch block"@)
    } else if blocks.last().artifact@ != SCRATCH_FILE_NAME@ && !given {
        Some("fresh-scratch snapshot restore requires a scratch block"@)
    } else {
        None
    }
}

/// Where the scratch disk of a snapshot comes from.
pub open spec fn scratch_source(blocks: Seq<SnapshotMicrovmSandboxBlock>) -> ScratchSource {
    if blocks.len() == 0 {
        ScratchSource::Absent
    } else if blocks.last().artifact@ == SCRATCH_FILE_NAME@ {
        ScratchSource::PrivateCopy
    } else {
        ScratchSource::Given
    }
}

fn plan_scratch(blocks: &Vec<SnapshotMicrovmSandboxBlock>, given: bool) -> (r: Result<
    ScratchSource,
    Refusal,
>)
    ensures
        refusal_of(r) == scratch_refusal(blocks@, given),
        r is Ok ==> r->Ok_0 == scratch_source(blocks@),
{
    if blocks.len() == 0 {
        return Ok(ScratchSource::Absent);
    }
    let last = &blocks[blocks.len() - 1];
    if !same_text(last.role.as_str(), "scratch") {
        return Err(refuse("microVM snapshot is missing its scratch contract"));
    }
    if same_text(last.artifact.as_str(), SCRATCH_FILE_NAME) {
        if given {
            return Err(
                refuse("paired snapshot restore supplies scratch.img; do not pass a scratch block"),
            );
        }
        return Ok(ScratchSource::PrivateCopy);
    }
    if !given {
        return Err(refuse("fresh-scratch snapshot restore requires a scratch block"));
    }
    Ok(ScratchSource::Given)
}

/// The view of a check.
pub open spec fn check_view(check: Result<(), Refusal>) -> Option<Seq<char>> {
    match check {
        Ok(()) => None,
        Err(e) => Some(e@),
    }
}

/// Why the memory that is asked for is refused, if it is.
pub open spec fn memory_target_refusal(options: RestoreOptions) -> Option<Seq<char>> {
    match options.memory {
        Some((_, Err(e))) => Some(e@),
        _ => None,
    }
}

/// Why a snapshot cannot be restored as it is asked, if it cannot.
pub open spec fn restore_refusal(
    options: RestoreOptions,
    contract: Option<SnapshotMachineContract>,
) -> Option<Seq<char>> {
    let microvm = options.machine == MachineProfile::Microvm;
    match contract {
        None => if microvm {
            Some("microVM snapshot is missing its authoritative machine contract"@)
        } else {
            None
        },
        Some(contract) => {
            let recorded = contract.machine_profile@ == "microvm"@;
            if recorded && !microvm {
                Some("microVM snapshot restore requires --machine microvm"@)
            } else if recorded && options.supported is Err {
                check_view(options.supported)
            } else if !microvm {
                None
            } else if !recorded {
                Some("snapshot machine profile does not match the requested microVM machine"@)
            } else if options.processors is Some && options.processors->0 is Err {
                check_view(options.processors->0)
            } else if memory_target_refusal(options) is Some {
                memory_target_refusal(options)
            } else if options.command_line_overridden {
                Some("restore-time command-line overrides are not allowed"@)
            } else if options.memory_overridden {
                Some("restore-time memory overrides are not allowed"@)
            } else {
                scratch_refusal(contract.microvm_sandbox_blocks@, options.scratch_block)
            }
        },
    }
}

/// The ranges of memory that a restore adds.
pub open spec fn added_ranges(options: RestoreOptions) -> Seq<SnapshotMemoryExpansionRange> {
    match options.memory {
        Some((_, Ok(ranges))) => ranges@,
        _ => Seq::empty(),
    }
}

/// A restored microVM reports before it goes on: where its snapshot asks for
/// that, and where it is given other processors or more memory.
pub open spec fn gate_required(options: RestoreOptions) -> bool {
    options.machine == MachineProfile::Microvm && (options.gate_requested || options.processors
        is Some || added_ranges(options).len() != 0)
}

/// The plan is the one that is asked for.
pub open spec fn is_restore_plan(
    plan: RestorePlan,
    options: RestoreOptions,
    contract: Option<SnapshotMachineContract>,
) -> bool {
    let microvm = options.machine == MachineProfile::Microvm;
    &&& plan.gate_required == gate_required(options)
    &&& plan.entropy == (options.entropy || gate_required(options) || options.processors is Some)
    &&& plan.memory_size == (if microvm {
        Some(
            match options.memory {
                Some((size, _)) => size,
                None => options.recorded_memory,
            },
        )
    } else {
        None
    })
    &&& plan.ranges@ == (if microvm {
        added_ranges(options)
    } else {
        Seq::empty()
    })
    &&& plan.scratch == (if microvm {
        scratch_source(contract->0.microvm_sandbox_blocks@)
    } else {
        ScratchSource::Absent
    })
}

fn copy_ranges(ranges: &Vec<SnapshotMemoryExpansionRange>) -> (r: Vec<SnapshotMemoryExpansionRange>)
    ensures
        r@ == ranges@,
{
    let mut out: Vec<SnapshotMemoryExpansionRange> = Vec::new();
    let mut i: usize = 0;
    while i < ranges.len()
        invariant
            i <= ranges@.len(),
            out@ == ranges@.take(i as int),
        decreases ranges@.len() - i,
    {
        out.push(ranges[i]);
        assert(ranges@.take(i + 1) =~= ranges@.take(i as int).push(ranges@[i as int]));
        i += 1;
    }
    assert(ranges@.take(i as int) =~= ranges@);
    out
}

fn pass(check: &Result<(), Refusal>) -> (r: Result<(), Refusal>)
    ensures
        refusal_of(r) == check_view(*check),
{
    match check {
        Ok(()) => Ok(()),
        Err(e) => Err(refuse(e.message.as_str())),
    }
}

fn plan_microvm_restore(options: &RestoreOptions, contract: &SnapshotMachineContract) -> (r: Result<
    RestorePlan,
    Refusal,
>)
    requires
        options.machine == MachineProfile::Microvm,
        contract.machine_profile@ == "microvm"@,
        options.supported is Ok,
    ensures
        refusal_of(r) == restore_refusal(*options, Some(*contract)),
        r is Ok ==> is_restore_plan(r->Ok_0, *options, Some(*contract)),
{
    let mut gate = options.gate_requested;
    if let Some(check) = &options.processors {
        match pass(check) {
            Ok(()) => {},
            Err(e) => return Err(e),
        }
        gate = true;
    }
    let mut memory_size: u64 = options.recorded_memory;
    let mut ranges: Vec<SnapshotMemoryExpansionRange> = Vec::new();
    assert(ranges@ =~= Seq::empty());
    match &options.memory {
        Some((size, target)) => {
            memory_size = *size;
            match target {
                Ok(list) => {
                    ranges = copy_ranges(list);
                },
                Err(e) => return Err(refuse(e.message.as_str())),
            }
        },
        None => {},
    }
    if ranges.len() != 0 {
        gate = true;
    }
    if options.command_line_overridden {
        return Err(refuse("restore-time command-line overrides are not allowed"));
    }
    if options.memory_overridden {
        return Err(refuse("restore-time memory overrides are not allowed"));
    }
    match plan_scratch(&contract.microvm_sandbox_blocks, options.scratch_block) {
        Ok(scratch) => Ok(
            RestorePlan {
                gate_required: gate,
                entropy: options.entropy || gate || options.processors.is_some(),
                memory_size: Some(memory_size),
                ranges,
                scratch,
            },
        ),
        Err(e) => Err(e),
    }
}

/// Plans the restore of a machine from an opened snapshot.
pub fn plan_restore(options: &RestoreOptions, contract: Option<&SnapshotMachineContract>) -> (r:
    Result<RestorePlan, Refusal>)
    ensures
        ({
            let recorded = match contract {
                Some(contract) => Some(*contract),
                None => None,
            };
            &&& refusal_of(r) == restore_refusal(*options, recorded)
            &&& r is Ok ==> is_restore_plan(r->Ok_0, *options, recorded)
        }),
{
    let microvm = options.machine == MachineProfile::Microvm;
    match contract {
        Some(contract) => {
            let recorded = same_text(contract.machine_profile.as_str(), "microvm");
            if recorded {
                if !microvm {
                    return Err(refuse("microVM snapshot restore requires --machine microvm"));
                }
                match pass(&options.supported) {
                    Ok(()) => {},
                    Err(e) => return Err(e),
                }
                return plan_microvm_restore(options, contract);
            }
            if microvm {
                return Err(
                    refuse(
                        "snapshot machine profile does not match the requested microVM machine",
                    ),
                );
            }
        },
        None => {
            if microvm {
                return Err(
                    refuse("microVM snapshot is missing its authoritative machine contract"),
                );
            }
        },
    }
    let plan = RestorePlan {
        gate_required: false,
        entropy: options.entropy || options.processors.is_some(),
        memory_size: None,
        ranges: Vec::new(),
        scratch: ScratchSource::Absent,
    };
    assert(plan.ranges@ =~= Seq::empty());
    Ok(plan)
}

/// A restore that changes the machine is gated, and a gated restore injects fresh
/// entropy.
pub proof fn law_changed_restores_are_gated(
    plan: RestorePlan,
    options: RestoreOptions,
    contract: Option<SnapshotMachineContract>,
)
    requires
        is_restore_plan(plan, options, contract),
    ensures
        plan.ranges@.len() != 0 ==> plan.gate_required,
        options.machine == MachineProfile::Microvm && options.processors is Some
            ==> plan.gate_required,
        plan.gate_required ==> plan.entropy,
{
}

/// How long a gated restore waits for the guest, where there is a limit.
pub fn restore_gate_timeout(required: bool, timeout_ms: u64) -> (r: Option<u64>)
    ensures
        r == (if required {
            Some(timeout_ms)
        } else {
            None
        }),
{
    if required {
        Some(timeout_ms)
    } else {
        None
    }
}

/// Where the memory of a machine comes from.
#[derive(Clone, Copy, Debug, PartialEq, Eq, Structural)]
pub enum MemorySource {
    /// A private mapping of a snapshot.
    Restored,
    /// A fresh file beside the snapshot that will be taken.
    SnapshotFile,
    /// A file that is given, kept open for the snapshot that will be taken.
    SnapshotBackingFile,
    /// A file that is given.
    BackingFile,
    /// Memory of its own.
    Anonymous,
}

/// Decides where the memory of a machine comes from.
pub fn memory_source(restoring: bool, capturing: bool, backing_file: bool) -> (r: MemorySource)
    ensures
        r == (if restoring {
            MemorySource::Restored
        } else if capturing && !backing_file {
            MemorySource::SnapshotFile
        } else if capturing {
            MemorySource::SnapshotBackingFile
        } else if backing_file {
            MemorySource::BackingFile
        } else {
            MemorySource::Anonymous
        }),
{
    if restoring {
        MemorySource::Restored
    } else if capturing {
        if backing_file {
            MemorySource::SnapshotBackingFile
        } else {
            MemorySource::SnapshotFile
        }
    } else if backing_file {
        MemorySource::BackingFile
    } else {
        MemorySource::Anonymous
    }
}

/// Which hypervisor runs a machine.
#[derive(Debug)]
pub enum HypervisorChoice {
    Named(String),
    /// The one for microVMs that this host has.
    MicrovmDefault,
    /// The one that this host has.
    HostDefault,
}

/// Decides which hypervisor runs a machine.
pub fn choose_hypervisor(name: Option<String>, machine: MachineProfile) -> (r: HypervisorChoice)
    ensures
        match name {
            Some(name) => r == HypervisorChoice::Named(name),
            None => if machine == MachineProfile::Microvm {
                r is MicrovmDefault
            } else {
                r is HostDefault
            },
        },
{
    match name {
        Some(name) => HypervisorChoice::Named(name),
        None => if machine == MachineProfile::Microvm {
            HypervisorChoice::MicrovmDefault
        } else {
            HypervisorChoice::HostDefault
        },
    }
}

/// What the operator asked for beside the machine itself.
#[derive(Clone, Copy, Debug, PartialEq, Eq, Structural)]
pub struct SessionOptions {
    pub gfx: bool,
    pub vnc: bool,
    /// The port of the debugger.
    pub gdb: Option<u16>,
    pub paused: bool,
    /// Somebody waits to hear that the machine was restored.
    pub restore_ready: bool,
}

/// What runs beside a machine, and how the machine starts.
#[derive(Clone, Copy, Debug, PartialEq, Eq, Structural)]
pub struct SessionPlan {
    pub vnc_worker: bool,
    /// Where the debugger listens, on the loopback address.
    pub debugger_port: Option<u16>,
    /// The machine is started at once.
    pub resume: bool,
    /// The machine reports that it was restored when the operator resumes it.
    pub restore_ready_pending: bool,
}

/// Decides what runs beside a machine, and how the machine starts.
pub fn plan_session(options: SessionOptions) -> (plan: SessionPlan)
    ensures
        plan == (SessionPlan {
            vnc_worker: options.gfx || options.vnc,
            debugger_port: options.gdb,
            resume: !options.paused,
            restore_ready_pending: options.paused && options.restore_ready,
        }),
{
    SessionPlan {
        vnc_worker: options.gfx || options.vnc,
        debugger_port: options.gdb,
        resume: !options.paused,
        restore_ready_pending: options.paused && options.restore_ready,
    }
}

/// Takes in whether the machine started, unless it was to stay paused.
pub fn check_started(paused: bool, resumed: bool) -> (r: Result<(), Refusal>)
    ensures
        refusal_of(r) == (if !paused && !resumed {
            Some("VM failed to start; inspect the worker log for the device startup error"@)
        } else {
            None
        }),
{
    if !paused && !resumed {
        return Err(
            refuse("VM failed to start; inspect the worker log for the device startup error"),
        );
    }
    Ok(())
}

/// Where the management server listens, and what it speaks. The general option
/// goes before the two for one protocol each.
pub fn select_rpc(
    rpc: Option<(String, RpcTransport)>,
    ttrpc: Option<String>,
    grpc: Option<String>,
) -> (r: Option<(String, RpcTransport)>)
    ensures
        r == (match (rpc, ttrpc, grpc) {
            (Some(rpc), _, _) => Some(rpc),
            (None, Some(path), _) => Some((path, RpcTransport::Ttrpc)),
            (None, None, Some(path)) => Some((path, RpcTransport::Grpc)),
            (None, None, None) => None,
        }),
{
    match rpc {
        Some(rpc) => Some(rpc),
        None => match ttrpc {
            Some(path) => Some((path, RpcTransport::Ttrpc)),
            None => match grpc {
                Some(path) => Some((path, RpcTransport::Grpc)),
                None => None,
            },
        },
    }
}

/// The address that a display server listens on: an address with a port, or a
/// bare address with the default port. What the host reads as an IPv6 endpoint or
/// address is given.
pub open spec fn listen_address(
    text: Seq<char>,
    v6: Option<Endpoint>,
    v6_bare: Option<Endpoint>,
    port: u16,
) -> Option<Endpoint> {
    match crate::net::socket_v4_of(text) {
        Some(endpoint) => Some(endpoint),
        None => match v6 {
            Some(endpoint) => Some(endpoint),
            None => match crate::net::ipv4_of(text) {
                Some(ip) => Some(Endpoint::V4 { ip, port: port as nat }),
                None => v6_bare,
            },
        },
    }
}

/// The view of an optional endpoint.
pub open spec fn address_view(address: Option<SocketAddress>) -> Option<Endpoint> {
    match address {
        Some(address) => Some(address@),
        None => None,
    }
}

/// Reads the address that a display server listens on.
pub fn vnc_listen_address(
    text: &str,
    v6: Option<SocketAddress>,
    v6_bare: Option<SocketAddress>,
    port: u16,
) -> (r: Result<SocketAddress, Refusal>)
    ensures
        match listen_address(text@, address_view(v6), address_view(v6_bare), port) {
            Some(endpoint) => r is Ok && r->Ok_0@ == endpoint,
            None => refusal_of(r) == Some(
                "invalid VNC listen address: "@ + text@
                    + " (expected IP address or socket address like [::1]:5900)"@,
            ),
        },
{
    match SocketAddress::parse_v4(text) {
        Some(address) => return Ok(address),
        None => {},
    }
    match v6 {
        Some(address) => return Ok(address),
        None => {},
    }
    match Ipv4Address::parse(text) {
        Some(ip) => return Ok(SocketAddress::V4 { ip, port }),
        None => {},
    }
    match v6_bare {
        Some(address) => Ok(address),
        None => Err(
            refuse_quoting(
                "invalid VNC listen address: ",
                text,
                " (expected IP address or socket address like [::1]:5900)",
            ),
        ),
    }
}

/// Whether the scratch disk of a snapshot was captured with its machine.
pub fn recorded_scratch_policy(contract: Option<&SnapshotMachineContract>) -> (r: ScratchPolicy)
    ensures
        r == (if contract is Some && contract->0.microvm_sandbox_blocks@.len() != 0
            && contract->0.microvm_sandbox_blocks@.last().artifact@ == SCRATCH_FILE_NAME@ {
            ScratchPolicy::Paired
        } else {
            ScratchPolicy::Fresh
        }),
{
    match contract {
        Some(contract) => {
            let blocks = &contract.microvm_sandbox_blocks;
            if blocks.len() != 0 && same_text(
                blocks[blocks.len() - 1].artifact.as_str(),
                SCRATCH_FILE_NAME,
            ) {
                ScratchPolicy::Paired
            } else {
                ScratchPolicy::Fresh
            }
        },
        None => ScratchPolicy::Fresh,
    }
}

/// What the host found out about a snapshot that is about to be restored.
#[derive(Debug)]
pub struct PreparationFacts {
    pub machine: MachineProfile,
    /// Whether the command line of the machine is known.
    pub command_line: bool,
    /// Whether the blocks of the machine can be described.
    pub block_contract: Result<(), Refusal>,
    /// Whether the manifest fits the machine.
    pub manifest_check: Result<(), Refusal>,
    /// Whether the contract that is expected can be put together from its inputs,
    /// which [`contract_inputs`] gives.
    pub expected_contract: Result<(), Refusal>,
    /// Whether the recorded contract is the expected one.
    pub contract_check: Result<(), Refusal>,
    /// When the snapshot was taken, in nanoseconds since the Unix epoch.
    pub capture_time_ns: Result<i128, Refusal>,
    pub now_ns: i128,
    /// Whether the saved state can be decoded.
    pub saved_state: Result<(), Refusal>,
    /// The state units that the saved state holds, or why they cannot be read. Only
    /// a snapshot with a contract is asked for them.
    pub inventory: Result<Vec<String>, Refusal>,
}

/// What a microVM that is about to be restored has on this host.
#[derive(Debug)]
pub struct RequestedMicrovm {
    pub hypervisor: String,
    pub command_line: String,
    pub network: Option<EffectiveMicrovmNetwork>,
    pub filesystem: Option<EffectiveMicrovmFilesystem>,
    pub console: Option<SnapshotAttachment>,
    pub blocks: Vec<SnapshotMicrovmSandboxBlock>,
    pub processors: u32,
    pub memory: u64,
}

/// What the contract that a snapshot is held against is made of, but for the time of
/// the capture, which goes along as it was recorded.
#[derive(Debug)]
pub struct ContractInputs {
    pub hypervisor: String,
    pub command_line: String,
    pub network: Option<EffectiveMicrovmNetwork>,
    pub filesystem_slot: bool,
    pub filesystem: Option<EffectiveMicrovmFilesystem>,
    pub console: Option<SnapshotAttachment>,
    pub blocks: Vec<SnapshotMicrovmSandboxBlock>,
    pub processors: u32,
    pub memory: u64,
    pub memory_capacity: Option<u64>,
    pub state_unit_names: Vec<String>,
    pub tsc_frequency_hz: u64,
    pub apic_frequency_hz: Option<u64>,
    pub cpu_contract: Vec<u8>,
}

/// The inputs are the ones that a machine and its snapshot give: what the machine
/// has on this host, but an exported directory only where the snapshot records
/// one; and from the snapshot the slot of that directory, how far memory can grow
/// where it can, and what only the stopped machine knew.
pub open spec fn are_contract_inputs(
    inputs: ContractInputs,
    requested: RequestedMicrovm,
    saved: SnapshotMachineContract,
) -> bool {
    &&& inputs.hypervisor == requested.hypervisor
    &&& inputs.command_line == requested.command_line
    &&& inputs.network == requested.network
    &&& inputs.filesystem_slot == has_device(saved.devices@, MICROVM_FILESYSTEM_STABLE_ID@)
    &&& inputs.filesystem == (if saved.microvm_filesystem is Some {
        requested.filesystem
    } else {
        None
    })
    &&& inputs.console == requested.console
    &&& inputs.blocks == requested.blocks
    &&& inputs.processors == requested.processors
    &&& inputs.memory == requested.memory
    &&& inputs.memory_capacity == (if saved.memory_expansion_version != 0 {
        Some(saved.memory_capacity_bytes)
    } else {
        None
    })
    &&& string_views(inputs.state_unit_names@) == string_views(saved.state_unit_names@)
    &&& inputs.tsc_frequency_hz == saved.tsc_frequency_hz
    &&& inputs.apic_frequency_hz == saved.apic_frequency_hz
    &&& inputs.cpu_contract@ == saved.cpu_contract@
}

/// Decides what the contract is made of that a snapshot is held against.
pub fn contract_inputs(requested: RequestedMicrovm, saved: &SnapshotMachineContract) -> (r: Result<
    ContractInputs,
    Refusal,
>)
    ensures
        refusal_of(r) == slot_refusal(*saved),
        r is Ok ==> are_contract_inputs(r->Ok_0, requested, *saved),
{
    let filesystem_slot: bool = match microvm_filesystem_slot_from_snapshot(saved) {
        Ok(slot) => slot,
        Err(e) => return Err(e),
    };
    let filesystem = if saved.microvm_filesystem.is_some() {
        requested.filesystem
    } else {
        None
    };
    let memory_capacity: Option<u64> = if saved.memory_expansion_version != 0 {
        Some(saved.memory_capacity_bytes)
    } else {
        None
    };
    Ok(
        ContractInputs {
            hypervisor: requested.hypervisor,
            command_line: requested.command_line,
            network: requested.network,
            filesystem_slot,
            filesystem,
            console: requested.console,
            blocks: requested.blocks,
            processors: requested.processors,
            memory: requested.memory,
            memory_capacity,
            state_unit_names: copy_texts(&saved.state_unit_names),
            tsc_frequency_hz: saved.tsc_frequency_hz,
            apic_frequency_hz: saved.apic_frequency_hz,
            cpu_contract: crate::bytes::copy_bytes(saved.cpu_contract.as_slice()),
        },
    )
}

/// What a restored worker is told about time.
#[derive(Debug)]
pub struct RestoreTime {
    pub downtime_ns: u128,
    pub tsc_frequency_hz: u64,
    pub apic_frequency_hz: Option<u64>,
    pub cpu_contract: Vec<u8>,
}

/// Why the time of a restore is refused, if it is.
pub open spec fn downtime_refusal(capture: i128, now: i128) -> Option<Seq<char>> {
    if now < capture {
        Some("destination wall clock is before snapshot capture time"@)
    } else if now - capture > MAX_SNAPSHOT_DOWNTIME_NS {
        Some("snapshot host downtime exceeds the supported 30-day bound"@)
    } else {
        None
    }
}

/// Why a microVM cannot be restored from its snapshot, if it cannot.
pub open spec fn microvm_preparation_refusal(
    facts: PreparationFacts,
    contract: Option<SnapshotMachineContract>,
) -> Option<Seq<char>> {
    if contract is None {
        Some("microVM snapshot is missing its authoritative machine contract"@)
    } else if slot_refusal(contract->0) is Some {
        slot_refusal(contract->0)
    } else if facts.expected_contract is Err {
        check_view(facts.expected_contract)
    } else if facts.contract_check is Err {
        check_view(facts.contract_check)
    } else {
        match facts.capture_time_ns {
            Err(_) => Some("snapshot capture wall clock is invalid"@),
            Ok(capture) => downtime_refusal(capture, facts.now_ns),
        }
    }
}

/// Why a snapshot cannot be restored, if it cannot.
pub open spec fn preparation_refusal(
    facts: PreparationFacts,
    contract: Option<SnapshotMachineContract>,
) -> Option<Seq<char>> {
    let microvm = facts.machine == MachineProfile::Microvm;
    if microvm && facts.block_contract is Err {
        check_view(facts.block_contract)
    } else if microvm && !facts.command_line {
        Some("microVM restore requires an effective PVH command line"@)
    } else if facts.manifest_check is Err {
        check_view(facts.manifest_check)
    } else if microvm && microvm_preparation_refusal(facts, contract) is Some {
        microvm_preparation_refusal(facts, contract)
    } else if facts.saved_state is Err {
        check_view(facts.saved_state)
    } else if contract is None {
        None
    } else {
        match facts.inventory {
            Err(e) => Some(e@),
            Ok(inventory) => if string_views(inventory@) != string_views(
                contract->0.state_unit_names@,
            ) {
                Some("snapshot manifest state-unit inventory does not match state.bin"@)
            } else {
                None
            },
        }
    }
}

/// The recorded contract, as a value.
pub open spec fn contract_value(contract: Option<&SnapshotMachineContract>) -> Option<
    SnapshotMachineContract,
> {
    match contract {
        Some(contract) => Some(*contract),
        None => None,
    }
}

/// The time is the one that a snapshot and a clock give.
pub open spec fn is_restore_time(
    time: RestoreTime,
    facts: PreparationFacts,
    contract: SnapshotMachineContract,
) -> bool {
    &&& facts.capture_time_ns is Ok
    &&& time.downtime_ns == facts.now_ns - facts.capture_time_ns->Ok_0
    &&& time.tsc_frequency_hz == contract.tsc_frequency_hz
    &&& time.apic_frequency_hz == contract.apic_frequency_hz
    &&& time.cpu_contract@ == contract.cpu_contract@
}

fn prepare_microvm(facts: &PreparationFacts, contract: Option<&SnapshotMachineContract>) -> (r:
    Result<RestoreTime, Refusal>)
    ensures
        refusal_of(r) == microvm_preparation_refusal(*facts, contract_value(contract)),
        r is Ok ==> contract is Some && is_restore_time(r->Ok_0, *facts, *contract->0),
{
    let contract = match contract {
        Some(contract) => contract,
        None => {
            return Err(
                refuse("microVM snapshot is missing its authoritative machine contract"),
            );
        },
    };
    match microvm_filesystem_slot_from_snapshot(contract) {
        Ok(_slot) => {},
        Err(e) => return Err(e),
    }
    match pass(&facts.expected_contract) {
        Ok(()) => {},
        Err(e) => return Err(e),
    }
    match pass(&facts.contract_check) {
        Ok(()) => {},
        Err(e) => return Err(e),
    }
    let capture: i128 = match &facts.capture_time_ns {
        Ok(capture) => *capture,
        Err(_) => return Err(refuse("snapshot capture wall clock is invalid")),
    };
    match calculate_snapshot_downtime(capture, facts.now_ns) {
        Ok(downtime_ns) => Ok(
            RestoreTime {
                downtime_ns,
                tsc_frequency_hz: contract.tsc_frequency_hz,
                apic_frequency_hz: contract.apic_frequency_hz,
                cpu_contract: crate::bytes::copy_bytes(contract.cpu_contract.as_slice()),
            },
        ),
        Err(e) => Err(e),
    }
}

/// Decides whether a snapshot may be restored, before its generation is claimed.
/// A microVM is also told how long it was away.
pub fn prepare_snapshot_restore(
    facts: &PreparationFacts,
    contract: Option<&SnapshotMachineContract>,
) -> (r: Result<Option<RestoreTime>, Refusal>)
    ensures
        refusal_of(r) == preparation_refusal(*facts, contract_value(contract)),
        r is Ok ==> (r->Ok_0 is Some <==> facts.machine == MachineProfile::Microvm),
        r is Ok && r->Ok_0 is Some ==> contract is Some && is_restore_time(
            r->Ok_0->0,
            *facts,
            *contract->0,
        ),
{
    let microvm = facts.machine == MachineProfile::Microvm;
    if microvm {
        match pass(&facts.block_contract) {
            Ok(()) => {},
            Err(e) => return Err(e),
        }
        if !facts.command_line {
            return Err(refuse("microVM restore requires an effective PVH command line"));
        }
    }
    match pass(&facts.manifest_check) {
        Ok(()) => {},
        Err(e) => return Err(e),
    }
    let time: Option<RestoreTime> = if microvm {
        match prepare_microvm(facts, contract) {
            Ok(time) => Some(time),
            Err(e) => return Err(e),
        }
    } else {
        None
    };
    match pass(&facts.saved_state) {
        Ok(()) => {},
        Err(e) => return Err(e),
    }
    if let Some(contract) = contract {
        let inventory = match &facts.inventory {
            Ok(inventory) => inventory,
            Err(e) => return Err(refuse(e.message.as_str())),
        };
        if !same_texts(inventory, &contract.state_unit_names) {
            return Err(
                refuse("snapshot manifest state-unit inventory does not match state.bin"),
            );
        }
    }
    Ok(time)
}

} // verus!
