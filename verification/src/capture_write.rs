//! What a snapshot says of itself, and which files go into it.

use vstd::prelude::*;

use crate::capture::{
    block_views, consumed_config_sections, preflight_refusal, recorded_block,
    unbind_platform_blocks, Block, CaptureFacts, ConfigSections, MicrovmSandboxBlockRole,
    ScratchPolicy, SnapshotTier, TierPolicy,
};
use crate::config::MicrovmNetworkConfig;
use crate::filesystem::{EffectiveMicrovmFilesystem, MicrovmFilesystemConfig};
use crate::network_attachment::{EffectiveMicrovmNetwork, EgressPolicy};
use crate::refusal::{refusal_of, refuse, text_view, Refusal};
use crate::rpc::SnapshotSaveResponse;
use crate::run::ContractInputs;
use crate::snapshot::{
    SnapshotAttachment, SnapshotMachineContract, SnapshotMicrovmSandboxBlock,
};

verus! {

/// The numbers that stand for the parts of a configuration.
#[derive(Clone, Copy, Debug, PartialEq, Eq, Structural)]
pub struct SectionBits {
    pub invariants: u32,
    pub image_binding: u32,
    pub sandbox: u32,
}

impl SectionBits {
    /// The number that stands for several parts.
    pub open spec fn of(self, sections: ConfigSections) -> u32 {
        (if sections.invariants {
            self.invariants
        } else {
            0
        }) | (if sections.image_binding {
            self.image_binding
        } else {
            0
        }) | (if sections.sandbox {
            self.sandbox
        } else {
            0
        })
    }

    fn number(self, sections: ConfigSections) -> (n: u32)
        ensures
            n == self.of(sections),
    {
        let invariants: u32 = if sections.invariants {
            self.invariants
        } else {
            0
        };
        let image_binding: u32 = if sections.image_binding {
            self.image_binding
        } else {
            0
        };
        let sandbox: u32 = if sections.sandbox {
            self.sandbox
        } else {
            0
        };
        invariants | image_binding | sandbox
    }
}

/// What the format of snapshots and this host fix.
#[derive(Debug)]
pub struct SnapshotFormat {
    pub version: u32,
    pub openvmm_version: String,
    pub page_size: u32,
    pub architecture: String,
    pub format_magic: Vec<u8>,
    pub saved_state_schema_version: u32,
    pub saved_state_root_type: String,
    pub section_bits: SectionBits,
}

/// What a snapshot says of itself. The sizes and digests of its files are filled
/// in when they are written.
#[derive(Debug)]
pub struct SnapshotManifest {
    pub version: u32,
    /// Nanoseconds since the epoch.
    pub created_at_ns: i128,
    pub openvmm_version: String,
    pub memory_size_bytes: u64,
    pub vp_count: u32,
    pub page_size: u32,
    pub architecture: String,
    pub state_size_bytes: u64,
    pub state_sha256: Vec<u8>,
    pub memory_sha256: Vec<u8>,
    pub machine_contract: Option<SnapshotMachineContract>,
    pub format_magic: Vec<u8>,
    pub saved_state_schema_version: u32,
    pub saved_state_root_type: String,
    pub snapshot_tier: String,
    pub restore_policy: String,
    pub consumed_config_sections: u32,
}

/// The machine that is captured.
#[derive(Clone, Copy, Debug, PartialEq, Eq, Structural)]
pub struct CapturedMachine {
    pub created_at_ns: i128,
    pub memory: u64,
    pub processors: u32,
}

/// The part of a configuration that a tier consumes.
pub open spec fn sections_of(tier: Option<SnapshotTier>) -> ConfigSections {
    ConfigSections {
        invariants: tier is Some,
        image_binding: tier is Some && tier != Some(SnapshotTier::Platform),
        sandbox: tier is Some && tier != Some(SnapshotTier::Platform),
    }
}

/// The manifest describes the machine, and nothing of its files yet.
pub open spec fn is_manifest(
    manifest: SnapshotManifest,
    format: SnapshotFormat,
    machine: CapturedMachine,
    contract: Option<SnapshotMachineContract>,
    tier: Option<TierPolicy>,
) -> bool {
    &&& manifest.version == format.version
    &&& manifest.created_at_ns == machine.created_at_ns
    &&& manifest.openvmm_version == format.openvmm_version
    &&& manifest.memory_size_bytes == machine.memory
    &&& manifest.vp_count == machine.processors
    &&& manifest.page_size == format.page_size
    &&& manifest.architecture == format.architecture
    &&& manifest.state_size_bytes == 0
    &&& manifest.state_sha256@.len() == 0 && manifest.memory_sha256@.len() == 0
    &&& manifest.machine_contract == contract
    &&& manifest.format_magic == format.format_magic
    &&& manifest.saved_state_schema_version == format.saved_state_schema_version
    &&& manifest.saved_state_root_type == format.saved_state_root_type
    &&& match tier {
        Some(policy) => {
            &&& manifest.snapshot_tier == policy.manifest_name
            &&& manifest.restore_policy == policy.restore_policy
            &&& manifest.consumed_config_sections == format.section_bits.of(
                sections_of(Some(policy.tier)),
            )
        },
        None => {
            &&& manifest.snapshot_tier@.len() == 0 && manifest.restore_policy@.len() == 0
            &&& manifest.consumed_config_sections == 0
        },
    }
}

/// Describes a captured machine. A snapshot that the operator saves has neither a
/// machine contract nor a tier.
pub fn describe_capture(
    format: SnapshotFormat,
    machine: CapturedMachine,
    contract: Option<SnapshotMachineContract>,
    tier: Option<TierPolicy>,
) -> (manifest: SnapshotManifest)
    ensures
        is_manifest(manifest, format, machine, contract, tier),
{
    let (snapshot_tier, restore_policy, consumed): (String, String, u32) = match tier {
        Some(policy) => {
            let sections = consumed_config_sections(Some(policy.tier));
            (policy.manifest_name, policy.restore_policy, format.section_bits.number(sections))
        },
        None => {
            proof {
                reveal_strlit("");
            }
            ("".to_owned(), "".to_owned(), 0)
        },
    };
    SnapshotManifest {
        version: format.version,
        created_at_ns: machine.created_at_ns,
        openvmm_version: format.openvmm_version,
        memory_size_bytes: machine.memory,
        vp_count: machine.processors,
        page_size: format.page_size,
        architecture: format.architecture,
        state_size_bytes: 0,
        state_sha256: Vec::new(),
        memory_sha256: Vec::new(),
        machine_contract: contract,
        format_magic: format.format_magic,
        saved_state_schema_version: format.saved_state_schema_version,
        saved_state_root_type: format.saved_state_root_type,
        snapshot_tier,
        restore_policy,
        consumed_config_sections: consumed,
    }
}

/// A device is recorded with its policy and its attachment, or not at all.
pub fn recorded_together<A, B, C>(
    device: Option<A>,
    policy: Option<B>,
    attachment: Option<C>,
) -> (r: Option<(A, B, C)>)
    ensures
        r == (match (device, policy, attachment) {
            (Some(a), Some(b), Some(c)) => Some((a, b, c)),
            _ => None,
        }),
{
    match (device, policy, attachment) {
        (Some(a), Some(b), Some(c)) => Some((a, b, c)),
        _ => None,
    }
}

/// What a running microVM has to show for the contract of its snapshot.
#[derive(Debug)]
pub struct CaptureSource {
    pub hypervisor: String,
    pub command_line: String,
    pub network: Option<MicrovmNetworkConfig>,
    pub egress_policy: Option<EgressPolicy>,
    pub network_attachment: Option<SnapshotAttachment>,
    pub filesystem_slot: bool,
    pub filesystem: Option<MicrovmFilesystemConfig>,
    pub filesystem_root_path: Option<String>,
    pub filesystem_attachment: Option<SnapshotAttachment>,
    pub console: Option<SnapshotAttachment>,
    pub control_console: Option<SnapshotAttachment>,
    /// The block devices as they stand, or why they cannot be described.
    pub blocks: Result<Vec<SnapshotMicrovmSandboxBlock>, Refusal>,
    pub tier: Option<SnapshotTier>,
    pub processors: u32,
    pub memory: u64,
    pub memory_capacity: Option<u64>,
}

/// What the contract of a captured machine is made of.
#[derive(Debug)]
pub struct CaptureInputs {
    pub inputs: ContractInputs,
    pub control_console: Option<SnapshotAttachment>,
    /// When the machine was stopped, in nanoseconds since the Unix epoch.
    pub capture_wall_clock_ns: u128,
}

/// The inputs are the ones that a machine and its stopped worker give: a network or
/// an exported directory only with everything that belongs to it, the block devices
/// as the tier records them, and from the worker what only it knows.
pub open spec fn are_capture_inputs(
    r: CaptureInputs,
    source: CaptureSource,
    stopped: SnapshotSaveResponse,
) -> bool {
    let i = r.inputs;
    &&& source.blocks is Ok
    &&& i.hypervisor == source.hypervisor && i.command_line == source.command_line
    &&& i.network == (match (source.network, source.egress_policy, source.network_attachment) {
        (Some(config), Some(policy), Some(attachment)) => Some(
            EffectiveMicrovmNetwork { config, policy, attachment },
        ),
        _ => None,
    })
    &&& i.filesystem_slot == source.filesystem_slot
    &&& i.filesystem == (match (
        source.filesystem,
        source.filesystem_root_path,
        source.filesystem_attachment,
    ) {
        (Some(config), Some(root_path), Some(attachment)) => Some(
            EffectiveMicrovmFilesystem { config, root_path, attachment },
        ),
        _ => None,
    })
    &&& i.console == source.console && r.control_console == source.control_console
    &&& block_views(i.blocks@) == block_views(source.blocks->Ok_0@).map_values(
        |b: Block| recorded_block(b, source.tier),
    )
    &&& i.processors == source.processors && i.memory == source.memory
    &&& i.memory_capacity == source.memory_capacity
    &&& i.state_unit_names == stopped.state_unit_names
    &&& r.capture_wall_clock_ns == stopped.capture_wall_clock_ns
    &&& i.tsc_frequency_hz == stopped.tsc_frequency_hz
    &&& i.apic_frequency_hz == Some(stopped.apic_frequency_hz)
    &&& i.cpu_contract == stopped.cpu_contract
}

/// Decides what the contract of a captured machine is made of.
pub fn capture_inputs(source: CaptureSource, stopped: SnapshotSaveResponse) -> (r: Result<
    CaptureInputs,
    Refusal,
>)
    ensures
        refusal_of(r) == (match source.blocks {
            Err(e) => Some(e@),
            Ok(_) => None,
        }),
        r is Ok ==> are_capture_inputs(r->Ok_0, source, stopped),
{
    let network = match recorded_together(
        source.network,
        source.egress_policy,
        source.network_attachment,
    ) {
        Some((config, policy, attachment)) => Some(
            EffectiveMicrovmNetwork { config, policy, attachment },
        ),
        None => None,
    };
    let filesystem = match recorded_together(
        source.filesystem,
        source.filesystem_root_path,
        source.filesystem_attachment,
    ) {
        Some((config, root_path, attachment)) => Some(
            EffectiveMicrovmFilesystem { config, root_path, attachment },
        ),
        None => None,
    };
    let mut blocks = match source.blocks {
        Ok(blocks) => blocks,
        Err(e) => return Err(e),
    };
    unbind_platform_blocks(&mut blocks, source.tier);
    Ok(
        CaptureInputs {
            inputs: ContractInputs {
                hypervisor: source.hypervisor,
                command_line: source.command_line,
                network,
                filesystem_slot: source.filesystem_slot,
                filesystem,
                console: source.console,
                blocks,
                processors: source.processors,
                memory: source.memory,
                memory_capacity: source.memory_capacity,
                state_unit_names: stopped.state_unit_names,
                tsc_frequency_hz: stopped.tsc_frequency_hz,
                apic_frequency_hz: Some(stopped.apic_frequency_hz),
                cpu_contract: stopped.cpu_contract,
            },
            control_console: source.control_console,
            capture_wall_clock_ns: stopped.capture_wall_clock_ns,
        },
    )
}

/// The first scratch disk.
pub open spec fn first_scratch(roles: Seq<MicrovmSandboxBlockRole>, at: int) -> bool {
    &&& 0 <= at < roles.len() && roles[at] == MicrovmSandboxBlockRole::Scratch
    &&& forall|k: int| 0 <= k < at ==> roles[k] != MicrovmSandboxBlockRole::Scratch
}

/// Some block device is a scratch disk.
pub open spec fn has_scratch(roles: Seq<MicrovmSandboxBlockRole>) -> bool {
    exists|k: int| 0 <= k < roles.len() && roles[k] == MicrovmSandboxBlockRole::Scratch
}

/// The scratch disk goes into the snapshot.
pub open spec fn takes_scratch(
    roles: Seq<MicrovmSandboxBlockRole>,
    policy: ScratchPolicy,
) -> bool {
    roles.len() > 0 && policy == ScratchPolicy::Paired
}

/// Why the files of a snapshot cannot be gathered, if they cannot.
pub open spec fn scratch_refusal(
    roles: Seq<MicrovmSandboxBlockRole>,
    policy: ScratchPolicy,
) -> Option<Seq<char>> {
    if takes_scratch(roles, policy) && !has_scratch(roles) {
        Some("paired snapshot lost its scratch backing handle"@)
    } else {
        None
    }
}

/// Finds the scratch disk that goes into a snapshot, where one does.
pub fn scratch_to_capture(roles: &Vec<MicrovmSandboxBlockRole>, policy: ScratchPolicy) -> (r:
    Result<Option<usize>, Refusal>)
    ensures
        refusal_of(r) == scratch_refusal(roles@, policy),
        r is Ok ==> (r->Ok_0 is Some <==> takes_scratch(roles@, policy)),
        r is Ok && r->Ok_0 is Some ==> first_scratch(roles@, r->Ok_0->0 as int),
{
    if roles.len() == 0 || policy != ScratchPolicy::Paired {
        return Ok(None);
    }
    let mut i: usize = 0;
    while i < roles.len()
        invariant
            i <= roles@.len(),
            roles@.len() > 0 && policy == ScratchPolicy::Paired,
            forall|k: int| 0 <= k < i ==> roles@[k] != MicrovmSandboxBlockRole::Scratch,
        decreases roles@.len() - i,
    {
        if roles[i] == MicrovmSandboxBlockRole::Scratch {
            return Ok(Some(i));
        }
        i += 1;
    }
    Err(refuse("paired snapshot lost its scratch backing handle"))
}

/// How guest memory gets into the snapshot.
#[derive(Clone, Copy, Debug, PartialEq, Eq, Structural)]
pub enum MemoryTransfer {
    /// The file was made for this capture, and moves into the snapshot.
    Owned,
    /// The file belongs to the operator, and is copied.
    Copied,
}

/// What a stopped machine has to show.
#[derive(Debug)]
pub struct StoppedMachine {
    pub machine: CapturedMachine,
    /// The machine contract that was drawn up from what [`capture_inputs`] gives, or
    /// why it could not be.
    pub contract: Result<SnapshotMachineContract, Refusal>,
    pub tier: Option<TierPolicy>,
    /// How flushing guest memory ended, where its file is still open.
    pub memory_flush: Option<Result<(), Refusal>>,
    pub block_roles: Vec<MicrovmSandboxBlockRole>,
    pub scratch_policy: ScratchPolicy,
    /// A file was made for this capture.
    pub automatic_memory_file: bool,
}

/// A snapshot that is ready to be written.
#[derive(Debug)]
pub struct WritePlan {
    pub manifest: SnapshotManifest,
    /// The block device whose backing goes into the snapshot.
    pub scratch: Option<usize>,
    pub memory: MemoryTransfer,
}

/// Why nothing is written, if nothing is.
pub open spec fn write_refusal(stopped: StoppedMachine) -> Option<Seq<char>> {
    match stopped.contract {
        Err(e) => Some(e@),
        Ok(_) => match stopped.memory_flush {
            None => Some("microVM snapshot capture lost its exact RAM handle"@),
            Some(Err(_)) => Some("failed to flush snapshot RAM handle"@),
            Some(Ok(())) => scratch_refusal(stopped.block_roles@, stopped.scratch_policy),
        },
    }
}

/// Plans the writing of a snapshot that the guest asked for, once its machine is
/// stopped.
pub fn plan_write(format: SnapshotFormat, stopped: StoppedMachine) -> (r: Result<
    WritePlan,
    Refusal,
>)
    ensures
        refusal_of(r) == write_refusal(stopped),
        r is Ok ==> {
            let plan = r->Ok_0;
            &&& is_manifest(
                plan.manifest,
                format,
                stopped.machine,
                Some(stopped.contract->Ok_0),
                stopped.tier,
            )
            &&& plan.scratch is Some <==> takes_scratch(
                stopped.block_roles@,
                stopped.scratch_policy,
            )
            &&& plan.scratch is Some ==> first_scratch(
                stopped.block_roles@,
                plan.scratch->0 as int,
            )
            &&& plan.memory == (if stopped.automatic_memory_file {
                MemoryTransfer::Owned
            } else {
                MemoryTransfer::Copied
            })
        },
{
    let contract = match stopped.contract {
        Ok(contract) => contract,
        Err(e) => return Err(e),
    };
    match stopped.memory_flush {
        None => {
            return Err(refuse("microVM snapshot capture lost its exact RAM handle"));
        },
        Some(Err(_)) => return Err(refuse("failed to flush snapshot RAM handle")),
        Some(Ok(())) => {},
    }
    let scratch: Option<usize> = match scratch_to_capture(
        &stopped.block_roles,
        stopped.scratch_policy,
    ) {
        Ok(scratch) => scratch,
        Err(e) => return Err(e),
    };
    let memory = if stopped.automatic_memory_file {
        MemoryTransfer::Owned
    } else {
        MemoryTransfer::Copied
    };
    let manifest = describe_capture(format, stopped.machine, Some(contract), stopped.tier);
    Ok(WritePlan { manifest, scratch, memory })
}

/// A capture that passed its preflight never lacks its scratch disk: it is there
/// whenever the tier calls for it, and is taken only then.
pub proof fn law_scratch_goes_with_its_tier(facts: CaptureFacts)
    requires
        preflight_refusal(facts) is None,
    ensures
        scratch_refusal(facts.block_roles@, facts.scratch_policy) is None,
        takes_scratch(facts.block_roles@, facts.scratch_policy) <==> (facts.tier is Some
            && facts.tier->0.requires_paired_scratch),
{
    let roles = facts.block_roles@;
    if roles.len() > 0 {
        assert(roles[roles.len() - 1] == MicrovmSandboxBlockRole::Scratch);
    }
}

/// A step of a snapshot that the operator saves.
#[derive(Clone, Copy, Debug, PartialEq, Eq, Structural)]
pub enum SaveStep {
    Pause,
    Save,
    Flush,
    Write,
}

/// Where the saving of a snapshot stands.
#[derive(Clone, Copy, Debug, PartialEq, Eq, Structural)]
pub enum DiskSave {
    Next(SaveStep),
    Saved,
    /// The step that failed. The machine is left as it is.
    Failed(SaveStep),
}

/// Where the saving of a snapshot stands after a step.
pub open spec fn save_next(save: DiskSave, ok: bool) -> DiskSave {
    match save {
        DiskSave::Next(step) => if !ok {
            DiskSave::Failed(step)
        } else {
            match step {
                SaveStep::Pause => DiskSave::Next(SaveStep::Save),
                SaveStep::Save => DiskSave::Next(SaveStep::Flush),
                SaveStep::Flush => DiskSave::Next(SaveStep::Write),
                SaveStep::Write => DiskSave::Saved,
            }
        },
        _ => save,
    }
}

impl DiskSave {
    /// The machine is paused first. It is not resumed when its snapshot is saved.
    pub fn start() -> (save: DiskSave)
        ensures
            save == DiskSave::Next(SaveStep::Pause),
    {
        DiskSave::Next(SaveStep::Pause)
    }

    /// Takes the outcome of a step. The first failure ends the saving.
    pub fn advance(&mut self, ok: bool)
        ensures
            *final(self) == save_next(*old(self), ok),
    {
        match *self {
            DiskSave::Next(step) => {
                *self = if !ok {
                    DiskSave::Failed(step)
                } else {
                    match step {
                        SaveStep::Pause => DiskSave::Next(SaveStep::Save),
                        SaveStep::Save => DiskSave::Next(SaveStep::Flush),
                        SaveStep::Flush => DiskSave::Next(SaveStep::Write),
                        SaveStep::Write => DiskSave::Saved,
                    }
                };
            },
            _ => {},
        }
    }

    /// What is said of a step that failed, where its own reason does not stand
    /// alone.
    pub fn failure(step: SaveStep) -> (text: Option<&'static str>)
        ensures
            text_view(text) == (match step {
                SaveStep::Pause => Some("failed to pause VM"@),
                SaveStep::Save => Some("failed to save state"@),
                SaveStep::Flush => Some("failed to fsync memory backing file"@),
                SaveStep::Write => None,
            }),
    {
        match step {
            SaveStep::Pause => Some("failed to pause VM"),
            SaveStep::Save => Some("failed to save state"),
            SaveStep::Flush => Some("failed to fsync memory backing file"),
            SaveStep::Write => None,
        }
    }
}

/// The saving of a snapshot after a run of outcomes.
pub open spec fn save_run(save: DiskSave, outcomes: Seq<bool>) -> DiskSave
    decreases outcomes.len(),
{
    if outcomes.len() == 0 {
        save
    } else {
        save_next(save_run(save, outcomes.drop_last()), outcomes.last())
    }
}

/// A snapshot is saved exactly when the machine was paused, its state taken, its
/// memory flushed and everything written, all without a failure.
pub proof fn law_saved_after_every_step(outcomes: Seq<bool>)
    ensures
        save_run(DiskSave::Next(SaveStep::Pause), outcomes) == DiskSave::Saved <==> outcomes.len()
            >= 4 && outcomes[0] && outcomes[1] && outcomes[2] && outcomes[3],
{
    lemma_save_run(outcomes);
}

/// Where the saving stands after some outcomes, by the first of them that failed.
proof fn lemma_save_run(outcomes: Seq<bool>)
    ensures
        ({
            let save = save_run(DiskSave::Next(SaveStep::Pause), outcomes);
            let n = outcomes.len();
            if n > 0 && !outcomes[0] {
                save == DiskSave::Failed(SaveStep::Pause)
            } else if n > 1 && !outcomes[1] {
                save == DiskSave::Failed(SaveStep::Save)
            } else if n > 2 && !outcomes[2] {
                save == DiskSave::Failed(SaveStep::Flush)
            } else if n > 3 && !outcomes[3] {
                save == DiskSave::Failed(SaveStep::Write)
            } else if n == 0 {
                save == DiskSave::Next(SaveStep::Pause)
            } else if n == 1 {
                save == DiskSave::Next(SaveStep::Save)
            } else if n == 2 {
                save == DiskSave::Next(SaveStep::Flush)
            } else if n == 3 {
                save == DiskSave::Next(SaveStep::Write)
            } else {
                save == DiskSave::Saved
            }
        }),
    decreases outcomes.len(),
{
    if outcomes.len() > 0 {
        lemma_save_run(outcomes.drop_last());
    }
}

} // verus!
