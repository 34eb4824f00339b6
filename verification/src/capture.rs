//! Capturing a snapshot that the guest asked for.
//!
//! A capture is a transaction around a stopped machine. Before it commits it can
//! be rolled back and the guest goes on; once it has committed the source must
//! not go on, or two machines would share one identity.

use vstd::prelude::*;

use crate::config::MachineProfile;
use crate::controller::GuestSnapshotAction;
use crate::path::{parse_path, path_parts, same_path};
use crate::refusal::{refusal_of, refuse, string_view, Refusal};
use crate::snapshot::SnapshotMicrovmSandboxBlock;
use crate::text::{push_text, same_text};

verus! {

/// How much of an instance a snapshot holds.
#[derive(Clone, Copy, Debug, PartialEq, Eq, Structural)]
pub enum SnapshotTier {
    Platform,
    WorkloadStart,
    InstanceCheckpoint,
}

/// A tier with its spellings and what it demands of the scratch disk.
#[derive(Debug)]
pub struct TierPolicy {
    pub tier: SnapshotTier,
    pub requires_paired_scratch: bool,
    pub manifest_name: String,
    pub restore_policy: String,
}

/// Whether the scratch disk is captured with the machine.
#[derive(Clone, Copy, Debug, PartialEq, Eq, Structural)]
pub enum ScratchPolicy {
    Fresh,
    Paired,
}

/// What a block device of the sandbox is for.
#[derive(Clone, Copy, Debug, PartialEq, Eq, Structural)]
pub enum MicrovmSandboxBlockRole {
    Layer,
    Scratch,
}

/// What is known before a capture.
#[derive(Debug)]
pub struct CaptureFacts {
    pub machine_profile: MachineProfile,
    pub source_hypervisor: String,
    pub block_roles: Vec<MicrovmSandboxBlockRole>,
    pub tier: Option<TierPolicy>,
    pub scratch_policy: ScratchPolicy,
    pub destination: String,
    /// Nothing is at the destination.
    pub destination_absent: bool,
    pub memory_backing_file: Option<String>,
    /// The size of the file that backs guest memory, where it is still open.
    pub memory_handle: Option<Result<u64, Refusal>>,
    pub memory: u64,
    /// The file that was made for this capture, where one was.
    pub automatic_memory_file: Option<String>,
    pub effective_command_line: Option<String>,
}

/// Either there are no block devices, or at least one layer and then scratch.
pub open spec fn capturable_blocks(roles: Seq<MicrovmSandboxBlockRole>) -> bool {
    roles.len() == 0 || (roles.len() >= 2 && roles.last() == MicrovmSandboxBlockRole::Scratch)
}

/// Why a capture is not begun, if it is not.
pub open spec fn preflight_refusal(f: CaptureFacts) -> Option<Seq<char>> {
    let hypervisor = f.source_hypervisor@;
    let blocks = f.block_roles@.len() > 0;
    let paired = f.scratch_policy == ScratchPolicy::Paired;
    if f.machine_profile != MachineProfile::Microvm {
        Some("guest-requested snapshot capture requires the microVM profile"@)
    } else if hypervisor != "kvm"@ && hypervisor != "mshv"@ && hypervisor != "whp"@ {
        Some("microVM snapshot source backend must be KVM, MSHV, or WHP"@)
    } else if !capturable_blocks(f.block_roles@) {
        Some(
            "microVM snapshot requires either no blocks or at least one lower layer and scratch"@,
        )
    } else if !blocks && f.tier is Some {
        Some("blockless microVM snapshot capture does not use a tier"@)
    } else if blocks && f.tier is None {
        Some("microVM sandbox snapshot capture requires a tier"@)
    } else if blocks && paired != f.tier->0.requires_paired_scratch {
        Some(
            "snapshot tier '"@ + f.tier->0.manifest_name@ + "' requires "@ + (
            if f.tier->0.requires_paired_scratch {
                "paired"@
            } else {
                "fresh"@
            }) + " scratch capture"@,
        )
    } else if !f.destination_absent {
        Some(
            "snapshot destination already exists or cannot be inspected: "@ + f.destination@,
        )
    } else if f.memory_backing_file is None {
        Some("microVM snapshot capture requires file-backed RAM"@)
    } else {
        match f.memory_handle {
            None => Some("microVM snapshot capture lost its exact RAM handle"@),
            Some(Err(e)) => Some(e@),
            Some(Ok(size)) => if size != f.memory {
                Some("snapshot RAM handle size does not match the VM"@)
            } else if f.automatic_memory_file is Some && path_parts(f.automatic_memory_file->0@)
                != path_parts(f.memory_backing_file->0@) {
                Some("automatic snapshot memory backing path changed unexpectedly"@)
            } else if f.effective_command_line is None {
                Some(
                    "microVM snapshot capture requires an effective PVH command line"@,
                )
            } else {
                None
            },
        }
    }
}

/// Decides whether a capture can begin, and with which command line.
pub fn preflight(facts: &CaptureFacts) -> (r: Result<String, Refusal>)
    ensures
        refusal_of(r) == preflight_refusal(*facts),
        r is Ok ==> Some(r->Ok_0@) == string_view(facts.effective_command_line),
{
    if facts.machine_profile != MachineProfile::Microvm {
        return Err(refuse("guest-requested snapshot capture requires the microVM profile"));
    }
    let hypervisor = facts.source_hypervisor.as_str();
    if !(same_text(hypervisor, "kvm") || same_text(hypervisor, "mshv") || same_text(
        hypervisor,
        "whp",
    )) {
        return Err(refuse("microVM snapshot source backend must be KVM, MSHV, or WHP"));
    }
    let count: usize = facts.block_roles.len();
    if !(count == 0 || (count >= 2 && facts.block_roles[count - 1]
        == MicrovmSandboxBlockRole::Scratch)) {
        return Err(
            refuse(
                "microVM snapshot requires either no blocks or at least one lower layer and scratch",
            ),
        );
    }
    if count == 0 {
        if facts.tier.is_some() {
            return Err(refuse("blockless microVM snapshot capture does not use a tier"));
        }
    } else {
        match &facts.tier {
            None => {
                return Err(refuse("microVM sandbox snapshot capture requires a tier"));
            },
            Some(tier) => {
                let paired: bool = facts.scratch_policy == ScratchPolicy::Paired;
                if paired != tier.requires_paired_scratch {
                    let mut message = "snapshot tier '".to_owned();
                    push_text(&mut message, tier.manifest_name.as_str());
                    push_text(&mut message, "' requires ");
                    if tier.requires_paired_scratch {
                        push_text(&mut message, "paired");
                    } else {
                        push_text(&mut message, "fresh");
                    }
                    push_text(&mut message, " scratch capture");
                    return Err(Refusal { message });
                }
            },
        }
    }
    if !facts.destination_absent {
        let mut message = "snapshot destination already exists or cannot be inspected: ".to_owned();
        push_text(&mut message, facts.destination.as_str());
        return Err(Refusal { message });
    }
    let memory_path = match &facts.memory_backing_file {
        Some(path) => path,
        None => return Err(refuse("microVM snapshot capture requires file-backed RAM")),
    };
    let size: u64 = match &facts.memory_handle {
        None => {
            return Err(refuse("microVM snapshot capture lost its exact RAM handle"));
        },
        Some(Err(e)) => return Err(Refusal { message: e.message.clone() }),
        Some(Ok(size)) => *size,
    };
    if size != facts.memory {
        return Err(refuse("snapshot RAM handle size does not match the VM"));
    }
    if let Some(file) = &facts.automatic_memory_file {
        if !same_path(&parse_path(file.as_str()), &parse_path(memory_path.as_str())) {
            return Err(
                refuse("automatic snapshot memory backing path changed unexpectedly"),
            );
        }
    }
    match &facts.effective_command_line {
        Some(line) => Ok(line.clone()),
        None => Err(
            refuse("microVM snapshot capture requires an effective PVH command line"),
        ),
    }
}

/// The parts of a configuration that a snapshot consumes.
#[derive(Clone, Copy, Debug, PartialEq, Eq, Structural)]
pub struct ConfigSections {
    pub invariants: bool,
    pub image_binding: bool,
    pub sandbox: bool,
}

/// The parts of a configuration that a snapshot of a tier consumes: the
/// invariants always, and the image and the sandbox from the start of the
/// workload on. A snapshot without a tier consumes nothing.
pub fn consumed_config_sections(tier: Option<SnapshotTier>) -> (r: ConfigSections)
    ensures
        r == (ConfigSections {
            invariants: tier is Some,
            image_binding: tier is Some && tier != Some(SnapshotTier::Platform),
            sandbox: tier is Some && tier != Some(SnapshotTier::Platform),
        }),
{
    match tier {
        None => ConfigSections { invariants: false, image_binding: false, sandbox: false },
        Some(SnapshotTier::Platform) => ConfigSections {
            invariants: true,
            image_binding: false,
            sandbox: false,
        },
        Some(_) => ConfigSections { invariants: true, image_binding: true, sandbox: true },
    }
}

/// The mathematical value of a block device of the sandbox.
pub struct Block {
    pub role: Seq<char>,
    pub read_only: bool,
    pub length: u64,
    pub identity_kind: Seq<char>,
    pub identity: Seq<u8>,
    pub artifact: Seq<char>,
}

impl View for SnapshotMicrovmSandboxBlock {
    type V = Block;

    open spec fn view(&self) -> Block {
        Block {
            role: self.role@,
            read_only: self.read_only,
            length: self.length,
            identity_kind: self.identity_kind@,
            identity: self.identity@,
            artifact: self.artifact@,
        }
    }
}

/// A block device as a snapshot of a tier records it: a platform snapshot leaves
/// the image unbound.
pub open spec fn recorded_block(block: Block, tier: Option<SnapshotTier>) -> Block {
    if tier == Some(SnapshotTier::Platform) && block.read_only {
        Block { identity_kind: "unbound"@, identity: Seq::empty(), ..block }
    } else {
        block
    }
}

pub open spec fn block_views(blocks: Seq<SnapshotMicrovmSandboxBlock>) -> Seq<Block> {
    blocks.map_values(|b: SnapshotMicrovmSandboxBlock| b@)
}

/// Unbinds the image layers of a platform snapshot. Other snapshots keep their
/// blocks as they are.
pub fn unbind_platform_blocks(
    blocks: &mut Vec<SnapshotMicrovmSandboxBlock>,
    tier: Option<SnapshotTier>,
)
    ensures
        block_views(final(blocks)@) == block_views(old(blocks)@).map_values(
            |b: Block| recorded_block(b, tier),
        ),
{
    let ghost all = block_views(old(blocks)@);
    let ghost recorded = all.map_values(|b: Block| recorded_block(b, tier));
    if tier != Some(SnapshotTier::Platform) {
        assert(block_views(blocks@) =~= recorded);
        return;
    }
    let mut i: usize = 0;
    while i < blocks.len()
        invariant
            i <= blocks@.len() == all.len(),
            all == block_views(old(blocks)@),
            recorded == all.map_values(|b: Block| recorded_block(b, tier)),
            tier == Some(SnapshotTier::Platform),
            forall|k: int| 0 <= k < i ==> (#[trigger] blocks@[k])@ == recorded[k],
            forall|k: int| i <= k < blocks@.len() ==> (#[trigger] blocks@[k])@ == all[k],
        decreases blocks@.len() - i,
    {
        if blocks[i].read_only {
            let role = blocks[i].role.clone();
            let artifact = blocks[i].artifact.clone();
            let unbound = SnapshotMicrovmSandboxBlock {
                role,
                read_only: true,
                length: blocks[i].length,
                identity_kind: "unbound".to_owned(),
                identity: Vec::new(),
                artifact,
            };
            assert(unbound@.identity =~= Seq::empty());
            blocks.set(i, unbound);
        }
        i += 1;
    }
    assert(block_views(blocks@) =~= recorded);
}

/// How the worker answered the order to stop.
#[derive(Clone, Copy, Debug, PartialEq, Eq, Structural)]
pub enum QuiesceReply {
    /// The machine is stopped and its state was returned.
    Stopped,
    /// The order was rejected before anything changed.
    Rejected,
    /// Something changed, and can be undone.
    RollbackSafe,
    /// Something may have changed halfway.
    Uncertain,
    /// The worker is gone.
    Lost,
}

/// How the writing of a snapshot ended.
#[derive(Clone, Copy, Debug, PartialEq, Eq, Structural)]
pub enum WriteOutcome {
    /// It was written, and is there.
    Committed,
    /// It is there, but its durability could not be confirmed.
    CommittedUnconfirmed,
    /// It is not there, and the memory file may be shared with its remains.
    NotRollbackSafe,
    /// It is not there.
    Failed,
}

/// A step of the transaction that is carried out elsewhere.
#[derive(Clone, Copy, Debug, PartialEq, Eq, Structural)]
pub enum CaptureAction {
    /// Let the guest cross the boundary without a snapshot.
    ReleaseBoundary,
    /// Stop the machine and take its state.
    Quiesce,
    /// Write the snapshot.
    Write,
    /// Undo the stop, and let the guest go on.
    Rollback,
    /// Remove the console sockets that this process still owns, the operator's
    /// first and the control channel's second, stopping at a failure.
    RemoveSockets,
    /// Remove them as far as possible, whatever fails.
    RemoveSocketsBestEffort,
}

/// Where a transaction stands: what it waits for, or how it ended.
#[derive(Clone, Copy, Debug, PartialEq, Eq, Structural)]
pub enum Capture {
    Releasing,
    Quiescing,
    Writing,
    RollingBack,
    RemovingSockets,
    RemovingSocketsAfterFailure,
    Ended(GuestSnapshotAction),
}

/// What a step reported.
#[derive(Clone, Copy, Debug, PartialEq, Eq, Structural)]
pub enum CaptureEvent {
    Quiesced(QuiesceReply),
    Written(WriteOutcome),
    /// A release, a rollback, or a removal was done, or failed.
    Done(bool),
}

/// The step that a transaction waits for.
pub open spec fn awaited(capture: Capture) -> Option<CaptureAction> {
    match capture {
        Capture::Releasing => Some(CaptureAction::ReleaseBoundary),
        Capture::Quiescing => Some(CaptureAction::Quiesce),
        Capture::Writing => Some(CaptureAction::Write),
        Capture::RollingBack => Some(CaptureAction::Rollback),
        Capture::RemovingSockets => Some(CaptureAction::RemoveSockets),
        Capture::RemovingSocketsAfterFailure => Some(CaptureAction::RemoveSocketsBestEffort),
        Capture::Ended(_) => None,
    }
}

/// The event answers the step that the transaction waits for.
pub open spec fn answers(capture: Capture, event: CaptureEvent) -> bool {
    match capture {
        Capture::Quiescing => event is Quiesced,
        Capture::Writing => event is Written,
        Capture::Ended(_) => false,
        _ => event is Done,
    }
}

pub open spec fn terminate(code: i32) -> Capture {
    Capture::Ended(GuestSnapshotAction::Terminate { exit_code: code })
}

/// How a transaction starts: nothing is captured where no destination is
/// configured or the preflight refused.
pub open spec fn capture_start(destination: bool, preflight_ok: bool) -> Capture {
    if destination && preflight_ok {
        Capture::Quiescing
    } else {
        Capture::Releasing
    }
}

/// Where a transaction stands after an event.
pub open spec fn capture_next(capture: Capture, event: CaptureEvent) -> Capture {
    match (capture, event) {
        (Capture::Quiescing, CaptureEvent::Quiesced(reply)) => match reply {
            QuiesceReply::Stopped => Capture::Writing,
            QuiesceReply::Rejected => Capture::Releasing,
            QuiesceReply::RollbackSafe => Capture::RollingBack,
            QuiesceReply::Uncertain | QuiesceReply::Lost => terminate(1),
        },
        (Capture::Writing, CaptureEvent::Written(outcome)) => match outcome {
            WriteOutcome::Committed => Capture::RemovingSockets,
            WriteOutcome::CommittedUnconfirmed => Capture::RemovingSocketsAfterFailure,
            WriteOutcome::NotRollbackSafe => terminate(1),
            WriteOutcome::Failed => Capture::RollingBack,
        },
        (Capture::Releasing, CaptureEvent::Done(ok)) | (
            Capture::RollingBack,
            CaptureEvent::Done(ok),
        ) => if ok {
            Capture::Ended(GuestSnapshotAction::Continue)
        } else {
            terminate(1)
        },
        (Capture::RemovingSockets, CaptureEvent::Done(ok)) => terminate(
            if ok {
                0
            } else {
                1
            },
        ),
        (Capture::RemovingSocketsAfterFailure, CaptureEvent::Done(_)) => terminate(1),
        _ => capture,
    }
}

impl Capture {
    /// Begins a transaction.
    pub fn start(destination: bool, preflight_ok: bool) -> (r: Capture)
        ensures
            r == capture_start(destination, preflight_ok),
    {
        if destination && preflight_ok {
            Capture::Quiescing
        } else {
            Capture::Releasing
        }
    }

    /// The step to carry out next, unless the transaction has ended.
    pub fn action(&self) -> (r: Option<CaptureAction>)
        ensures
            r == awaited(*self),
    {
        match self {
            Capture::Releasing => Some(CaptureAction::ReleaseBoundary),
            Capture::Quiescing => Some(CaptureAction::Quiesce),
            Capture::Writing => Some(CaptureAction::Write),
            Capture::RollingBack => Some(CaptureAction::Rollback),
            Capture::RemovingSockets => Some(CaptureAction::RemoveSockets),
            Capture::RemovingSocketsAfterFailure => Some(CaptureAction::RemoveSocketsBestEffort),
            Capture::Ended(_) => None,
        }
    }

    /// Takes the report of a step. A report that answers nothing changes nothing.
    pub fn advance(&mut self, event: CaptureEvent)
        ensures
            *final(self) == capture_next(*old(self), event),
    {
        match (*self, event) {
            (Capture::Quiescing, CaptureEvent::Quiesced(reply)) => {
                *self =
                match reply {
                    QuiesceReply::Stopped => Capture::Writing,
                    QuiesceReply::Rejected => Capture::Releasing,
                    QuiesceReply::RollbackSafe => Capture::RollingBack,
                    QuiesceReply::Uncertain | QuiesceReply::Lost => Capture::Ended(
                        GuestSnapshotAction::Terminate { exit_code: 1 },
                    ),
                };
            },
            (Capture::Writing, CaptureEvent::Written(outcome)) => {
                *self =
                match outcome {
                    WriteOutcome::Committed => Capture::RemovingSockets,
                    WriteOutcome::CommittedUnconfirmed => Capture::RemovingSocketsAfterFailure,
                    WriteOutcome::NotRollbackSafe => Capture::Ended(
                        GuestSnapshotAction::Terminate { exit_code: 1 },
                    ),
                    WriteOutcome::Failed => Capture::RollingBack,
                };
            },
            (Capture::Releasing, CaptureEvent::Done(ok)) => {
                *self =
                if ok {
                    Capture::Ended(GuestSnapshotAction::Continue)
                } else {
                    Capture::Ended(GuestSnapshotAction::Terminate { exit_code: 1 })
                };
            },
            (Capture::RollingBack, CaptureEvent::Done(ok)) => {
                *self =
                if ok {
                    Capture::Ended(GuestSnapshotAction::Continue)
                } else {
                    Capture::Ended(GuestSnapshotAction::Terminate { exit_code: 1 })
                };
            },
            (Capture::RemovingSockets, CaptureEvent::Done(ok)) => {
                let exit_code: i32 = if ok {
                    0
                } else {
                    1
                };
                *self = Capture::Ended(GuestSnapshotAction::Terminate { exit_code });
            },
            (Capture::RemovingSocketsAfterFailure, CaptureEvent::Done(_)) => {
                *self = Capture::Ended(GuestSnapshotAction::Terminate { exit_code: 1 });
            },
            _ => {},
        }
    }
}

/// A transaction after a run of reports.
pub open spec fn capture_run(capture: Capture, events: Seq<CaptureEvent>) -> Capture
    decreases events.len(),
{
    if events.len() == 0 {
        capture
    } else {
        capture_next(capture_run(capture, events.drop_last()), events.last())
    }
}

/// The report says that the snapshot is there.
pub open spec fn is_commit(event: CaptureEvent) -> bool {
    event == CaptureEvent::Written(WriteOutcome::Committed) || event == CaptureEvent::Written(
        WriteOutcome::CommittedUnconfirmed,
    )
}

/// Some report says that the snapshot is there.
pub open spec fn committed(events: Seq<CaptureEvent>) -> bool
    decreases events.len(),
{
    events.len() > 0 && (is_commit(events.last()) || committed(events.drop_last()))
}

/// Every report answers the step that the transaction was waiting for.
pub open spec fn in_order(capture: Capture, events: Seq<CaptureEvent>) -> bool
    decreases events.len(),
{
    events.len() == 0 || (in_order(capture, events.drop_last()) && answers(
        capture_run(capture, events.drop_last()),
        events.last(),
    ))
}

/// What a transaction that has seen a commit can still do.
pub open spec fn past_commit(capture: Capture) -> bool {
    match capture {
        Capture::RemovingSockets | Capture::RemovingSocketsAfterFailure => true,
        Capture::Ended(GuestSnapshotAction::Terminate { .. }) => true,
        _ => false,
    }
}

/// A committed snapshot ends its source: once a report says that the snapshot is
/// there, the guest never goes on, whatever happens afterwards.
pub proof fn law_commit_ends_the_source(start: Capture, events: Seq<CaptureEvent>)
    requires
        start == Capture::Quiescing || start == Capture::Releasing,
        in_order(start, events),
        committed(events),
    ensures
        past_commit(capture_run(start, events)),
    decreases events.len(),
{
    if committed(events.drop_last()) {
        law_commit_ends_the_source(start, events.drop_last());
    }
}

/// The source exits with success only after its snapshot was committed and its
/// sockets were removed, and the guest goes on only after the boundary was
/// released or the stop was undone.
pub proof fn law_capture_endings(capture: Capture, event: CaptureEvent)
    requires
        answers(capture, event),
    ensures
        capture_next(capture, event) == terminate(0) <==> capture == Capture::RemovingSockets
            && event == CaptureEvent::Done(true),
        capture_next(capture, event) == Capture::Ended(GuestSnapshotAction::Continue) <==> (
        capture == Capture::Releasing || capture == Capture::RollingBack) && event
            == CaptureEvent::Done(true),
{
}

/// Every transaction ends after at most three reports.
pub proof fn law_capture_ends(start: Capture, events: Seq<CaptureEvent>)
    requires
        start == Capture::Quiescing || start == Capture::Releasing,
        in_order(start, events),
    ensures
        events.len() <= 3,
        events.len() == 3 ==> capture_run(start, events) is Ended,
{
    lemma_capture_length(start, events);
}

/// How many reports a transaction that starts with a stop has seen, at most.
spec fn depth(capture: Capture) -> nat {
    match capture {
        Capture::Quiescing => 0,
        Capture::Releasing | Capture::Writing => 1,
        Capture::RollingBack
        | Capture::RemovingSockets
        | Capture::RemovingSocketsAfterFailure => 2,
        Capture::Ended(_) => 3,
    }
}

proof fn lemma_capture_length(start: Capture, events: Seq<CaptureEvent>)
    requires
        start == Capture::Quiescing || start == Capture::Releasing,
        in_order(start, events),
    ensures
        events.len() <= depth(capture_run(start, events)),
    decreases events.len(),
{
    if events.len() > 0 {
        lemma_capture_length(start, events.drop_last());
    }
}

} // verus!
