//! What holds of the test guest, of the packet it is restored with, of profile records, of
//! installed files and of requests at a snapshot boundary.

use vstd::bytes::spec_u64_from_le_bytes;
use vstd::prelude::*;

use crate::guest::{commanded, started, stepped, text_writes, Guest, GuestMode, InputUse, PortWrite};
use crate::install::{contents_match, install_action, FileComparison, InstallAction};
use crate::numeral::decimal;
use crate::profile::{
    initialized, span_record, started_span, Profile, ProfileClock, ProfileCounters, ProfileSpan,
};
use crate::refusal::Refusal;
use crate::restore::{
    aligned_network, calculate_snapshot_downtime, law_packet_is_decodable, lemma_packet_header,
    microvm_generation_id, microvm_restore_packet, packet_version, ranges_refusal,
    restore_packet_from_random,
};
use crate::rpc::VmRpc;
use crate::snapshot::{SavedNetwork, SnapshotMemoryExpansionRange};
use crate::snapshot_rpc::{filter, RpcAnswer};

verus! {

/// A guest starts only where its loader handed it the start information that it knows.
/// Otherwise it reports a failure to the host and halts.
pub proof fn law_guest_starts_with_its_start_information(magic: u32, version: u32)
    ensures
        started(magic, version).0.generation == 0,
        magic == 0x336e_c578 && version == 1 ==> started(magic, version).0.mode
            == GuestMode::PollInput(InputUse::Command),
        magic != 0x336e_c578 || version != 1 ==> {
            &&& started(magic, version).0.mode is Halted
            &&& started(magic, version).1.len() > 0
            &&& started(magic, version).1.last().port == 0x604
            &&& started(magic, version).1.last().value != 0
        },
{
}

/// A write is for the data port.
pub open spec fn is_data(write: PortWrite) -> bool {
    write.port == 0xe9
}

/// A command changes nothing but what it is for. Only a request for a snapshot counts the
/// generation up and reaches the snapshot port, no command reaches the port that shuts the
/// machine down, and only a shutdown or a restore report keeps the guest from being ready
/// for the next command.
pub proof fn law_commands_do_what_they_are_for(g: Guest, command: u8, i: int)
    ensures
        command != 3 ==> commanded(g, command).0.generation == g.generation,
        command == 3 ==> {
            &&& g.generation < u32::MAX ==> commanded(g, command).0.generation == g.generation
                + 1
            &&& g.generation == u32::MAX ==> commanded(g, command).0.generation == 0
            &&& commanded(g, command).0.mode is SnapshotStatus
        },
        command == 4 ==> commanded(g, command).0.mode == (GuestMode::RestoreStatus {
            release_gate: false,
        }),
        command == 6 ==> commanded(g, command).0.mode == GuestMode::PollInput(
            InputUse::ShutdownStatus,
        ),
        command != 3 && command != 4 && command != 6 ==> commanded(g, command).0.mode
            == GuestMode::PollInput(InputUse::Command),
        command == 4 || command == 6 ==> commanded(g, command).1.len() == 0,
        0 <= i < commanded(g, command).1.len() && command != 3 ==> is_data(
            commanded(g, command).1[i],
        ),
        0 <= i < commanded(g, command).1.len() ==> is_data(commanded(g, command).1[i])
            || commanded(g, command).1[i] == (PortWrite { port: 0x605, value: 0 }),
{
}

/// The snapshot port is written exactly once where a snapshot is requested.
pub proof fn law_snapshot_is_requested_once(g: Guest)
    ensures
        exists|i: int|
            0 <= i < commanded(g, 3).1.len() && #[trigger] commanded(g, 3).1[i] == (PortWrite {
                port: 0x605,
                value: 0,
            }),
        forall|i: int, j: int|
            0 <= i < commanded(g, 3).1.len() && 0 <= j < commanded(g, 3).1.len() && !is_data(
                #[trigger] commanded(g, 3).1[i],
            ) && !is_data(#[trigger] commanded(g, 3).1[j]) ==> i == j,
{
    let writes = commanded(g, 3).1;
    let head = text_writes("SNAPSHOT-REQUESTED\n"@);
    assert(writes[head.len() as int] == (PortWrite { port: 0x605, value: 0 }));
}

/// A guest that waits for input waits until input is announced, and does nothing meanwhile.
pub proof fn law_guest_waits_for_input(g: Guest, value: u8)
    requires
        g.mode is PollInput,
    ensures
        stepped(g, value).1.len() == 0,
        value & 1 == 0 ==> stepped(g, value).0 == g,
        value & 1 != 0 ==> stepped(g, value).0.mode == GuestMode::TakeInput(
            g.mode->PollInput_0,
        ),
{
}

/// A guest that is told to shut down hands the status it is given to the host, and halts for
/// good.
pub proof fn law_guest_shuts_down_with_its_status(g: Guest, value: u8, later: u8)
    ensures
        g.mode == GuestMode::TakeInput(InputUse::ShutdownStatus) ==> stepped(g, value).0.mode
            is Halted && stepped(g, value).1 == seq![PortWrite { port: 0x604, value }],
        g.mode is Halted ==> stepped(g, later).0 == g && stepped(g, later).1.len() == 0,
{
}

/// A guest that took a snapshot goes on where it was, unless it finds that it was restored:
/// then it reads the packet that it is told, and lets the machine go once it has.
pub proof fn law_restored_guest_reads_its_packet(g: Guest, value: u8)
    ensures
        g.mode is SnapshotStatus && value & 12 != 0 ==> stepped(g, value).0.mode == (
        GuestMode::RestoreStatus { release_gate: true }),
        g.mode is SnapshotStatus && value & 12 == 0 ==> stepped(g, value).0.mode
            == GuestMode::PollInput(InputUse::Command),
        g.mode is SnapshotStatus ==> stepped(g, value).1.len() == 0,
        g.mode is RestoreStatus && value & 12 != 0 ==> {
            &&& stepped(g, value).0.mode is Header
            &&& stepped(g, value).0.mode->Header_version == (if value & 8 != 0 {
                3u8
            } else {
                2u8
            })
            &&& stepped(g, value).0.mode->Header_index == 0
            &&& stepped(g, value).0.mode->Header_release_gate
                == g.mode->RestoreStatus_release_gate
            &&& stepped(g, value).1 == seq![PortWrite { port: 0xea, value: 0xa5 }]
        },
        g.mode is RestoreStatus && value & 12 == 0 ==> stepped(g, value).0.mode
            == GuestMode::PollInput(InputUse::Command),
        stepped(g, value).0.generation != g.generation ==> g.mode == GuestMode::TakeInput(
            InputUse::Command,
        ) && value == 3,
{
    assert(value & 12 == 0 || value & 12 != 0);
}

/// The machine is let go only at the end of a packet that was asked to let it go.
pub proof fn law_gate_is_released_after_the_packet(g: Guest, value: u8, i: int)
    requires
        0 <= i < stepped(g, value).1.len(),
        stepped(g, value).1[i].port == 0x605,
        stepped(g, value).1[i].value == 2,
    ensures
        g.mode is Drain,
        g.mode->Drain_remaining <= 1,
        g.mode->Drain_release_gate,
{
    if g.mode == GuestMode::TakeInput(InputUse::Command) {
        law_commands_do_what_they_are_for(g, value, i);
    }
}

/// A packet ends with the entropy it is made with, carries the processors and the memory that
/// are asked for, and has the version that they need.
pub proof fn law_packet_carries_what_is_asked(
    entropy: &[u8; 64],
    online_vps: Option<u32>,
    memory_target: bool,
    ranges: &[SnapshotMemoryExpansionRange],
    r: Result<Vec<u8>, Refusal>,
)
    requires
        call_ensures(microvm_restore_packet, (entropy, online_vps, memory_target, ranges), r),
        r is Ok,
    ensures
        r->Ok_0@.len() >= 83,
        r->Ok_0@.skip(r->Ok_0@.len() - 64) == entropy@,
        memory_target ==> {
            &&& r->Ok_0@[17] == '3' as u8
            &&& r->Ok_0@.len() == 85 + 16 * ranges@.len()
            &&& r->Ok_0@[20] == ranges@.len()
            &&& r->Ok_0@[19] == (match online_vps {
                Some(count) => count,
                None => 0,
            })
            &&& forall|i: int|
                #![trigger ranges@[i]]
                0 <= i < ranges@.len() ==> {
                    &&& spec_u64_from_le_bytes(r->Ok_0@.subrange(21 + 16 * i, 29 + 16 * i))
                        == ranges@[i].gpa_start
                    &&& spec_u64_from_le_bytes(r->Ok_0@.subrange(29 + 16 * i, 37 + 16 * i))
                        == ranges@[i].length
                }
        },
        !memory_target ==> ranges@.len() == 0,
        !memory_target && online_vps is Some ==> r->Ok_0@.len() == 84 && r->Ok_0@[17]
            == '2' as u8 && r->Ok_0@[19] == online_vps->0,
        !memory_target && online_vps is None ==> r->Ok_0@.len() == 83 && r->Ok_0@[17]
            == '1' as u8,
{
    law_packet_is_decodable(entropy@, online_vps, memory_target, ranges@);
    lemma_packet_header(packet_version(online_vps, memory_target));
    let packet = r->Ok_0@;
    let header = packet.take(19);
    assert(header[17] == packet[17]);
}

/// A packet is refused where it cannot carry what is asked: too many processors, too many
/// ranges, ranges that were not asked for, or a range that is empty or leaves the address
/// space.
pub proof fn law_packets_that_are_refused(
    entropy: &[u8; 64],
    online_vps: Option<u32>,
    memory_target: bool,
    ranges: &[SnapshotMemoryExpansionRange],
    r: Result<Vec<u8>, Refusal>,
    i: int,
)
    requires
        call_ensures(microvm_restore_packet, (entropy, online_vps, memory_target, ranges), r),
    ensures
        online_vps is Some && online_vps->0 > 255 ==> r is Err,
        memory_target && ranges@.len() > 255 ==> r is Err,
        !memory_target && ranges@.len() > 0 ==> r is Err,
        0 <= i < ranges@.len() && (ranges@[i].length == 0 || ranges@[i].gpa_start
            + ranges@[i].length > u64::MAX) ==> r is Err,
        ranges@.len() == 0 && (online_vps is None || online_vps->0 <= 255) ==> r is Ok,
{
    if 0 <= i < ranges@.len() && (ranges@[i].length == 0 || ranges@[i].gpa_start
        + ranges@[i].length > u64::MAX) {
        lemma_range_is_refused(ranges@, i);
    }
}

proof fn lemma_range_is_refused(ranges: Seq<SnapshotMemoryExpansionRange>, i: int)
    requires
        0 <= i < ranges.len(),
        ranges[i].length == 0 || ranges[i].gpa_start + ranges[i].length > u64::MAX,
    ensures
        ranges_refusal(ranges) is Some,
    decreases ranges.len(),
{
    if i < ranges.len() - 1 {
        assert(ranges.drop_last()[i] == ranges[i]);
        lemma_range_is_refused(ranges.drop_last(), i);
    }
}

/// The identifier of a restored machine is the start of the entropy that its packet ends with.
pub proof fn law_identifier_and_packet_agree(
    bytes: Option<Vec<u8>>,
    online_vps: Option<u32>,
    memory_target: bool,
    ranges: &[SnapshotMemoryExpansionRange],
    r: Result<([u8; 16], Vec<u8>), Refusal>,
)
    requires
        bytes is Some ==> bytes->0@.len() == 64,
        call_ensures(
            restore_packet_from_random,
            (bytes, online_vps, memory_target, ranges),
            r,
        ),
    ensures
        bytes is None ==> r is Err,
        r matches Ok((id, packet)) ==> {
            &&& packet@.len() >= 64
            &&& packet@.skip(packet@.len() - 64) == bytes->0@
            &&& id@ == packet@.skip(packet@.len() - 64).take(16)
        },
{
    if r is Ok {
        law_packet_is_decodable(bytes->0@, online_vps, memory_target, ranges@);
    }
}

/// The identifier of a machine is the start of its entropy, byte for byte.
pub proof fn law_identifier_is_the_start_of_the_entropy(
    entropy: &[u8; 64],
    id: [u8; 16],
    i: int,
)
    requires
        call_ensures(microvm_generation_id, (entropy,), id),
        0 <= i < 16,
    ensures
        id@[i] == entropy@[i],
{
    assert(entropy@.take(16)[i] == entropy@[i]);
}

/// Captures of the future and captures that are older than thirty days are not
/// restored; any other is, with the time that has passed since.
pub proof fn law_downtime_is_bounded(
    captured: i128,
    restored: i128,
    r: Result<u128, Refusal>,
)
    requires
        call_ensures(calculate_snapshot_downtime, (captured, restored), r),
    ensures
        restored < captured ==> r is Err,
        restored - captured > 30 * 24 * 3600 * 1_000_000_000 ==> r is Err,
        captured <= restored <= captured + 30 * 24 * 3600 * 1_000_000_000 ==> r is Ok
            && r->Ok_0 + captured == restored,
{
}

/// Only the policy of a network is ever taken over from an older snapshot, and only where the
/// snapshot has the older encoding.
pub proof fn law_only_older_policies_are_taken_over(saved: SavedNetwork, expected: SavedNetwork)
    ensures
        saved.egress_policy_encoding_version > 1 ==> aligned_network(saved, expected) == expected,
        saved.egress_policy_encoding_version <= 1 ==> {
            let aligned = aligned_network(saved, expected);
            &&& aligned.egress_policy_encoding_version == saved.egress_policy_encoding_version
            &&& aligned.egress_policy_sha256 == saved.egress_policy_sha256
        },
        ({
            let aligned = aligned_network(saved, expected);
            (SavedNetwork {
                egress_policy_encoding_version: expected.egress_policy_encoding_version,
                egress_policy_sha256: expected.egress_policy_sha256,
                ..aligned
            }) == expected
        }),
{
}

/// At a snapshot boundary the guest's memory can be read and the transaction can go on, and
/// nothing else happens to the machine: every other request is answered without
/// reaching it. Away from a boundary every request reaches the machine, and a request that
/// reaches it is unchanged.
pub proof fn law_boundary_keeps_changes_out(
    message: VmRpc,
    boundary_active: bool,
    r: Result<VmRpc, RpcAnswer>,
)
    requires
        call_ensures(filter, (message, boundary_active), r),
    ensures
        r is Ok ==> r->Ok_0 == message,
        !boundary_active ==> r is Ok,
        message is ReadMemory || message is QuiesceForSnapshot
            || message is ResumeAfterFailedSnapshot || message is ReleaseSnapshotBoundary
            ==> r is Ok,
        boundary_active && (message is Save || message is Resume || message is Pause
            || message is ClearHalt || message is Reset || message is Nmi
            || message is AddVmbusDevice || message is ConnectHvsock
            || message is PulseSaveRestore || message is StartReloadIgvm
            || message is CompleteReloadIgvm || message is WriteMemory
            || message is UpdateCliParams || message is AddPcieDevice
            || message is RemovePcieDevice || message is DumpState) ==> r is Err,
        r is Err && (message is Pause || message is ClearHalt || message is Nmi)
            ==> r->Err_0 is Dropped,
        r is Err && message is PulseSaveRestore ==> r->Err_0 is PulseFailed,
        r is Err && (message is Save || message is Resume || message is Reset
            || message is WriteMemory || message is DumpState) ==> r->Err_0 is Failed,
{
}

/// Profiling is off until a setting turns it on, and then times are counted from the
/// first time it was asked for. A setting that is empty or zero turns nothing on.
pub proof fn law_setting_turns_profiling_on(
    state: Profile,
    setting: Option<Seq<char>>,
    now: u128,
)
    requires
        state.enabled is None,
        state.process_started is None,
    ensures
        setting is None ==> started_span(state, setting, now).started is None,
        setting is Some && setting->0.len() == 0 ==> started_span(state, setting, now).started
            is None,
        setting == Some("0"@) ==> started_span(state, setting, now).started is None,
        setting is Some && setting->0.len() > 0 && setting->0 != "0"@ ==> {
            &&& started_span(state, setting, now).started == Some(now)
            &&& initialized(state, setting, now as nat).process_started == Some(now)
        },
{
}

/// A profile record begins with its prefix, and then tells the operation, the phase and how
/// long it took.
pub proof fn law_records_name_their_operation(
    span: ProfileSpan,
    state: Profile,
    operation: Seq<char>,
    phase: Seq<char>,
    exclusive: bool,
    clock: ProfileClock,
    counters: ProfileCounters,
)
    ensures
        span.started is Some <==> span_record(
            span,
            state,
            operation,
            phase,
            exclusive,
            clock,
            counters,
        ) is Some,
        span_record(span, state, operation, phase, exclusive, clock, counters) matches Some(line)
            ==> {
            let head = "OPENVMM_SNAPSHOT_PROFILE_V1"@ + " operation="@ + operation + " phase="@
                + phase + " exclusive="@;
            &&& head.is_prefix_of(line)
            &&& line.len() > head.len()
            &&& line[head.len() as int] == (if exclusive {
                '1'
            } else {
                '0'
            })
            &&& clock.now >= span.started->0 ==> (" duration_ns="@ + decimal(
                (clock.now - span.started->0) as nat,
            ) + " process_elapsed_ns="@).is_prefix_of(line.skip(head.len() + 1int))
        },
{
    let head = "OPENVMM_SNAPSHOT_PROFILE_V1"@ + " operation="@ + operation + " phase="@ + phase
        + " exclusive="@;
    if let Some(line) = span_record(span, state, operation, phase, exclusive, clock, counters) {
        let digit = decimal(
            if exclusive {
                1
            } else {
                0
            },
        );
        assert(digit =~= seq![if exclusive { '1' } else { '0' }]);
        assert(head =~= line.subrange(0, head.len() as int));
        assert(line[head.len() as int] == digit[0]);
        if clock.now >= span.started->0 {
            let next = " duration_ns="@ + decimal((clock.now - span.started->0) as nat)
                + " process_elapsed_ns="@;
            let rest = line.skip(head.len() + 1int);
            assert(next =~= rest.subrange(0, next.len() as int));
        }
    }
}

/// A file is written only where its contents differ, and left alone where nothing does.
pub proof fn law_same_files_are_left_alone(
    source: &Vec<u8>,
    destination: Option<&Vec<u8>>,
    same: bool,
    same_permissions: bool,
    action: InstallAction,
)
    requires
        call_ensures(contents_match, (source, destination), same),
        call_ensures(install_action, (same, same_permissions), action),
    ensures
        action is Copy <==> destination is None || destination->0@ != source@,
        action is Nothing <==> destination is Some && destination->0@ == source@
            && same_permissions,
        action is SetPermissions <==> destination is Some && destination->0@ == source@
            && !same_permissions,
{
}

/// A comparison asks for bytes as long as there are some, never for more than are left, and
/// is not begun for files of different lengths.
pub proof fn law_comparison_reads_to_the_end(
    source_len: u64,
    destination_len: u64,
    r: Option<FileComparison>,
    n: usize,
)
    requires
        call_ensures(FileComparison::start, (source_len, destination_len), r),
        r is Some ==> call_ensures(FileComparison::wanted, (&r->0,), n),
    ensures
        r is Some <==> source_len == destination_len,
        r is Some ==> r->0.remaining == source_len && n <= source_len && (n == 0 <==> source_len
            == 0),
{
}

} // verus!
