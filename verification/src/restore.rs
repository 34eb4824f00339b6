//! Restoring a microVM: how long it was away, and what it is told on return.

use vstd::bytes::{
    lemma_auto_spec_u64_to_from_le_bytes, spec_u64_from_le_bytes, spec_u64_to_le_bytes,
    u64_to_le_bytes,
};
use vstd::prelude::*;
use vstd::utf8::{encode_utf8, is_ascii_chars_encode_utf8};

use crate::bytes::{copy_bytes, push_bytes};
use crate::entropy::random_bytes;
use crate::refusal::{refusal_of, refuse, Refusal};
use crate::snapshot::{
    SavedNetwork, SnapshotMachineContract, SnapshotMemoryExpansionRange, SnapshotMicrovmNetwork,
};

verus! {

/// The longest host downtime that a restore bridges: thirty days.
pub const MAX_SNAPSHOT_DOWNTIME_NS: u128 = 2_592_000_000_000_000;

/// The host downtime between a capture and a restore, both in nanoseconds since
/// the Unix epoch.
pub fn calculate_snapshot_downtime(capture_time_ns: i128, destination_time_ns: i128) -> (r: Result<
    u128,
    Refusal,
>)
    ensures
        match r {
            Ok(downtime) => downtime == destination_time_ns - capture_time_ns && downtime
                <= MAX_SNAPSHOT_DOWNTIME_NS,
            Err(e) => if destination_time_ns < capture_time_ns {
                e@ == "destination wall clock is before snapshot capture time"@
            } else {
                destination_time_ns - capture_time_ns > MAX_SNAPSHOT_DOWNTIME_NS && e@
                    == "snapshot host downtime exceeds the supported 30-day bound"@
            },
        },
        r is Ok <==> 0 <= destination_time_ns - capture_time_ns <= MAX_SNAPSHOT_DOWNTIME_NS,
{
    if destination_time_ns < capture_time_ns {
        return Err(refuse("destination wall clock is before snapshot capture time"));
    }
    let downtime: i128 = match destination_time_ns.checked_sub(capture_time_ns) {
        Some(downtime) => downtime,
        None => {
            return Err(refuse("snapshot host downtime exceeds the supported 30-day bound"));
        },
    };
    if downtime as u128 > MAX_SNAPSHOT_DOWNTIME_NS {
        return Err(refuse("snapshot host downtime exceeds the supported 30-day bound"));
    }
    Ok(downtime as u128)
}

/// The header of a restore packet: a version and a terminating NUL.
pub open spec fn packet_header(version: int) -> Seq<u8> {
    if version == 3 {
        encode_utf8("OPENVMM_ENTROPY_V3\0"@)
    } else if version == 2 {
        encode_utf8("OPENVMM_ENTROPY_V2\0"@)
    } else {
        encode_utf8("OPENVMM_ENTROPY_V1\0"@)
    }
}

/// The version of the packet that a request needs.
pub open spec fn packet_version(online_vps: Option<u32>, memory_target: bool) -> int {
    if memory_target {
        3
    } else if online_vps is Some {
        2
    } else {
        1
    }
}

/// A list of memory ranges as little-endian pairs of address and length.
pub open spec fn ranges_bytes(ranges: Seq<SnapshotMemoryExpansionRange>) -> Seq<u8>
    decreases ranges.len(),
{
    if ranges.len() == 0 {
        Seq::empty()
    } else {
        ranges_bytes(ranges.drop_last()) + spec_u64_to_le_bytes(ranges.last().gpa_start)
            + spec_u64_to_le_bytes(ranges.last().length)
    }
}

/// The part of a packet between its header and its entropy.
pub open spec fn packet_body(
    online_vps: Option<u32>,
    memory_target: bool,
    ranges: Seq<SnapshotMemoryExpansionRange>,
) -> Seq<u8> {
    let target = match online_vps {
        Some(count) => count as u8,
        None => 0,
    };
    if memory_target {
        seq![target, ranges.len() as u8] + ranges_bytes(ranges)
    } else if online_vps is Some {
        seq![target]
    } else {
        Seq::empty()
    }
}

/// The restore packet for a request.
pub open spec fn packet_bytes(
    entropy: Seq<u8>,
    online_vps: Option<u32>,
    memory_target: bool,
    ranges: Seq<SnapshotMemoryExpansionRange>,
) -> Seq<u8> {
    packet_header(packet_version(online_vps, memory_target)) + packet_body(
        online_vps,
        memory_target,
        ranges,
    ) + entropy
}

/// The first refused range of a list.
pub open spec fn ranges_refusal(ranges: Seq<SnapshotMemoryExpansionRange>) -> Option<Seq<char>>
    decreases ranges.len(),
{
    if ranges.len() == 0 {
        None
    } else if ranges_refusal(ranges.drop_last()) is Some {
        ranges_refusal(ranges.drop_last())
    } else if ranges.last().length == 0 {
        Some("restore memory range is empty"@)
    } else if ranges.last().gpa_start + ranges.last().length > u64::MAX {
        Some("restore memory range overflows GPA space"@)
    } else {
        None
    }
}

/// Why no packet can be made for a request, if none can.
pub open spec fn packet_refusal(
    online_vps: Option<u32>,
    memory_target: bool,
    ranges: Seq<SnapshotMemoryExpansionRange>,
) -> Option<Seq<char>> {
    if !memory_target && ranges.len() > 0 {
        Some("restore memory ranges require an explicit memory target"@)
    } else if memory_target && ranges.len() > 255 {
        Some("restore memory range count does not fit in u8"@)
    } else if online_vps is Some && online_vps->0 > 255 {
        Some("restore-online VP count does not fit in u8"@)
    } else if memory_target {
        ranges_refusal(ranges)
    } else {
        None
    }
}

proof fn lemma_ranges_refusal_persists(ranges: Seq<SnapshotMemoryExpansionRange>, k: int)
    requires
        0 <= k <= ranges.len(),
        ranges_refusal(ranges.take(k)) is Some,
    ensures
        ranges_refusal(ranges) == ranges_refusal(ranges.take(k)),
    decreases ranges.len(),
{
    if k == ranges.len() {
        assert(ranges.take(k) =~= ranges);
    } else {
        assert(ranges.drop_last().take(k) =~= ranges.take(k));
        lemma_ranges_refusal_persists(ranges.drop_last(), k);
    }
}

/// Makes the packet that tells a restored guest its fresh entropy, and where
/// asked its number of online processors and its added memory.
///
/// A packet is a NUL-terminated header of 19 bytes; from the second version on
/// one byte with the processor target, where zero means absent; in the third
/// version one byte with the number of ranges and then each range as two
/// little-endian 64-bit numbers; and 64 bytes of entropy.
pub fn microvm_restore_packet(
    entropy: &[u8; 64],
    restore_online_vp_count: Option<u32>,
    restore_memory_target_requested: bool,
    restore_memory_ranges: &[SnapshotMemoryExpansionRange],
) -> (r: Result<Vec<u8>, Refusal>)
    ensures
        refusal_of(r) == packet_refusal(
            restore_online_vp_count,
            restore_memory_target_requested,
            restore_memory_ranges@,
        ),
        r is Ok ==> r->Ok_0@ == packet_bytes(
            entropy@,
            restore_online_vp_count,
            restore_memory_target_requested,
            restore_memory_ranges@,
        ),
{
    let ghost ranges = restore_memory_ranges@;
    if !restore_memory_target_requested && restore_memory_ranges.len() > 0 {
        return Err(refuse("restore memory ranges require an explicit memory target"));
    }
    let mut packet: Vec<u8>;
    if restore_memory_target_requested {
        if restore_memory_ranges.len() > 255 {
            return Err(refuse("restore memory range count does not fit in u8"));
        }
        packet = copy_bytes("OPENVMM_ENTROPY_V3\0".as_bytes());
        let online_vp_count: u8 = match restore_online_vp_count {
            Some(count) => {
                if count > 255 {
                    return Err(refuse("restore-online VP count does not fit in u8"));
                }
                count as u8
            },
            None => 0,
        };
        packet.push(online_vp_count);
        packet.push(restore_memory_ranges.len() as u8);
        let ghost head = packet@;
        let mut i: usize = 0;
        assert(packet@ =~= head + ranges_bytes(ranges.take(0)));
        while i < restore_memory_ranges.len()
            invariant
                i <= ranges.len(),
                ranges == restore_memory_ranges@,
                ranges.len() <= 255,
                restore_memory_target_requested,
                !(restore_online_vp_count is Some && restore_online_vp_count->0 > 255),
                ranges_refusal(ranges.take(i as int)) is None,
                packet@ == head + ranges_bytes(ranges.take(i as int)),
            decreases ranges.len() - i,
        {
            let range = restore_memory_ranges[i];
            proof {
                assert(ranges.take(i + 1).drop_last() =~= ranges.take(i as int));
                assert(ranges.take(i + 1).last() == range);
            }
            if range.length == 0 {
                proof {
                    lemma_ranges_refusal_persists(ranges, i + 1);
                }
                return Err(refuse("restore memory range is empty"));
            }
            if range.gpa_start.checked_add(range.length).is_none() {
                proof {
                    lemma_ranges_refusal_persists(ranges, i + 1);
                }
                return Err(refuse("restore memory range overflows GPA space"));
            }
            let start = u64_to_le_bytes(range.gpa_start);
            push_bytes(&mut packet, start.as_slice());
            let length = u64_to_le_bytes(range.length);
            push_bytes(&mut packet, length.as_slice());
            assert(packet@ =~= head + ranges_bytes(ranges.take(i + 1)));
            i += 1;
        }
        assert(ranges.take(i as int) =~= ranges);
    } else {
        match restore_online_vp_count {
            Some(count) => {
                if count > 255 {
                    return Err(refuse("restore-online VP count does not fit in u8"));
                }
                packet = copy_bytes("OPENVMM_ENTROPY_V2\0".as_bytes());
                packet.push(count as u8);
            },
            None => {
                packet = copy_bytes("OPENVMM_ENTROPY_V1\0".as_bytes());
            },
        }
    }
    push_bytes(&mut packet, entropy.as_slice());
    assert(packet@ =~= packet_bytes(
        entropy@,
        restore_online_vp_count,
        restore_memory_target_requested,
        ranges,
    ));
    Ok(packet)
}

/// The generation identifier of a restored machine: the first sixteen bytes of
/// its entropy.
pub fn microvm_generation_id(entropy: &[u8; 64]) -> (id: [u8; 16])
    ensures
        id@ == entropy@.take(16),
{
    let mut id: [u8; 16] = [0u8; 16];
    let mut i: usize = 0;
    while i < 16
        invariant
            i <= 16,
            id@.len() == 16,
            forall|k: int| 0 <= k < i ==> #[trigger] id@[k] == entropy@[k],
        decreases 16 - i,
    {
        id[i] = entropy[i];
        i += 1;
    }
    assert(id@ =~= entropy@.take(16));
    id
}

/// A fresh generation identifier: what `generation_id_from_random` makes of sixteen
/// random bytes. The bytes are random, so only the failure is pinned.
pub fn fresh_microvm_generation_id() -> (r: Result<[u8; 16], Refusal>)
    ensures
        r is Err ==> r->Err_0@ == "failed to generate microVM generation ID"@,
{
    generation_id_from_random(random_bytes(16))
}

/// The generation identifier that the random source's answer makes: its sixteen
/// bytes as they are, or the refusal where it failed.
pub fn generation_id_from_random(bytes: Option<Vec<u8>>) -> (r: Result<[u8; 16], Refusal>)
    requires
        bytes is Some ==> bytes->0@.len() == 16,
    ensures
        match bytes {
            Some(bytes) => r is Ok && r->Ok_0@ == bytes@,
            None => r is Err && r->Err_0@ == "failed to generate microVM generation ID"@,
        },
{
    let bytes = match bytes {
        Some(bytes) => bytes,
        None => return Err(refuse("failed to generate microVM generation ID")),
    };
    let mut id: [u8; 16] = [0u8; 16];
    let mut i: usize = 0;
    while i < 16
        invariant
            i <= 16,
            id@.len() == 16,
            bytes@.len() == 16,
            forall|k: int| 0 <= k < i ==> #[trigger] id@[k] == bytes@[k],
        decreases 16 - i,
    {
        id[i] = bytes[i];
        i += 1;
    }
    assert(id@ =~= bytes@);
    Ok(id)
}

/// A generation identifier and the packet with the entropy it comes from: what
/// `restore_packet_from_random` makes of 64 random bytes. Whatever the bytes, the
/// two agree and the packet is the one requested.
pub fn fresh_microvm_restore_packet(
    restore_online_vp_count: Option<u32>,
    restore_memory_target_requested: bool,
    restore_memory_ranges: &[SnapshotMemoryExpansionRange],
) -> (r: Result<([u8; 16], Vec<u8>), Refusal>)
    ensures
        match r {
            Ok((id, packet)) => {
                &&& packet_refusal(
                    restore_online_vp_count,
                    restore_memory_target_requested,
                    restore_memory_ranges@,
                ) is None
                &&& exists|entropy: Seq<u8>|
                    entropy.len() == 64 && id@ == entropy.take(16) && packet@
                        == #[trigger] packet_bytes(
                        entropy,
                        restore_online_vp_count,
                        restore_memory_target_requested,
                        restore_memory_ranges@,
                    )
            },
            Err(e) => e@ == "failed to generate restore entropy"@ || packet_refusal(
                restore_online_vp_count,
                restore_memory_target_requested,
                restore_memory_ranges@,
            ) == Some(e@),
        },
{
    restore_packet_from_random(
        random_bytes(64),
        restore_online_vp_count,
        restore_memory_target_requested,
        restore_memory_ranges,
    )
}

/// The generation identifier and the packet that the random source's answer makes:
/// the packet carries its 64 bytes as they are, and the first sixteen are the
/// identifier.
pub fn restore_packet_from_random(
    bytes: Option<Vec<u8>>,
    restore_online_vp_count: Option<u32>,
    restore_memory_target_requested: bool,
    restore_memory_ranges: &[SnapshotMemoryExpansionRange],
) -> (r: Result<([u8; 16], Vec<u8>), Refusal>)
    requires
        bytes is Some ==> bytes->0@.len() == 64,
    ensures
        match bytes {
            None => refusal_of(r) == Some("failed to generate restore entropy"@),
            Some(bytes) => {
                &&& refusal_of(r) == packet_refusal(
                    restore_online_vp_count,
                    restore_memory_target_requested,
                    restore_memory_ranges@,
                )
                &&& r is Ok ==> r->Ok_0.0@ == bytes@.take(16) && r->Ok_0.1@ == packet_bytes(
                    bytes@,
                    restore_online_vp_count,
                    restore_memory_target_requested,
                    restore_memory_ranges@,
                )
            },
        },
{
    let bytes = match bytes {
        Some(bytes) => bytes,
        None => return Err(refuse("failed to generate restore entropy")),
    };
    let mut entropy: [u8; 64] = [0u8; 64];
    let mut i: usize = 0;
    while i < 64
        invariant
            i <= 64,
            entropy@.len() == 64,
            bytes@.len() == 64,
            forall|k: int| 0 <= k < i ==> #[trigger] entropy@[k] == bytes@[k],
        decreases 64 - i,
    {
        entropy[i] = bytes[i];
        i += 1;
    }
    assert(entropy@ =~= bytes@);
    let id = microvm_generation_id(&entropy);
    match microvm_restore_packet(
        &entropy,
        restore_online_vp_count,
        restore_memory_target_requested,
        restore_memory_ranges,
    ) {
        Ok(packet) => Ok((id, packet)),
        Err(e) => Err(e),
    }
}

pub proof fn lemma_packet_header(version: int)
    ensures
        packet_header(version).len() == 19,
        packet_header(version)[18] == 0,
        packet_header(version)[17] == if version == 3 {
            51u8
        } else if version == 2 {
            50u8
        } else {
            49u8
        },
{
    reveal_strlit("OPENVMM_ENTROPY_V1\0");
    reveal_strlit("OPENVMM_ENTROPY_V2\0");
    reveal_strlit("OPENVMM_ENTROPY_V3\0");
    is_ascii_chars_encode_utf8("OPENVMM_ENTROPY_V1\0"@);
    is_ascii_chars_encode_utf8("OPENVMM_ENTROPY_V2\0"@);
    is_ascii_chars_encode_utf8("OPENVMM_ENTROPY_V3\0"@);
}

/// Where each range stands in the list's bytes.
pub proof fn lemma_ranges_bytes(ranges: Seq<SnapshotMemoryExpansionRange>)
    ensures
        ranges_bytes(ranges).len() == 16 * ranges.len(),
        forall|i: int|
            #![trigger ranges[i]]
            0 <= i < ranges.len() ==> {
                &&& spec_u64_from_le_bytes(ranges_bytes(ranges).subrange(16 * i, 16 * i + 8))
                    == ranges[i].gpa_start
                &&& spec_u64_from_le_bytes(ranges_bytes(ranges).subrange(16 * i + 8, 16 * i + 16))
                    == ranges[i].length
            },
    decreases ranges.len(),
{
    lemma_auto_spec_u64_to_from_le_bytes();
    if ranges.len() > 0 {
        let front = ranges.drop_last();
        let last = ranges.last();
        lemma_ranges_bytes(front);
        let all = ranges_bytes(ranges);
        let before = ranges_bytes(front);
        let a = spec_u64_to_le_bytes(last.gpa_start);
        let b = spec_u64_to_le_bytes(last.length);
        assert(a.len() == 8 && b.len() == 8);
        assert(all == before + a + b);
        assert forall|i: int| #![trigger ranges[i]] 0 <= i < ranges.len() implies {
            &&& spec_u64_from_le_bytes(all.subrange(16 * i, 16 * i + 8)) == ranges[i].gpa_start
            &&& spec_u64_from_le_bytes(all.subrange(16 * i + 8, 16 * i + 16)) == ranges[i].length
        } by {
            if i < front.len() {
                assert(front[i] == ranges[i]);
                assert(all.subrange(16 * i, 16 * i + 8) =~= before.subrange(16 * i, 16 * i + 8));
                assert(all.subrange(16 * i + 8, 16 * i + 16) =~= before.subrange(
                    16 * i + 8,
                    16 * i + 16,
                ));
            } else {
                assert(all.subrange(16 * i, 16 * i + 8) =~= a);
                assert(all.subrange(16 * i + 8, 16 * i + 16) =~= b);
            }
        }
    }
}

/// A packet holds everything it was made of, at fixed places: its version in
/// the header, the processor target and the range count in the next bytes, each
/// range as a little-endian pair, and the entropy at the end.
pub proof fn law_packet_is_decodable(
    entropy: Seq<u8>,
    online_vps: Option<u32>,
    memory_target: bool,
    ranges: Seq<SnapshotMemoryExpansionRange>,
)
    requires
        entropy.len() == 64,
        packet_refusal(online_vps, memory_target, ranges) is None,
    ensures
        ({
            let packet = packet_bytes(entropy, online_vps, memory_target, ranges);
            let version = packet_version(online_vps, memory_target);
            let skip = if version == 3 {
                21 + 16 * ranges.len()
            } else if version == 2 {
                20
            } else {
                19
            };
            &&& packet.len() == skip + 64
            &&& packet.take(19) == packet_header(version)
            &&& packet.skip(skip as int) == entropy
            &&& version >= 2 ==> packet[19] == (match online_vps {
                Some(count) => count,
                None => 0,
            })
            &&& version == 3 ==> packet[20] == ranges.len()
            &&& version == 3 ==> forall|i: int|
                #![trigger ranges[i]]
                0 <= i < ranges.len() ==> {
                    &&& spec_u64_from_le_bytes(packet.subrange(21 + 16 * i, 29 + 16 * i))
                        == ranges[i].gpa_start
                    &&& spec_u64_from_le_bytes(packet.subrange(29 + 16 * i, 37 + 16 * i))
                        == ranges[i].length
                }
        }),
{
    let packet = packet_bytes(entropy, online_vps, memory_target, ranges);
    let version = packet_version(online_vps, memory_target);
    lemma_packet_header(version);
    lemma_ranges_bytes(ranges);
    assert(packet.take(19) =~= packet_header(version));
    if version == 3 {
        let listed = ranges_bytes(ranges);
        assert(packet.skip(21int + 16 * ranges.len()) =~= entropy);
        assert forall|i: int| #![trigger ranges[i]] 0 <= i < ranges.len() implies {
            &&& spec_u64_from_le_bytes(packet.subrange(21 + 16 * i, 29 + 16 * i))
                == ranges[i].gpa_start
            &&& spec_u64_from_le_bytes(packet.subrange(29 + 16 * i, 37 + 16 * i))
                == ranges[i].length
        } by {
            assert(packet.subrange(21 + 16 * i, 29 + 16 * i) =~= listed.subrange(
                16 * i,
                16 * i + 8,
            ));
            assert(packet.subrange(29 + 16 * i, 37 + 16 * i) =~= listed.subrange(
                16 * i + 8,
                16 * i + 16,
            ));
        }
    } else if version == 2 {
        assert(packet.skip(20) =~= entropy);
    } else {
        assert(packet.skip(19) =~= entropy);
    }
}

/// The saved network with the policy encoding of an older snapshot, where the
/// snapshot is one.
pub open spec fn aligned_network(saved: SavedNetwork, expected: SavedNetwork) -> SavedNetwork {
    if saved.egress_policy_encoding_version <= 1 {
        SavedNetwork {
            egress_policy_encoding_version: saved.egress_policy_encoding_version,
            egress_policy_sha256: saved.egress_policy_sha256,
            ..expected
        }
    } else {
        expected
    }
}

/// Takes over the policy digest of a snapshot in an older encoding, whose policy
/// was validated in that encoding. Nothing else of the expectation changes.
pub fn align_legacy_network_policy(
    saved: Option<&SnapshotMicrovmNetwork>,
    expected: &mut Option<SnapshotMicrovmNetwork>,
)
    ensures
        match (saved, *old(expected)) {
            (Some(s), Some(e)) => *final(expected) is Some && (*final(expected))->0@
                == aligned_network(s@, e@),
            _ => *final(expected) == *old(expected),
        },
{
    match (saved, expected.as_mut()) {
        (Some(saved), Some(expected)) => {
            if saved.egress_policy_encoding_version <= 1 {
                expected.egress_policy_encoding_version = saved.egress_policy_encoding_version;
                expected.egress_policy_sha256 = copy_bytes(saved.egress_policy_sha256.as_slice());
            }
        },
        _ => {},
    }
}

/// Aligns the expected contract with an older snapshot.
pub fn align_legacy_network_policy_contract(
    saved: &SnapshotMachineContract,
    expected: &mut SnapshotMachineContract,
)
    ensures
        *final(expected) == (SnapshotMachineContract {
            microvm_network: final(expected).microvm_network,
            ..*old(expected)
        }),
        match (saved.microvm_network, old(expected).microvm_network) {
            (Some(s), Some(e)) => final(expected).microvm_network is Some
                && final(expected).microvm_network->0@ == aligned_network(s@, e@),
            _ => final(expected).microvm_network == old(expected).microvm_network,
        },
{
    align_legacy_network_policy(saved.microvm_network.as_ref(), &mut expected.microvm_network);
}

} // verus!
