//! Snapshot boundaries, profiling records and restore packets.

use openvmm::config::{DeviceResource, DeviceVtl, Guid, HostFile};
use openvmm::profile::{
    enabled, format_record, initialize, Profile, ProfileClock, ProfileCounters, ProfileSpan,
};
use openvmm::restore::{
    calculate_snapshot_downtime, fresh_microvm_generation_id, fresh_microvm_restore_packet,
    generation_id_from_random, microvm_generation_id, microvm_restore_packet,
    restore_packet_from_random,
    MAX_SNAPSHOT_DOWNTIME_NS,
};
use openvmm::rpc::{PulseSaveRestoreError, RemoteError, SnapshotQuiesceError, VmRpc};
use openvmm::snapshot::SnapshotMemoryExpansionRange;
use openvmm::snapshot_rpc::{filter, RpcAnswer, SNAPSHOT_BOUNDARY_ACTIVE};

const SECOND_NS: i128 = 1_000_000_000;

#[test]
fn mutation_outside_snapshot_reaches_dispatch() {
    for message in [
        VmRpc::WriteMemory(0, vec![1]),
        VmRpc::Reset,
        VmRpc::Resume,
        VmRpc::Pause,
    ] {
        assert!(filter(message, false).is_ok());
    }
}

#[test]
fn snapshot_control_and_reads_reach_dispatch() {
    for message in [
        VmRpc::QuiesceForSnapshot { timeout_ms: 1000 },
        VmRpc::ResumeAfterFailedSnapshot { timeout_ms: 1000 },
        VmRpc::ReleaseSnapshotBoundary,
        VmRpc::ReadMemory(0, 1),
    ] {
        assert!(filter(message, true).is_ok());
    }
}

#[test]
fn snapshot_mutations_fail_without_waiting_for_release() {
    for message in [
        VmRpc::WriteMemory(0, vec![1]),
        VmRpc::Reset,
        VmRpc::RemovePcieDevice("port".to_owned()),
    ] {
        match filter(message, true) {
            Err(RpcAnswer::Failed(error)) => {
                assert!(error.message.contains("snapshot boundary is active"))
            }
            other => panic!("unexpected answer: {other:?}"),
        }
    }
    assert!(filter(VmRpc::Resume, true).is_err());

    let Ok(VmRpc::ReleaseSnapshotBoundary) = filter(VmRpc::ReleaseSnapshotBoundary, true) else {
        panic!("snapshot release was blocked");
    };
}

#[test]
fn infallible_mutations_report_channel_error() {
    for message in [VmRpc::Pause, VmRpc::ClearHalt, VmRpc::Nmi(0)] {
        assert!(matches!(filter(message, true), Err(RpcAnswer::Dropped)));
    }
}

#[test]
fn mutation_can_be_retried_after_boundary_release() {
    assert!(filter(VmRpc::WriteMemory(0, vec![1]), true).is_err());

    let Ok(VmRpc::WriteMemory(gpa, bytes)) = filter(VmRpc::WriteMemory(0, vec![2]), false) else {
        panic!("write was blocked after boundary release");
    };
    assert_eq!((gpa, bytes), (0, vec![2]));
}

#[test]
fn a_pulse_is_refused_in_its_own_form() {
    match filter(VmRpc::PulseSaveRestore, true) {
        Err(RpcAnswer::PulseFailed(PulseSaveRestoreError::Other(error))) => {
            assert_eq!(error.message, SNAPSHOT_BOUNDARY_ACTIVE)
        }
        other => panic!("unexpected answer: {other:?}"),
    }
}

#[test]
fn every_other_mutation_is_refused_at_the_boundary() {
    let guid = Guid {
        data1: 1,
        data2: 2,
        data3: 3,
        data4: [4; 8],
    };
    for message in [
        VmRpc::Save,
        VmRpc::AddVmbusDevice(
            DeviceVtl::Vtl0,
            DeviceResource {
                id: "netvsp".to_owned(),
            },
        ),
        VmRpc::ConnectHvsock(guid, DeviceVtl::Vtl2),
        VmRpc::StartReloadIgvm(HostFile { slot: 3 }),
        VmRpc::CompleteReloadIgvm(true),
        VmRpc::UpdateCliParams("a=b".to_owned()),
        VmRpc::DumpState(HostFile { slot: 4 }),
    ] {
        assert!(matches!(filter(message, true), Err(RpcAnswer::Failed(_))));
    }
}

#[test]
fn requests_and_failures_have_names() {
    assert_eq!(VmRpc::Nmi(0).name(), "Nmi");
    assert_eq!(
        VmRpc::QuiesceForSnapshot { timeout_ms: 1 }.name(),
        "QuiesceForSnapshot"
    );
    let remote = || RemoteError {
        message: "x".to_owned(),
    };
    assert_eq!(
        SnapshotQuiesceError::Rejected(remote()).message(),
        "snapshot quiesce request was rejected"
    );
    assert_eq!(
        SnapshotQuiesceError::RollbackSafe(remote()).message(),
        "snapshot quiesce failed without uncertain state"
    );
    assert_eq!(
        SnapshotQuiesceError::Uncertain(remote()).message(),
        "snapshot quiesce left uncertain state"
    );
    assert_eq!(
        PulseSaveRestoreError::ResetNotSupported.message(),
        "reset not supported"
    );
    assert_eq!(
        PulseSaveRestoreError::UnsupportedMachineProfile.message(),
        "save and restore are unavailable for this machine profile"
    );
    match PulseSaveRestoreError::from_error(remote()) {
        PulseSaveRestoreError::Other(error) => assert_eq!(error.message, "x"),
        other => panic!("unexpected failure: {other:?}"),
    }
}

#[test]
fn profile_record_has_stable_machine_readable_fields() {
    assert_eq!(
        format_record(
            "restore",
            "artifact_open",
            true,
            12,
            34,
            56,
            78,
            ProfileCounters {
                logical_bytes: Some(90),
                allocated_bytes: Some(12),
                gpa_faults: None,
                populated_bytes: None,
            },
        ),
        "OPENVMM_SNAPSHOT_PROFILE_V1 operation=restore phase=artifact_open \
         exclusive=1 duration_ns=12 process_elapsed_ns=34 pid=56 \
         unix_ns=78 logical_bytes=90 allocated_bytes=12"
    );
}

fn fresh_profile() -> Profile {
    Profile {
        enabled: None,
        process_started: None,
    }
}

#[test]
fn the_first_profile_setting_counts() {
    for (setting, expected) in [
        (None, false),
        (Some(""), false),
        (Some("0"), false),
        (Some("1"), true),
        (Some("00"), true),
    ] {
        let mut state = fresh_profile();
        assert_eq!(enabled(&mut state, setting), expected);
        assert_eq!(enabled(&mut state, Some("1")), expected);
        assert_eq!(enabled(&mut state, None), expected);
    }
}

#[test]
fn the_profile_clock_starts_once() {
    let mut state = fresh_profile();
    initialize(&mut state, Some("1"), 100);
    assert_eq!(state.process_started, Some(100));
    initialize(&mut state, Some("1"), 200);
    assert_eq!(state.process_started, Some(100));
}

#[test]
fn disabled_profiling_is_silent() {
    let mut state = fresh_profile();
    let span = ProfileSpan::start(&mut state, None, 5);
    let clock = ProfileClock {
        now: 9,
        unix_ns: 1,
        pid: 2,
    };
    assert_eq!(
        span.complete(&state, "capture", "all", clock, ProfileCounters::default()),
        None
    );
}

#[test]
fn a_milestone_is_not_exclusive() {
    let mut state = fresh_profile();
    initialize(&mut state, Some("1"), 10);
    let span = ProfileSpan::start(&mut state, Some("1"), 15);
    let clock = ProfileClock {
        now: 40,
        unix_ns: 7,
        pid: 8,
    };
    let counters = ProfileCounters {
        logical_bytes: None,
        allocated_bytes: None,
        gpa_faults: Some(3),
        populated_bytes: Some(4096),
    };
    assert_eq!(
        span.complete_milestone(&state, "capture", "total", clock, counters)
            .unwrap(),
        "OPENVMM_SNAPSHOT_PROFILE_V1 operation=capture phase=total exclusive=0 \
         duration_ns=25 process_elapsed_ns=30 pid=8 unix_ns=7 gpa_faults=3 \
         populated_bytes=4096"
    );
}

#[test]
fn snapshot_downtime_accepts_supported_elapsed_time() {
    let capture = SECOND_NS;

    assert_eq!(calculate_snapshot_downtime(capture, capture).unwrap(), 0);
    assert_eq!(
        calculate_snapshot_downtime(capture, capture + MAX_SNAPSHOT_DOWNTIME_NS as i128).unwrap(),
        MAX_SNAPSHOT_DOWNTIME_NS
    );
    assert_eq!(
        MAX_SNAPSHOT_DOWNTIME_NS,
        30 * 24 * 60 * 60 * SECOND_NS as u128
    );
}

#[test]
fn snapshot_downtime_rejects_rollback_and_excessive_elapsed_time() {
    let capture = SECOND_NS;

    let rollback = calculate_snapshot_downtime(capture, 0).unwrap_err();
    assert!(rollback.message.contains("before snapshot capture time"));

    let excessive = calculate_snapshot_downtime(
        capture,
        capture + MAX_SNAPSHOT_DOWNTIME_NS as i128 + SECOND_NS,
    )
    .unwrap_err();
    assert!(excessive.message.contains("exceeds the supported"));
}

#[test]
fn restore_packet_versions_preserve_entropy_and_online_target() {
    let entropy = [0x5a; 64];
    assert_eq!(microvm_generation_id(&entropy), [0x5a; 16]);
    let v1 = microvm_restore_packet(&entropy, None, false, &[]).unwrap();
    assert_eq!(&v1[..19], b"OPENVMM_ENTROPY_V1\0");
    assert_eq!(&v1[19..], &entropy);

    let v2 = microvm_restore_packet(&entropy, Some(8), false, &[]).unwrap();
    assert_eq!(&v2[..19], b"OPENVMM_ENTROPY_V2\0");
    assert_eq!(v2[19], 8);
    assert_eq!(&v2[20..], &entropy);

    let ranges = [
        SnapshotMemoryExpansionRange {
            gpa_start: 0x2000_0000,
            length: 0x2000_0000,
        },
        SnapshotMemoryExpansionRange {
            gpa_start: 0x1_0000_0000,
            length: 0x4000_0000,
        },
    ];
    let v3 = microvm_restore_packet(&entropy, Some(4), true, &ranges).unwrap();
    assert_eq!(&v3[..19], b"OPENVMM_ENTROPY_V3\0");
    assert_eq!(v3[19], 4);
    assert_eq!(v3[20], 2);
    assert_eq!(
        &v3[21..37],
        &[
            ranges[0].gpa_start.to_le_bytes(),
            ranges[0].length.to_le_bytes(),
        ]
        .concat()
    );
    assert_eq!(
        &v3[37..53],
        &[
            ranges[1].gpa_start.to_le_bytes(),
            ranges[1].length.to_le_bytes(),
        ]
        .concat()
    );
    assert_eq!(&v3[53..], &entropy);

    let v3_without_cpu = microvm_restore_packet(&entropy, None, true, &ranges[..1]).unwrap();
    assert_eq!(&v3_without_cpu[..19], b"OPENVMM_ENTROPY_V3\0");
    assert_eq!(v3_without_cpu[19], 0);
    assert_eq!(v3_without_cpu[20], 1);
    assert_eq!(
        &v3_without_cpu[21..37],
        &[
            ranges[0].gpa_start.to_le_bytes(),
            ranges[0].length.to_le_bytes(),
        ]
        .concat()
    );
    assert_eq!(&v3_without_cpu[37..], &entropy);

    let v3_explicit_base = microvm_restore_packet(&entropy, None, true, &[]).unwrap();
    assert_eq!(&v3_explicit_base[..19], b"OPENVMM_ENTROPY_V3\0");
    assert_eq!(v3_explicit_base[19], 0);
    assert_eq!(v3_explicit_base[20], 0);
    assert_eq!(&v3_explicit_base[21..], &entropy);

    assert!(microvm_restore_packet(&entropy, None, false, &ranges[..1]).is_err());
}

#[test]
fn restore_packets_refuse_what_they_cannot_hold() {
    let entropy = [1; 64];
    let range = |gpa_start: u64, length: u64| SnapshotMemoryExpansionRange { gpa_start, length };
    for (count, target, ranges, message) in [
        (
            None,
            false,
            vec![range(0, 4096)],
            "restore memory ranges require an explicit memory target",
        ),
        (
            Some(256),
            false,
            vec![],
            "restore-online VP count does not fit in u8",
        ),
        (
            Some(256),
            true,
            vec![],
            "restore-online VP count does not fit in u8",
        ),
        (
            None,
            true,
            vec![range(0, 1); 256],
            "restore memory range count does not fit in u8",
        ),
        (
            None,
            true,
            vec![range(4096, 0)],
            "restore memory range is empty",
        ),
        (
            None,
            true,
            vec![range(u64::MAX, 1)],
            "restore memory range overflows GPA space",
        ),
    ] {
        let refusal = microvm_restore_packet(&entropy, count, target, &ranges).unwrap_err();
        assert_eq!(refusal.message, message);
    }
}

#[test]
fn fresh_packets_carry_their_generation_id() {
    let (first_id, first) = fresh_microvm_restore_packet(Some(2), false, &[]).unwrap();
    let (second_id, second) = fresh_microvm_restore_packet(Some(2), false, &[]).unwrap();
    assert_eq!(first.len(), 84);
    assert_eq!(&first[..19], b"OPENVMM_ENTROPY_V2\0");
    assert_eq!(&first[20..36], &first_id);
    assert_eq!(&second[20..36], &second_id);
    assert_ne!(first_id, second_id);
    assert_ne!(first_id, [0; 16]);

    assert!(fresh_microvm_restore_packet(Some(300), false, &[]).is_err());
    assert_ne!(fresh_microvm_generation_id().unwrap(), [0; 16]);
}

#[test]
fn restore_packets_carry_the_random_bytes() {
    let bytes: Vec<u8> = (100..164).collect();
    let (id, packet) =
        restore_packet_from_random(Some(bytes.clone()), Some(2), false, &[]).unwrap();
    assert_eq!(&id[..], &bytes[..16]);
    assert_eq!(&packet[20..], &bytes[..]);
    assert_eq!(
        restore_packet_from_random(None, Some(2), false, &[])
            .unwrap_err()
            .message,
        "failed to generate restore entropy"
    );
    assert_eq!(
        restore_packet_from_random(Some(bytes), Some(300), false, &[])
            .unwrap_err()
            .message,
        "restore-online VP count does not fit in u8"
    );
}

#[test]
fn generation_id_is_the_random_bytes() {
    let bytes: Vec<u8> = (1..=16).collect();
    assert_eq!(
        generation_id_from_random(Some(bytes)).unwrap(),
        [1, 2, 3, 4, 5, 6, 7, 8, 9, 10, 11, 12, 13, 14, 15, 16]
    );
    assert_eq!(
        generation_id_from_random(None).unwrap_err().message,
        "failed to generate microVM generation ID"
    );
}
