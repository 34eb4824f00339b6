//! The service, its controller, snapshot transactions and the test guest.

use openvmm::capture::{
    consumed_config_sections, preflight, unbind_platform_blocks, Capture, CaptureAction,
    CaptureEvent, CaptureFacts, ConfigSections, MicrovmSandboxBlockRole, QuiesceReply,
    ScratchPolicy, SnapshotTier, TierPolicy, WriteOutcome,
};
use openvmm::config::{HostOs, MachineProfile};
use openvmm::controller::{
    action_for, check_rpc, servicing_file, ControllerResources, ControllerState, Flow,
    GuestPowerAction, GuestPowerActions, GuestSnapshotAction, HaltReason, MachineAction,
    MachineEvent, ServiceVtl2Params, VmControllerEvent, VmControllerRpc, WorkerEvent,
};
use openvmm::devices::{HostPortProtocol, NicBackend, NicRequest, PortRequest};
use openvmm::guest::{
    report_restore_target, Guest, GuestMode, PortWrite, COMMAND_ECHO, COMMAND_PING, COMMAND_RESTORE_TARGET,
    COMMAND_SHUTDOWN, COMMAND_SNAPSHOT, COMMAND_STATE, DATA_PORT, HVM_START_MAGIC,
    RESTORE_PACKET_SELECT, SHUTDOWN_PORT, SNAPSHOT_PORT, STATUS_PORT,
};
use openvmm::refusal::Refusal;
use openvmm::restore::microvm_restore_packet;
use openvmm::service::{
    build_capabilities, grpc_error, map_grpc, Failure, ModifiedResource, ModifyCodes, ModifyPlan,
    ResourceKind, RootCause, ServiceAction, Status, StatusCode, VmChannels, VmRequest, VmService,
    VmState,
};
use openvmm::snapshot::{SnapshotMemoryExpansionRange, SnapshotMicrovmSandboxBlock};
use openvmm::transport::{
    classify, resolve_transport, Protocol, RpcTransport, TransportFeatures, FD_PASSING_FIRST_BYTE,
    GRPC_FIRST_BYTE, TTRPC_FIRST_BYTE,
};

fn failure(root: RootCause, text: &str) -> Failure {
    Failure {
        root,
        message: text.to_owned(),
    }
}

fn status_text(status: &Option<Status>) -> Option<&str> {
    status.as_ref().map(|status| status.message.as_str())
}

fn reply(actions: &[ServiceAction]) -> Option<&str> {
    match actions {
        [ServiceAction::Reply(status)] => status_text(status),
        other => panic!("not a reply: {other:?}"),
    }
}

fn running_service() -> VmService {
    let mut service = VmService::new();
    assert!(matches!(
        service.handle(VmRequest::CreateVm)[..],
        [ServiceAction::Create]
    ));
    let created = service.created(Ok(VmChannels {
        scsi: true,
        consomme: true,
    }));
    assert_eq!(reply(&created), None);
    assert_eq!(service.build_properties().state, VmState::Paused);
    assert_eq!(reply(&service.resumed(Ok(true))), None);
    assert_eq!(service.build_properties().state, VmState::Running);
    service
}

#[test]
fn requests_need_a_virtual_machine() {
    let mut service = VmService::new();
    for request in [VmRequest::PauseVm, VmRequest::ResumeVm, VmRequest::WaitVm] {
        assert_eq!(reply(&service.handle(request)), Some("VM not created yet"));
    }
    assert_eq!(
        reply(&service.handle(VmRequest::TeardownVm)),
        Some("vm not created")
    );
    let failed = service.created(Err(failure(RootCause::Other, "no hypervisor")));
    assert_eq!(reply(&failed), Some("no hypervisor"));
    assert_eq!(service.build_properties().state, VmState::Uninitialized);
}

#[test]
fn a_second_machine_is_refused() {
    let mut service = running_service();
    assert_eq!(
        reply(&service.handle(VmRequest::CreateVm)),
        Some("VM already created")
    );
}

#[test]
fn a_wait_is_answered_once() {
    let mut service = running_service();
    assert!(service.handle(VmRequest::WaitVm).is_empty());
    assert_eq!(
        reply(&service.handle(VmRequest::WaitVm)),
        Some("wait VM already in flight")
    );
    let halted =
        service.handle_controller_event(VmControllerEvent::GuestHalt("PowerOff".to_owned()));
    assert!(matches!(halted[..], [ServiceAction::AnswerWait(None)]));
    let again =
        service.handle_controller_event(VmControllerEvent::GuestHalt("PowerOff".to_owned()));
    assert!(again.is_empty());
    assert_eq!(reply(&service.handle(VmRequest::WaitVm)), None);
}

#[test]
fn a_halt_outlasts_pause_and_resume() {
    let mut service = running_service();
    service.handle_controller_event(VmControllerEvent::ExitRequested { code: 3 });
    service.paused(Ok(()));
    service.resumed(Ok(true));
    let properties = service.build_properties();
    assert_eq!(properties.state, VmState::Halted);
    assert_eq!(
        properties.halt_reason.unwrap(),
        "guest exited with status 3"
    );
}

#[test]
fn failed_pauses_and_resumes_say_why() {
    let mut service = running_service();
    let pause = service.paused(Err(failure(RootCause::Cancelled, "gone")));
    match &pause[..] {
        [ServiceAction::Reply(Some(status))] => {
            assert_eq!(status.code, StatusCode::Cancelled);
            assert_eq!(status.message, "pause failed: gone");
        }
        other => panic!("unexpected actions: {other:?}"),
    }
    let resume = service.resumed(Err(failure(RootCause::Other, "gone")));
    assert_eq!(reply(&resume), Some("resume failed: gone"));
    assert_eq!(
        reply(&service.resumed(Ok(false))),
        Some("VM did not resume; a state unit failed to start or the VM was already running")
    );
}

#[test]
fn teardown_starts_over() {
    let mut service = running_service();
    service.handle(VmRequest::WaitVm);
    let actions = service.handle(VmRequest::TeardownVm);
    match &actions[..] {
        [ServiceAction::DropDevices, ServiceAction::SendQuit, ServiceAction::JoinController, ServiceAction::CloseEvents, ServiceAction::AnswerWait(status), ServiceAction::Reply(None)] => {
            assert_eq!(status_text(status), Some("VM torn down"))
        }
        other => panic!("unexpected actions: {other:?}"),
    }
    assert_eq!(service.build_properties().state, VmState::Uninitialized);
    assert!(matches!(
        service.handle(VmRequest::CreateVm)[..],
        [ServiceAction::Create]
    ));
}

#[test]
fn quitting_leaves_nothing_behind() {
    let mut service = running_service();
    let actions = service.handle(VmRequest::Quit);
    assert!(matches!(actions.last(), Some(ServiceAction::Leave)));
    let end = service.shut_down();
    assert!(matches!(
        end[..],
        [ServiceAction::JoinRequests, ServiceAction::CloseServer]
    ));
}

#[test]
fn an_exited_guest_is_sent_no_quit() {
    let mut service = running_service();
    let actions = service.handle_controller_event(VmControllerEvent::ExitRequested { code: 3 });
    assert!(matches!(actions[..], [ServiceAction::Leave]));
    assert!(service.left);
    let end = service.shut_down();
    assert!(matches!(
        end[..],
        [
            ServiceAction::JoinController,
            ServiceAction::JoinRequests,
            ServiceAction::DropDevices,
            ServiceAction::CloseServer
        ]
    ));
}

#[test]
fn a_lost_listener_stops_the_machine() {
    let mut service = running_service();
    service.handle(VmRequest::WaitVm);
    let end = service.shut_down();
    match &end[..] {
        [ServiceAction::SendQuit, ServiceAction::JoinController, ServiceAction::AnswerWait(status), ServiceAction::JoinRequests, ServiceAction::DropDevices, ServiceAction::CloseServer] => {
            assert_eq!(status_text(status), Some("server shutting down"))
        }
        other => panic!("unexpected actions: {other:?}"),
    }
}

#[test]
fn a_stopped_worker_takes_the_machine_along() {
    let mut service = running_service();
    service.handle(VmRequest::WaitVm);
    let actions = service.handle_controller_event(VmControllerEvent::WorkerStopped {
        error: Some("crash".to_owned()),
    });
    match &actions[..] {
        [ServiceAction::AnswerWait(status), ServiceAction::DropDevices, ServiceAction::DropController] => {
            assert_eq!(status_text(status), Some("VM worker stopped: crash"))
        }
        other => panic!("unexpected actions: {other:?}"),
    }
    assert_eq!(
        reply(&service.handle(VmRequest::PauseVm)),
        Some("VM not created yet")
    );
}

#[test]
fn a_cancelled_wait_can_be_asked_again() {
    let mut service = running_service();
    service.handle(VmRequest::WaitVm);
    let actions = service.wait_cancelled(failure(RootCause::DeadlineExceeded, "late"));
    match &actions[..] {
        [ServiceAction::AnswerWait(Some(status))] => {
            assert_eq!(status.code, StatusCode::DeadlineExceeded)
        }
        other => panic!("unexpected actions: {other:?}"),
    }
    assert!(service.handle(VmRequest::WaitVm).is_empty());
    service.events_closed();
    assert!(!service.events);
}

#[test]
fn failures_keep_their_code() {
    assert_eq!(
        grpc_error(failure(RootCause::Code(7), "x")).code,
        StatusCode::Code(7)
    );
    assert_eq!(
        grpc_error(failure(RootCause::Other, "x")).code,
        StatusCode::Unknown
    );
    assert_eq!(map_grpc(Ok::<u8, Failure>(3)).unwrap(), 3);
    let error = map_grpc::<u8>(Err(failure(RootCause::Other, "x"))).unwrap_err();
    assert_eq!(error.message, "x");
}

#[test]
fn capabilities_list_what_can_be_changed() {
    let [scsi, vpci, nic] = build_capabilities();
    assert_eq!(scsi.resource, ResourceKind::Scsi);
    assert_eq!(vpci.resource, ResourceKind::Vpci);
    assert!(nic.update && !scsi.update && !vpci.update);
}

const CODES: ModifyCodes = ModifyCodes {
    add: 0,
    remove: 1,
    update: 2,
};

fn consomme_nic() -> ModifiedResource {
    ModifiedResource::NicConfig(NicRequest {
        backend: Some(NicBackend::Consomme {
            cidr: String::new(),
            ports: vec![PortRequest {
                host_port: 80,
                guest_port: 8080,
                protocol: Ok(HostPortProtocol::Tcp),
            }],
        }),
        nic_id: None,
        mac_address: None,
    })
}

#[test]
fn resources_change_as_asked() {
    let service = running_service();
    let disk = |controller: u32, lun: u32| Some(ModifiedResource::ScsiDisk { controller, lun });
    assert!(matches!(
        service
            .modify_resource(0, CODES, disk(0, 5), HostOs::Linux)
            .unwrap(),
        ModifyPlan::AddDisk { lun: 5 }
    ));
    assert!(matches!(
        service
            .modify_resource(1, CODES, disk(9, 255), HostOs::Linux)
            .unwrap(),
        ModifyPlan::RemoveDisk { lun: 255 }
    ));
    assert!(matches!(
        service
            .modify_resource(2, CODES, Some(consomme_nic()), HostOs::Linux)
            .unwrap(),
        ModifyPlan::BindPorts(_)
    ));
    for (kind, resource, message) in [
        (0, None, "missing resource"),
        (0, disk(0, 256), "lun value out of range"),
        (0, disk(1, 0), "controller must be 0"),
        (2, disk(0, 0), "unsupported request type 2"),
        (
            0,
            Some(consomme_nic()),
            "adding a consomme NIC via ModifyResource is not supported; configure it at VM creation time",
        ),
        (-1, Some(consomme_nic()), "unsupported NIC modify type -1"),
        (0, Some(ModifiedResource::VpmemDisk), "vpmem not supported"),
        (
            0,
            Some(ModifiedResource::WindowsDevice),
            "device assignment not supported",
        ),
        (
            0,
            Some(ModifiedResource::Memory),
            "processor and memory resources not supported",
        ),
    ] {
        let refusal = service
            .modify_resource(kind, CODES, resource, HostOs::Linux)
            .unwrap_err();
        assert_eq!(refusal.message, message);
    }
    assert!(VmService::new()
        .modify_resource(0, CODES, disk(0, 0), HostOs::Linux)
        .is_err());
    service.add_pcie_device(true).unwrap();
    assert!(service.add_pcie_device(false).is_err());
    service.remove_pcie_device().unwrap();
    assert!(VmService::new().remove_pcie_device().is_err());
}

const ALL: TransportFeatures = TransportFeatures {
    ttrpc: true,
    grpc: true,
    fd_passing: true,
};

#[test]
fn connections_are_told_apart_by_their_first_byte() {
    for (byte, transport, expected) in [
        (TTRPC_FIRST_BYTE, RpcTransport::Auto, Some(Protocol::Ttrpc)),
        (GRPC_FIRST_BYTE, RpcTransport::Auto, Some(Protocol::Grpc)),
        (GRPC_FIRST_BYTE, RpcTransport::Ttrpc, None),
        (TTRPC_FIRST_BYTE, RpcTransport::Grpc, None),
        (
            FD_PASSING_FIRST_BYTE,
            RpcTransport::Ttrpc,
            Some(Protocol::FdPassing),
        ),
        (0x47, RpcTransport::Auto, None),
    ] {
        assert_eq!(classify(byte, transport, ALL).ok(), expected);
    }
    assert_eq!(
        classify(0x0a, RpcTransport::Auto, ALL).unwrap_err().message,
        "unrecognized or disallowed rpc protocol (first byte 0x0a)"
    );
    assert_eq!(GRPC_FIRST_BYTE, b'P');
}

#[test]
fn a_build_serves_the_transports_it_has() {
    let none = TransportFeatures {
        ttrpc: false,
        grpc: false,
        fd_passing: false,
    };
    assert_eq!(
        resolve_transport(RpcTransport::Grpc, none).unwrap_err().message,
        "unsupported transport grpc"
    );
    assert_eq!(
        resolve_transport(RpcTransport::Auto, none).unwrap(),
        RpcTransport::Auto
    );
    assert_eq!(RpcTransport::Ttrpc.name(), "ttrpc");
}

fn actions() -> GuestPowerActions {
    GuestPowerActions {
        shutdown: GuestPowerAction::Exit(4),
        reset: GuestPowerAction::Reset,
        crash: GuestPowerAction::Halt,
        watchdog: GuestPowerAction::Exit(9),
    }
}

fn controller() -> ControllerState {
    ControllerState {
        quit: false,
        rpc_closed: false,
        guest_power_actions: actions(),
        crash_dump: true,
    }
}

fn halt(reason: HaltReason) -> MachineEvent {
    MachineEvent::Halt {
        reason,
        text: "halted".to_owned(),
    }
}

#[test]
fn power_events_have_their_actions() {
    for (reason, expected) in [
        (HaltReason::PowerOff, GuestPowerAction::Exit(4)),
        (HaltReason::Hibernate, GuestPowerAction::Exit(4)),
        (HaltReason::Reset, GuestPowerAction::Reset),
        (HaltReason::TripleFault, GuestPowerAction::Halt),
        (HaltReason::Watchdog, GuestPowerAction::Exit(9)),
        (HaltReason::Other, GuestPowerAction::Halt),
    ] {
        assert_eq!(action_for(&reason, &actions()), expected);
    }
}

#[test]
fn the_controller_ends_with_a_notice() {
    let mut state = controller();
    let step = state.handle(halt(HaltReason::PowerOff));
    assert_eq!(step.flow, Flow::Leave);
    assert!(matches!(
        step.notice,
        Some(VmControllerEvent::ExitRequested { code: 4 })
    ));
    let step = state.handle(halt(HaltReason::PowerOffWithStatus { code: 77 }));
    assert!(matches!(
        step.notice,
        Some(VmControllerEvent::ExitRequested { code: 77 })
    ));
    let step = state.handle(halt(HaltReason::Reset));
    assert_eq!(step.action, MachineAction::ResetMachine);
    assert_eq!(step.flow, Flow::Continue);
    let step = state.handle(MachineEvent::SnapshotServed(
        GuestSnapshotAction::Terminate { exit_code: 0 },
    ));
    assert_eq!(step.flow, Flow::CleanUp);
}

#[test]
fn a_crash_is_dumped_where_asked() {
    let mut state = controller();
    assert!(state.handle(halt(HaltReason::TripleFault)).dump);
    assert!(!state.handle(halt(HaltReason::Watchdog)).dump);
    state.crash_dump = false;
    assert!(!state.handle(halt(HaltReason::TripleFault)).dump);
}

#[test]
fn a_worker_that_was_told_to_stop_is_no_failure() {
    let mut state = controller();
    match state.handle(MachineEvent::Worker(WorkerEvent::Stopped)).notice {
        Some(VmControllerEvent::WorkerStopped { error }) => {
            assert_eq!(error.unwrap(), "VM worker unexpectedly stopped")
        }
        other => panic!("unexpected notice: {other:?}"),
    }
    assert_eq!(
        state.handle(MachineEvent::RpcClosed).action,
        MachineAction::StopWorker
    );
    assert!(matches!(
        state.handle(MachineEvent::Worker(WorkerEvent::Stopped)).notice,
        Some(VmControllerEvent::WorkerStopped { error: None })
    ));
}

#[test]
fn requests_need_their_resources() {
    let bare = || ControllerResources {
        machine_profile: MachineProfile::Standard,
        vnc_worker: false,
        paravisor_inspector: false,
        paravisor_diag: false,
        memory_backing_file: false,
        vtl2_settings: false,
        ged: false,
        igvm_path: None,
    };
    let microvm = ControllerResources {
        machine_profile: MachineProfile::Microvm,
        ..bare()
    };
    let service = |user_mode_only: bool, igvm: Option<&str>| ServiceVtl2Params {
        user_mode_only,
        igvm: igvm.map(str::to_owned),
        nvme_keepalive: false,
        mana_keepalive: false,
    };
    for (rpc, resources, message) in [
        (
            VmControllerRpc::Restart,
            &microvm,
            "worker restart is unavailable for microVM",
        ),
        (
            VmControllerRpc::SaveSnapshot("d".to_owned()),
            &microvm,
            "disk snapshots are unavailable for microVM",
        ),
        (VmControllerRpc::RestartVnc, &bare(), "no VNC server running"),
        (
            VmControllerRpc::SaveSnapshot("d".to_owned()),
            &bare(),
            "save-snapshot requires --memory-backing-file",
        ),
        (
            VmControllerRpc::ServiceVtl2(service(true, None)),
            &bare(),
            "no paravisor diagnostics client",
        ),
        (
            VmControllerRpc::ServiceVtl2(service(false, None)),
            &bare(),
            "no igvm file loaded",
        ),
        (
            VmControllerRpc::ServiceVtl2(service(false, Some("f"))),
            &bare(),
            "no GED",
        ),
    ] {
        assert_eq!(check_rpc(&rpc, resources).unwrap_err().message, message);
    }
    check_rpc(&VmControllerRpc::Quit, &bare()).unwrap();
    let started = ControllerResources {
        igvm_path: Some("started".to_owned()),
        ..bare()
    };
    assert_eq!(
        servicing_file(&service(false, Some("new")), &started),
        Some("new")
    );
    assert_eq!(
        servicing_file(&service(false, None), &started),
        Some("started")
    );
}

fn facts() -> CaptureFacts {
    CaptureFacts {
        machine_profile: MachineProfile::Microvm,
        source_hypervisor: "kvm".to_owned(),
        block_roles: Vec::new(),
        tier: None,
        scratch_policy: ScratchPolicy::Fresh,
        destination: "/snap".to_owned(),
        destination_absent: true,
        memory_backing_file: Some("/mem".to_owned()),
        memory_handle: Some(Ok(4096)),
        memory: 4096,
        automatic_memory_file: None,
        effective_command_line: Some("console=hvc0".to_owned()),
    }
}

#[test]
fn memory_paths_are_compared_by_component() {
    let same = CaptureFacts {
        automatic_memory_file: Some("/tmp//x".to_owned()),
        memory_backing_file: Some("/tmp/x/".to_owned()),
        ..facts()
    };
    assert!(preflight(&same).is_ok());
}

fn tier(requires_paired_scratch: bool) -> Option<TierPolicy> {
    Some(TierPolicy {
        tier: SnapshotTier::Platform,
        requires_paired_scratch,
        manifest_name: "platform".to_owned(),
        restore_policy: "clone".to_owned(),
    })
}

#[test]
fn captures_are_checked_before_they_begin() {
    assert_eq!(preflight(&facts()).unwrap(), "console=hvc0");
    let blocks = || {
        vec![
            MicrovmSandboxBlockRole::Layer,
            MicrovmSandboxBlockRole::Scratch,
        ]
    };
    for (facts, message) in [
        (
            CaptureFacts {
                machine_profile: MachineProfile::Standard,
                ..facts()
            },
            "guest-requested snapshot capture requires the microVM profile",
        ),
        (
            CaptureFacts {
                source_hypervisor: "hvf".to_owned(),
                ..facts()
            },
            "microVM snapshot source backend must be KVM, MSHV, or WHP",
        ),
        (
            CaptureFacts {
                block_roles: vec![MicrovmSandboxBlockRole::Scratch],
                ..facts()
            },
            "microVM snapshot requires either no blocks or at least one lower layer and scratch",
        ),
        (
            CaptureFacts {
                tier: tier(false),
                ..facts()
            },
            "blockless microVM snapshot capture does not use a tier",
        ),
        (
            CaptureFacts {
                block_roles: blocks(),
                ..facts()
            },
            "microVM sandbox snapshot capture requires a tier",
        ),
        (
            CaptureFacts {
                block_roles: blocks(),
                tier: tier(true),
                ..facts()
            },
            "snapshot tier 'platform' requires paired scratch capture",
        ),
        (
            CaptureFacts {
                destination_absent: false,
                ..facts()
            },
            "snapshot destination already exists or cannot be inspected: /snap",
        ),
        (
            CaptureFacts {
                memory_backing_file: None,
                ..facts()
            },
            "microVM snapshot capture requires file-backed RAM",
        ),
        (
            CaptureFacts {
                memory_handle: None,
                ..facts()
            },
            "microVM snapshot capture lost its exact RAM handle",
        ),
        (
            CaptureFacts {
                memory_handle: Some(Err(Refusal {
                    message: "stat failed".to_owned(),
                })),
                ..facts()
            },
            "stat failed",
        ),
        (
            CaptureFacts {
                memory: 8192,
                ..facts()
            },
            "snapshot RAM handle size does not match the VM",
        ),
        (
            CaptureFacts {
                automatic_memory_file: Some("/other".to_owned()),
                ..facts()
            },
            "automatic snapshot memory backing path changed unexpectedly",
        ),
        (
            CaptureFacts {
                effective_command_line: None,
                ..facts()
            },
            "microVM snapshot capture requires an effective PVH command line",
        ),
    ] {
        assert_eq!(preflight(&facts).unwrap_err().message, message);
    }
}

fn run_capture(mut capture: Capture, events: &[CaptureEvent]) -> Vec<CaptureAction> {
    let mut steps = Vec::new();
    for event in events {
        steps.push(capture.action().unwrap());
        capture.advance(*event);
    }
    assert!(capture.action().is_none(), "{capture:?}");
    steps
}

#[test]
fn a_committed_snapshot_ends_the_source() {
    let mut capture = Capture::start(true, true);
    for event in [
        CaptureEvent::Quiesced(QuiesceReply::Stopped),
        CaptureEvent::Written(WriteOutcome::Committed),
        CaptureEvent::Done(true),
    ] {
        capture.advance(event);
    }
    assert_eq!(
        capture,
        Capture::Ended(GuestSnapshotAction::Terminate { exit_code: 0 })
    );
}

#[test]
fn a_failed_write_rolls_back() {
    let steps = run_capture(
        Capture::start(true, true),
        &[
            CaptureEvent::Quiesced(QuiesceReply::Stopped),
            CaptureEvent::Written(WriteOutcome::Failed),
            CaptureEvent::Done(true),
        ],
    );
    assert_eq!(
        steps,
        vec![
            CaptureAction::Quiesce,
            CaptureAction::Write,
            CaptureAction::Rollback
        ]
    );
}

#[test]
fn a_refused_snapshot_lets_the_guest_go_on() {
    let mut capture = Capture::start(true, false);
    assert_eq!(capture.action(), Some(CaptureAction::ReleaseBoundary));
    capture.advance(CaptureEvent::Done(true));
    assert_eq!(capture, Capture::Ended(GuestSnapshotAction::Continue));

    let mut capture = Capture::start(true, true);
    capture.advance(CaptureEvent::Done(true));
    assert_eq!(capture, Capture::Quiescing);
    capture.advance(CaptureEvent::Quiesced(QuiesceReply::Uncertain));
    assert_eq!(
        capture,
        Capture::Ended(GuestSnapshotAction::Terminate { exit_code: 1 })
    );
}

#[test]
fn platform_snapshots_leave_their_image_unbound() {
    let block = |read_only: bool| SnapshotMicrovmSandboxBlock {
        role: "layer".to_owned(),
        read_only,
        length: 4096,
        identity_kind: "sha256".to_owned(),
        identity: vec![1, 2],
        artifact: String::new(),
    };
    let mut blocks = vec![block(true), block(false)];
    unbind_platform_blocks(&mut blocks, Some(SnapshotTier::WorkloadStart));
    assert_eq!(blocks[0].identity_kind, "sha256");
    unbind_platform_blocks(&mut blocks, Some(SnapshotTier::Platform));
    assert_eq!(blocks[0].identity_kind, "unbound");
    assert!(blocks[0].identity.is_empty());
    assert_eq!(blocks[1].identity, vec![1, 2]);

    assert_eq!(
        consumed_config_sections(Some(SnapshotTier::Platform)),
        ConfigSections {
            invariants: true,
            image_binding: false,
            sandbox: false
        }
    );
    assert!(consumed_config_sections(Some(SnapshotTier::InstanceCheckpoint)).sandbox);
    assert!(!consumed_config_sections(None).invariants);
}

/// What a guest prints, and what it writes elsewhere.
fn output(writes: &[PortWrite]) -> (Vec<u8>, Vec<(u16, u8)>) {
    let mut data = Vec::new();
    let mut other = Vec::new();
    for write in writes {
        if write.port == DATA_PORT {
            data.push(write.value);
        } else {
            other.push((write.port, write.value));
        }
    }
    (data, other)
}

fn command(guest: &mut Guest, byte: u8) -> Vec<PortWrite> {
    assert_eq!(guest.next_port(), Some(STATUS_PORT));
    assert!(guest.step(1).is_empty());
    guest.step(byte)
}

#[test]
fn the_guest_checks_its_start_info() {
    let (guest, writes) = Guest::start(0, 1);
    assert_eq!(guest.mode, GuestMode::Halted);
    let (data, other) = output(&writes);
    assert_eq!(data, b"PVH-START-INFO-INVALID\n");
    assert_eq!(other, vec![(SHUTDOWN_PORT, 0xff)]);
    assert_eq!(guest.next_port(), None);
}

#[test]
fn the_guest_obeys_commands() {
    let (mut guest, writes) = Guest::start(HVM_START_MAGIC, 1);
    assert_eq!(output(&writes).0, b"OPENVMM-PVH-TEST-READY\n");
    assert!(guest.step(0).is_empty());
    assert_eq!(output(&command(&mut guest, COMMAND_PING)).0, b"PONG\n");
    assert_eq!(
        output(&command(&mut guest, COMMAND_ECHO)).0,
        b"\0\r\n\x7f\xffPVH-ECHO\n"
    );
    assert_eq!(output(&command(&mut guest, 99)).0, b"UNKNOWN-COMMAND\n");
    let (data, other) = output(&command(&mut guest, COMMAND_SNAPSHOT));
    assert_eq!(data, b"SNAPSHOT-REQUESTED\nSNAPSHOT-CONTINUED=1\n");
    assert_eq!(other, vec![(SNAPSHOT_PORT, 0)]);
    assert!(guest.step(0).is_empty());
    assert_eq!(output(&command(&mut guest, COMMAND_STATE)).0, b"STATE=1\n");
    command(&mut guest, COMMAND_SHUTDOWN);
    let (_, other) = output(&command(&mut guest, 42));
    assert_eq!(other, vec![(SHUTDOWN_PORT, 42)]);
    assert_eq!(guest.mode, GuestMode::Halted);
}

#[test]
fn the_guest_reads_the_packet_that_the_host_wrote() {
    let ranges = [SnapshotMemoryExpansionRange {
        gpa_start: 0x1000,
        length: 0x2000,
    }];
    for (packet, status, report) in [
        (
            microvm_restore_packet(&[7; 64], Some(4), true, &ranges).unwrap(),
            8,
            "RESTORE-TARGET=4 MEMORY-RANGES=1\n",
        ),
        (
            microvm_restore_packet(&[7; 64], Some(2), false, &[]).unwrap(),
            4,
            "RESTORE-TARGET=2\n",
        ),
    ] {
        let (mut guest, _) = Guest::start(HVM_START_MAGIC, 1);
        command(&mut guest, COMMAND_RESTORE_TARGET);
        let (_, other) = output(&guest.step(status));
        assert_eq!(other, vec![(STATUS_PORT, RESTORE_PACKET_SELECT)]);
        let mut printed = Vec::new();
        for byte in packet {
            printed.extend(output(&guest.step(byte)).0);
        }
        assert_eq!(printed, report.as_bytes());
    }
}

#[test]
fn a_report_reads_its_packet_and_no_more() {
    let packet = microvm_restore_packet(&[7; 64], Some(2), false, &[]).unwrap();
    let mut data = packet.clone();
    data.push(99);
    let (writes, read) = report_restore_target(5, true, 4, &data).unwrap();
    assert_eq!(read, packet.len());
    let (text, other) = output(&writes);
    assert_eq!(text, b"RESTORE-TARGET=2\n");
    assert_eq!(
        other,
        vec![(STATUS_PORT, RESTORE_PACKET_SELECT), (SNAPSHOT_PORT, 2)]
    );
    assert!(report_restore_target(5, false, 4, &packet[..40]).is_none());
    let (writes, read) = report_restore_target(5, false, 0, &data).unwrap();
    assert_eq!(output(&writes).0, b"RESTORE-TARGET=NONE\n");
    assert_eq!(read, 0);
}

#[test]
fn a_damaged_packet_is_reported() {
    let (mut guest, _) = Guest::start(HVM_START_MAGIC, 1);
    command(&mut guest, COMMAND_RESTORE_TARGET);
    guest.step(4);
    assert_eq!(output(&guest.step(0)).0, b"RESTORE-PACKET-INVALID\n");
    command(&mut guest, COMMAND_RESTORE_TARGET);
    assert_eq!(output(&guest.step(0)).0, b"RESTORE-TARGET=NONE\n");
    let (data, other) = output(&guest.panic());
    assert_eq!(data, b"PVH-TEST-PANIC\n");
    assert_eq!(other, vec![(SHUTDOWN_PORT, 0xfe)]);
}
