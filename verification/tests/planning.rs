//! Plans of launched, created, restored and captured machines.

use openvmm::capture::{
    preflight, CaptureFacts, MicrovmSandboxBlockRole, ScratchPolicy, SnapshotTier, TierPolicy,
};
use openvmm::capture_write::{
    capture_inputs, describe_capture, plan_write, recorded_together, scratch_to_capture, CaptureSource, CapturedMachine,
    DiskSave, MemoryTransfer, SaveStep, SectionBits, SnapshotFormat, StoppedMachine,
};
use openvmm::chipset::{BaseChipsetType, IgvmPersonality, IsolationRequest};
use openvmm::config::{
    DeviceVtl, GuestArch, GuestStateEncryptionPolicy, Guid, HostFile, HostOs, LoadMode,
    MachineProfile, MemoryRange, MicrovmNetworkConfig, PcatBootDevice,
    SerialInformation, UefiConsoleMode, VirtioBus, VmgsResource, Vtl2BaseAddressType,
};
use openvmm::console::{microvm_console_attachment_from_cli, ResolvedIdentity, SerialConfigCli};
use openvmm::controller::GuestPowerAction;
use openvmm::create::{
    plan_microvm_console, requested_console, restore_entropy_from_random, BootPlan,
    ConsoleDisconnectPolicy, NicPlans,
};
use openvmm::create_devices::{place_created, scsi_controller_id, CreatedVirtio, CreatedVmbus};
use openvmm::create_plan::DevicesPlan;
use openvmm::create_request::{
    DevicesRequest, RequestedPowerAction, RequestedPowerActions, RequestedProfile,
    ScsiDiskRequest, SecureBootTemplate, SerialPortRequest, SnapshotOptions,
    VirtioConsoleRequest, VirtioFsRequest, VmConfigRequest,
};
use openvmm::create_restore::{
    plan_restoration, RecordedMachine, RestorationFacts, RestorationPlan,
};
use openvmm::devices::FileDisk;
use openvmm::filesystem::{
    microvm_filesystem_attachment, CanonicalRoot, FileFacts, HostRoot, MicrovmFilesystemAccess,
    RootIdentity,
};
use openvmm::guest::{
    write_u32, DATA_PORT, STATUS_RESTORE_AVAILABLE, STATUS_RESTORE_MEMORY_AVAILABLE,
    STATUS_RESTORE_TARGET_AVAILABLE,
};
use openvmm::launch::{console_disconnect_policy, microvm_memory_capacity, VirtioBusOption};
use openvmm::launch_devices::{
    paravisor_vtl, place_devices, virtio_requests, vmbus_devices, NicOffer, VirtioClass,
    VirtioKind, VirtioOptions, VmbusDeviceOptions, VmbusKind,
};
use openvmm::launch_front::{plan_front, FrontOptions, LaunchFront, OptionChecks};
use openvmm::launch_firmware::{
    add_microvm_ports, chipset_features, guest_emulation, microvm_filesystem_slot, plan_tpm,
    port_identity, port_identity_from_random, serial_opening, FirmwareLogLevel, FirmwareOptions, GuestFirmware,
    SerialDevice, SerialOpening, TpmRegisterLayout, TpmVersion,
};
use openvmm::launch_lists::{
    memory_ranges, mounts_at_boot, pcie_device_list, vpci_device_list, PcieKind, PciePorts,
    VpciKind,
};
use openvmm::launch_plan::{
    plan_launch, BootChoices, FirmwareChoices, LaunchChoices, LaunchPlan, OtherDevices,
    VirtioLists,
};
use openvmm::launch_serial::SerialOptions;
use openvmm::network_attachment::{MicrovmNetRequest, MicrovmNetworkOptions, PolicyBinding};
use openvmm::refusal::Refusal;
use openvmm::rpc::SnapshotSaveResponse;
use openvmm::run::{plan_session, RestoreTime, SessionOptions};
use openvmm::smbios::{plain_smbios, zero_guid};
use openvmm::snapshot::{
    SnapshotDevice, SnapshotMachineContract, SnapshotMemoryExpansionRange,
    SnapshotMicrovmFilesystem, SnapshotMicrovmNetwork, SnapshotMicrovmSandboxBlock,
};

fn refusal(text: &str) -> Refusal {
    Refusal {
        message: text.to_owned(),
    }
}

fn no_virtio() -> VirtioOptions {
    VirtioOptions {
        microvm: false,
        microvm_network: false,
        microvm_filesystem_slot: false,
        microvm_filesystem_mounted: false,
        net: Vec::new(),
        host_fs: Vec::new(),
        shared_memory_fs: Vec::new(),
        plan9: Vec::new(),
        vhost_user: Vec::new(),
        fs_bus: VirtioBusOption::Auto,
        persistent_memory: false,
        persistent_memory_port: None,
        entropy: false,
        entropy_bus: VirtioBusOption::Auto,
        entropy_port: None,
        console: false,
        console_port: None,
        vsock: false,
        vsock_bus: None,
        vhost_vsock_cid: None,
    }
}

#[test]
fn virtio_devices_are_listed_in_order() {
    let options = VirtioOptions {
        net: vec![None, Some("rp0".to_owned())],
        plan9: vec![None],
        vhost_user: vec![Some("rp1".to_owned())],
        entropy: true,
        entropy_bus: VirtioBusOption::Pci,
        console: true,
        console_port: Some("rp2".to_owned()),
        vsock: true,
        vhost_vsock_cid: Some(3),
        ..no_virtio()
    };
    let kinds = |host: HostOs| -> Vec<VirtioKind> {
        virtio_requests(&options, host)
            .iter()
            .map(|request| request.kind)
            .collect()
    };
    let common = [
        VirtioKind::Listed(VirtioClass::Net, 0),
        VirtioKind::Listed(VirtioClass::Net, 1),
        VirtioKind::Listed(VirtioClass::Plan9, 0),
        VirtioKind::Entropy,
        VirtioKind::Console,
    ];
    let mut linux = common.to_vec();
    linux.push(VirtioKind::Listed(VirtioClass::VhostUser, 0));
    linux.push(VirtioKind::Vsock);
    linux.push(VirtioKind::VhostVsock { guest_cid: 3 });
    assert_eq!(kinds(HostOs::Linux), linux);
    let mut windows = common.to_vec();
    windows.push(VirtioKind::Vsock);
    assert_eq!(kinds(HostOs::Windows), windows);
}

#[test]
fn virtio_devices_are_placed_once() {
    let options = VirtioOptions {
        net: vec![None, Some("rp0".to_owned())],
        entropy: true,
        entropy_bus: VirtioBusOption::Pci,
        ..no_virtio()
    };
    let requests = virtio_requests(&options, HostOs::Windows);
    let placed = place_devices(&requests, true, HostOs::Windows);
    assert_eq!(
        placed.ports,
        vec![(
            "rp0".to_owned(),
            VirtioKind::Listed(VirtioClass::Net, 1)
        )]
    );
    assert_eq!(placed.buses, vec![(VirtioBus::Pci, VirtioKind::Entropy)]);
    assert_eq!(
        placed.vpci,
        vec![VirtioKind::Listed(VirtioClass::Net, 0)]
    );
    assert_eq!(
        placed.ports.len() + placed.buses.len() + placed.vpci.len(),
        requests.len()
    );
}

#[test]
fn microvm_devices_are_in_memory() {
    let options = VirtioOptions {
        microvm: true,
        microvm_network: true,
        microvm_filesystem_slot: true,
        console: true,
        console_port: Some("rp0".to_owned()),
        ..no_virtio()
    };
    let requests = virtio_requests(&options, HostOs::Linux);
    assert!(requests.iter().all(|request| request.pcie_port.is_none()
        && request.bus == VirtioBusOption::Mmio));
    let placed = place_devices(&requests, false, HostOs::Linux);
    assert_eq!(
        placed.buses,
        vec![
            (VirtioBus::Mmio, VirtioKind::MicrovmNet),
            (VirtioBus::Mmio, VirtioKind::MicrovmFs { dormant: true }),
            (VirtioBus::Mmio, VirtioKind::Console),
        ]
    );
}

#[test]
fn vmbus_devices_are_listed_in_order() {
    let options = VmbusDeviceOptions {
        microvm: false,
        with_hv: true,
        with_get: true,
        vtl2: true,
        no_vmbus: false,
        serial1: true,
        serial2: false,
        nics: vec![
            NicOffer {
                vtl: DeviceVtl::Vtl0,
                underhill: true,
            },
            NicOffer {
                vtl: DeviceVtl::Vtl2,
                underhill: false,
            },
        ],
        default_nic: true,
        gfx: true,
        crash_dump: true,
        configuration_hive: true,
    };
    assert_eq!(
        vmbus_devices(&options),
        vec![
            (DeviceVtl::Vtl2, VmbusKind::Serial1),
            (DeviceVtl::Vtl2, VmbusKind::Nic(1)),
            (DeviceVtl::Vtl0, VmbusKind::DefaultNic),
            (DeviceVtl::Vtl2, VmbusKind::GuestEmulationLog),
            (DeviceVtl::Vtl2, VmbusKind::GuestEmulationDevice),
            (DeviceVtl::Vtl0, VmbusKind::Video),
            (DeviceVtl::Vtl0, VmbusKind::Keyboard),
            (DeviceVtl::Vtl0, VmbusKind::Mouse),
            (DeviceVtl::Vtl2, VmbusKind::CrashDump),
            (DeviceVtl::Vtl0, VmbusKind::ShutdownIc),
            (DeviceVtl::Vtl0, VmbusKind::KeyValueIc),
            (DeviceVtl::Vtl0, VmbusKind::TimeSyncIc),
            (DeviceVtl::Vtl0, VmbusKind::ConfigurationHive),
        ]
    );
    assert_eq!(paravisor_vtl(false), DeviceVtl::Vtl0);
}

fn firmware() -> FirmwareOptions {
    FirmwareOptions {
        arch: GuestArch::X86_64,
        gfx: false,
        vtl2_gfx: false,
        vnc: false,
        pcat: false,
        pcat_boot_order: None,
        uefi: false,
        igvm: false,
        igvm_personality: None,
        guest_watchdog: false,
        serial: [false; 4],
        serial_debugger: [false; 4],
        battery: false,
        no_vmbus: false,
        debugcon: None,
        secure_boot: false,
        secure_boot_template: SecureBootTemplate::Bare,
        custom_variables: false,
        log_level: None,
        vmgs: false,
        uefi_debug: false,
        disable_frontpage: false,
        uefi_console_mode: None,
        default_boot_always_attempt: false,
        force_dma_bounce: false,
        vmbus_redirect: false,
        serial_tx_only: false,
        vmbus_serial1: false,
        vmbus_serial2: false,
        tpm: None,
        hibernation: false,
        test_gsp_by_id: false,
    }
}

#[test]
fn only_firmware_has_a_variable_store() {
    let plain = chipset_features(&firmware());
    assert!(!plain.framebuffer && plain.serial.is_none() && plain.variables.is_none());

    let uefi = chipset_features(&FirmwareOptions {
        uefi: true,
        vmgs: true,
        secure_boot: true,
        secure_boot_template: SecureBootTemplate::MicrosoftWindows,
        serial: [false, true, false, false],
        ..firmware()
    });
    let store = uefi.variables.unwrap();
    assert_eq!(
        store.template,
        Some((GuestArch::X86_64, SecureBootTemplate::MicrosoftWindows))
    );
    assert!(store.persistent && store.secure_boot);
    assert_eq!(store.log_level, FirmwareLogLevel::Default);
    assert_eq!(uefi.serial, Some([false, true, false, false]));

    for (options, has) in [
        (
            FirmwareOptions {
                uefi: true,
                igvm: true,
                ..firmware()
            },
            false,
        ),
        (
            FirmwareOptions {
                igvm: true,
                igvm_personality: Some(IgvmPersonality::Uefi),
                ..firmware()
            },
            true,
        ),
        (
            FirmwareOptions {
                uefi: true,
                pcat: true,
                ..firmware()
            },
            false,
        ),
    ] {
        assert_eq!(chipset_features(&options).variables.is_some(), has);
    }
}

fn machine_guid() -> Guid {
    Guid {
        data1: 0x1234,
        ..zero_guid()
    }
}

#[test]
fn trusted_platform_modules_belong_to_the_paravisor() {
    let plan = plan_tpm(
        Some(TpmVersion::V138),
        false,
        true,
        GuestArch::X86_64,
        machine_guid(),
    )
    .unwrap();
    assert_eq!(plan.bios_guid, machine_guid());
    assert_eq!(plan.version, TpmVersion::V138);
    assert_eq!(plan.register_layout, TpmRegisterLayout::IoPort);
    assert!(plan.persistent);
    assert_eq!(
        plan_tpm(
            Some(TpmVersion::V185),
            false,
            false,
            GuestArch::Aarch64,
            machine_guid(),
        )
            .unwrap()
            .register_layout,
        TpmRegisterLayout::Mmio
    );
    assert!(plan_tpm(
        Some(TpmVersion::V138),
        true,
        true,
        GuestArch::X86_64,
        machine_guid()
    )
    .is_none());
    assert!(plan_tpm(None, false, true, GuestArch::X86_64, machine_guid()).is_none());
}

#[test]
fn guest_emulation_describes_the_firmware() {
    let pcat = guest_emulation(
        &FirmwareOptions {
            pcat: true,
            ..firmware()
        },
        Some(VmgsResource::Ephemeral),
        false,
        plain_smbios(machine_guid()),
    );
    assert_eq!(pcat.smbios.system.uuid, machine_guid());
    match pcat.firmware {
        GuestFirmware::Pcat { boot_order } => {
            assert_eq!(boot_order[0], PcatBootDevice::Optical);
            assert_eq!(boot_order[3], PcatBootDevice::Floppy);
        }
        other => panic!("unexpected firmware: {other:?}"),
    }
    assert!(pcat.no_persistent_secrets);
    let uefi = guest_emulation(
        &FirmwareOptions {
            uefi_console_mode: Some(UefiConsoleMode::Com1),
            log_level: Some(FirmwareLogLevel::Full),
            ..firmware()
        },
        None,
        true,
        plain_smbios(zero_guid()),
    );
    match uefi.firmware {
        GuestFirmware::Uefi {
            enable_vpci_boot,
            console_mode,
            ..
        } => {
            assert!(enable_vpci_boot);
            assert_eq!(console_mode, UefiConsoleMode::Com1);
        }
        other => panic!("unexpected firmware: {other:?}"),
    }
    assert_eq!(uefi.log_level, FirmwareLogLevel::Full);
}

#[test]
fn microvm_ports_join_the_chipset() {
    let mut devices = Vec::new();
    add_microvm_ports(&mut devices);
    let names: Vec<&str> = devices.iter().map(|device| device.name.as_str()).collect();
    assert_eq!(
        names,
        ["microvm-portb", "microvm-shutdown", "microvm-snapshot-request"]
    );
}

#[test]
fn port_identities_agree_with_their_packets() {
    let (id, packet) = port_identity(true, false, None, &[]).unwrap();
    assert_eq!(&packet[..19], "OPENVMM_ENTROPY_V1\0".as_bytes());
    assert_eq!(packet.len(), 19 + 64);
    assert_eq!(&packet[19..35], &id[..]);
    assert_ne!(id, [0; 16]);
    let (other, empty) = port_identity(false, false, None, &[]).unwrap();
    assert!(empty.is_empty());
    assert_ne!(id, other);
    let ranges = [SnapshotMemoryExpansionRange {
        gpa_start: 0x1000,
        length: 0x1000,
    }];
    assert!(port_identity(true, false, None, &ranges).is_err());
}

#[test]
fn port_identities_hold_the_drawn_bytes() {
    let drawn: Vec<u8> = (0..64).collect();
    let (id, packet) =
        port_identity_from_random(true, false, None, &[], Some(drawn.clone())).unwrap();
    assert_eq!(&id[..], &drawn[..16]);
    assert_eq!(&packet[19..], &drawn[..]);
    let (id, packet) =
        port_identity_from_random(false, false, None, &[], Some(drawn[..16].to_vec())).unwrap();
    assert_eq!(&id[..], &drawn[..16]);
    assert!(packet.is_empty());
    assert_eq!(
        port_identity_from_random(true, false, None, &[], None)
            .unwrap_err()
            .message,
        "failed to generate restore entropy"
    );
    assert_eq!(
        port_identity_from_random(false, false, None, &[], None)
            .unwrap_err()
            .message,
        "failed to generate microVM generation ID"
    );
    let packet = restore_entropy_from_random(Some(drawn.clone())).unwrap();
    assert_eq!(&packet[19..], &drawn[..]);
    assert!(restore_entropy_from_random(None).is_err());
}

#[test]
fn the_paravisor_is_told_the_identity() {
    let mut choices = launch_choices(MachineProfile::Standard);
    choices.firmware.tpm = Some(TpmVersion::V185);
    choices.firmware.vmgs = Some(openvmm::launch_boot::ProvisionVmgs::OnEmpty);
    choices.firmware.test_gsp_by_id = true;
    let mut decided = front(front_options(choices.machine)).unwrap_or_else(|e| panic!("{e}"));
    decided.with_get = true;
    let plan = plan_launch(
        choices,
        &decided,
        None,
        HostFile { slot: 1 },
        None,
        plain_smbios(machine_guid()),
    )
    .unwrap();
    assert_eq!(plan.tpm.unwrap().bios_guid, machine_guid());
    let emulation = plan.guest_emulation.unwrap();
    assert_eq!(emulation.smbios.system.uuid, machine_guid());
    assert_eq!(
        emulation.vmgs,
        Some(VmgsResource::Disk(GuestStateEncryptionPolicy::GspById(true)))
    );
    assert!(plan.vmgs.is_none());
}

#[test]
fn new_microvms_have_a_filesystem_slot() {
    assert!(!microvm_filesystem_slot(false, None).unwrap());
    assert!(microvm_filesystem_slot(true, None).unwrap());
    assert!(!microvm_filesystem_slot(true, Some(&recorded_contract())).unwrap());
}

#[test]
fn consoles_do_not_displace_sockets() {
    match serial_opening(
        SerialConfigCli::Pipe("/s".to_owned()),
        true,
        SerialDevice::VirtioConsole,
    ) {
        SerialOpening::Listen {
            path,
            clear,
            remove,
        } => assert!(path == "/s" && !clear && remove),
        other => panic!("unexpected opening: {other:?}"),
    }
    match serial_opening(
        SerialConfigCli::Pipe("/s".to_owned()),
        false,
        SerialDevice::Com1,
    ) {
        SerialOpening::Listen {
            clear, remove, ..
        } => assert!(clear && !remove),
        other => panic!("unexpected opening: {other:?}"),
    }
    assert!(matches!(
        serial_opening(
            SerialConfigCli::Disconnected,
            true,
            SerialDevice::VirtioConsole
        ),
        SerialOpening::Disconnected
    ));
    assert!(matches!(
        serial_opening(SerialConfigCli::Disconnected, false, SerialDevice::Com2),
        SerialOpening::Nothing
    ));
}

#[test]
fn windows_have_a_title() {
    for (title, device, shown) in [
        (None, SerialDevice::VmbusCom1, "VMBUS_COM1 [OpenVMM]"),
        (None, SerialDevice::MicrovmPort, "MICROVM-PORTB [OpenVMM]"),
        (Some("mine"), SerialDevice::Com1, "mine"),
    ] {
        let config =
            SerialConfigCli::NewConsole(Some("xterm".to_owned()), title.map(str::to_owned));
        match serial_opening(config, false, device) {
            SerialOpening::Window { app, title } => {
                assert_eq!(app.as_deref(), Some("xterm"));
                assert_eq!(title, shown);
            }
            other => panic!("unexpected opening: {other:?}"),
        }
    }
}

fn console_request(path: &str) -> VirtioConsoleRequest {
    VirtioConsoleRequest {
        socket_path: path.to_owned(),
        connect: false,
    }
}

fn fs_request() -> VirtioFsRequest {
    VirtioFsRequest {
        tag: "microvm".to_owned(),
        root_path: "/r".to_owned(),
        guest_mount_target: "/mnt".to_owned(),
        read_write: false,
    }
}

#[test]
fn created_devices_follow_the_host() {
    let plan = DevicesPlan {
        virtio_blk: Some((
            FileDisk {
                path: "/d".to_owned(),
                direct: false,
            },
            false,
        )),
        disks: vec![(
            0,
            ScsiDiskRequest {
                host_path: "/disk".to_owned(),
                lun: 0,
                read_only: false,
            },
        )],
        nics: NicPlans {
            nics: Vec::new(),
            bindable: None,
        },
        virtiofs: vec![fs_request()],
        virtio_console: Some(console_request("/c")),
    };
    let linux = place_created(&plan, false, false, false, HostOs::Linux);
    assert_eq!(
        linux.virtio,
        vec![
            (VirtioBus::Mmio, CreatedVirtio::Block),
            (VirtioBus::Mmio, CreatedVirtio::Fs(0)),
            (VirtioBus::Mmio, CreatedVirtio::Console),
        ]
    );
    assert!(linux.vpci.is_empty());
    assert_eq!(linux.vmbus, vec![CreatedVmbus::ScsiController]);
    let windows = place_created(&plan, true, true, false, HostOs::Windows);
    assert_eq!(
        windows.virtio,
        vec![
            (VirtioBus::Mmio, CreatedVirtio::RestoredFs),
            (VirtioBus::Mmio, CreatedVirtio::RestoredConsole),
            (VirtioBus::Mmio, CreatedVirtio::Block),
        ]
    );
    assert_eq!(
        windows.vpci,
        vec![CreatedVirtio::Fs(0), CreatedVirtio::Console]
    );
    assert_eq!(scsi_controller_id().data1, 0xba6163d9);
}

fn recorded_contract() -> SnapshotMachineContract {
    SnapshotMachineContract {
        machine_profile: "microvm".to_owned(),
        microvm_abi_version: 1,
        source_hypervisor: "kvm".to_owned(),
        effective_command_line: "recorded".to_owned(),
        devices: Vec::new(),
        attachments: Vec::new(),
        microvm_network: None,
        microvm_filesystem: None,
        microvm_filesystem_slot_version: 0,
        microvm_sandbox_blocks: Vec::new(),
        memory_expansion_version: 0,
        memory_capacity_bytes: 0,
        state_unit_names: Vec::new(),
        tsc_frequency_hz: 1_000_000_000,
        apic_frequency_hz: None,
        cpu_contract: vec![1],
    }
}

fn host_root() -> HostRoot {
    HostRoot {
        empty: false,
        components: Vec::new(),
        canonical: Ok(CanonicalRoot {
            path: "/canonical".to_owned(),
            facts: FileFacts {
                is_symlink: false,
                is_dir: true,
                is_reparse_point: false,
            },
            identity: RootIdentity::Unix {
                device: 1,
                inode: 2,
            },
        }),
    }
}

/// A snapshot with an exported directory and a disconnected console.
fn furnished_contract() -> SnapshotMachineContract {
    let mut contract = recorded_contract();
    contract.devices.push(SnapshotDevice {
        stable_id: "fs:microvm0".to_owned(),
    });
    contract.devices.push(SnapshotDevice {
        stable_id: "console:microvm-virtio0".to_owned(),
    });
    contract.microvm_filesystem = Some(SnapshotMicrovmFilesystem {
        guest_mount_target: "/mnt".to_owned(),
        access_mode: "ro".to_owned(),
        canonical_host_path: "/elsewhere".to_owned(),
    });
    let (_, filesystem) = microvm_filesystem_attachment(host_root()).unwrap();
    contract.attachments.push(filesystem);
    let (_, _, console) =
        microvm_console_attachment_from_cli(&SerialConfigCli::Disconnected, HostOs::Linux)
            .unwrap();
    contract.attachments.push(console);
    contract
}

fn restoration_facts(contract: Option<SnapshotMachineContract>) -> RestorationFacts {
    RestorationFacts {
        arch: GuestArch::X86_64,
        host: HostOs::Linux,
        manifest: Ok(RecordedMachine {
            memory_size_bytes: 0x1000_0000,
            vp_count: 1,
            machine_contract: contract,
        }),
        hypervisor: Ok("kvm".to_owned()),
        target_check: Ok(()),
        host_root: host_root(),
        prepared: Ok(Some(RestoreTime {
            downtime_ns: 5,
            tsc_frequency_hz: 1_000_000_000,
            apic_frequency_hz: None,
            cpu_contract: vec![1],
        })),
        console: Err(refusal("no console")),
        resolved: ResolvedIdentity {
            path: Err(refusal("no path")),
            v6: None,
        },
        snapshot_path: "/snapshots/one".to_owned(),
    }
}

const RESTORE: SnapshotOptions = SnapshotOptions {
    destination: false,
    restore: true,
    restore_entropy: false,
    quiesce_timeout_ms: 0,
};

fn restore_request(fs: bool) -> VmConfigRequest {
    VmConfigRequest {
        machine_profile: RequestedProfile::Microvm,
        memory_mb: None,
        processor_count: None,
        boot_config: None,
        windows_options: false,
        hvsocket_path: None,
        numa_config: None,
        pcie: None,
        serial_ports: vec![SerialPortRequest {
            port: 0,
            socket_path: "/p".to_owned(),
            connect: false,
        }],
        devices_config: if fs {
            Some(DevicesRequest {
                scsi_disks: Vec::new(),
                vpmem_disks: 0,
                nic_config: Vec::new(),
                windows_device: 0,
                virtiofs_config: vec![fs_request()],
                virtio_blk: None,
                virtio_console: None,
            })
        } else {
            None
        },
        guest_power_actions: Some(RequestedPowerActions {
            shutdown: RequestedPowerAction::Halt,
            reset: RequestedPowerAction::Default,
            crash: RequestedPowerAction::Default,
            watchdog: RequestedPowerAction::Default,
        }),
    }
}

#[test]
fn a_restored_machine_is_the_recorded_one() {
    let plan = plan_restoration(
        RESTORE,
        Some(restore_request(true)),
        restoration_facts(Some(furnished_contract())),
    )
    .unwrap_or_else(|e| panic!("refused: {}", e.message));
    match plan.boot {
        BootPlan::Restored { cmdline } => assert_eq!(cmdline, "recorded"),
        other => panic!("unexpected plan: {other:?}"),
    }
    assert_eq!(plan.mem_size, 0x1000_0000);
    assert_eq!(plan.proc_count, 1);
    assert_eq!(plan.serial_slots, [Some(0), None, None, None]);
    assert_eq!(plan.power_actions.shutdown, GuestPowerAction::Halt);
    let filesystem = plan.filesystem.unwrap();
    assert_eq!(filesystem.root_path, "/canonical");
    assert_eq!(filesystem.config.access, MicrovmFilesystemAccess::ReadOnly);
    let console = plan.console.unwrap();
    assert!(matches!(console.endpoint, SerialConfigCli::Disconnected));
    assert_eq!(
        console.disconnect_policy,
        ConsoleDisconnectPolicy::Discard
    );
    assert_eq!(plan.time.downtime_ns, 5);

    let bare = plan_restoration(RESTORE, None, restoration_facts(Some(recorded_contract())))
        .unwrap_or_else(|e| panic!("refused: {}", e.message));
    assert!(bare.serial_ports.is_empty() && bare.filesystem.is_none() && bare.console.is_none());
}

#[test]
fn restorations_are_refused_in_order() {
    let message = |r: Result<RestorationPlan, Refusal>| match r {
        Ok(_) => String::new(),
        Err(e) => e.message,
    };
    let plan = |facts: RestorationFacts| message(plan_restoration(RESTORE, None, facts));
    let usual = || restoration_facts(Some(recorded_contract()));
    assert_eq!(
        plan(RestorationFacts {
            manifest: Err(refusal("no manifest")),
            ..usual()
        }),
        "no manifest"
    );
    assert_eq!(
        plan(restoration_facts(None)),
        "microVM snapshot is missing its authoritative machine contract"
    );
    let mut foreign = recorded_contract();
    foreign.machine_profile = "standard".to_owned();
    assert_eq!(
        plan(restoration_facts(Some(foreign))),
        "snapshot is not a supported microVM ABI-v1 snapshot"
    );
    assert_eq!(
        plan(RestorationFacts {
            hypervisor: Ok("whp".to_owned()),
            ..usual()
        }),
        "snapshot source hypervisor 'kvm' does not match destination 'whp'"
    );
    assert_eq!(
        plan(restoration_facts(Some(furnished_contract()))),
        "snapshot restore requires a fresh virtiofs_config attachment for fs:microvm0"
    );
    let mut networked = recorded_contract();
    networked.microvm_network = Some(SnapshotMicrovmNetwork {
        profile: "portable".to_owned(),
        guest_ipv4: 0,
        prefix_length: 24,
        gateway_ipv4: 0,
        guest_mac: Vec::new(),
        gateway_mac: Vec::new(),
        egress_policy_encoding_version: 2,
        egress_policy_sha256: Vec::new(),
    });
    assert_eq!(
        plan(restoration_facts(Some(networked))),
        "ttrpc restore does not yet expose microVM network attachments"
    );
    assert_eq!(
        plan(RestorationFacts {
            prepared: Ok(None),
            ..usual()
        }),
        "microVM snapshot is missing its restore-time contract"
    );
    assert_eq!(
        plan(RestorationFacts {
            arch: GuestArch::Aarch64,
            ..usual()
        }),
        "microVM requires an x86-64 guest"
    );
    assert_eq!(
        message(plan_restoration(
            RESTORE,
            Some(restore_request(true)),
            usual()
        )),
        "a restore-time virtiofs_config cannot be added to a snapshot without virtio-fs"
    );
    let mut elsewhere = restore_request(false);
    elsewhere.serial_ports[0].port = 2;
    assert_eq!(
        message(plan_restoration(RESTORE, Some(elsewhere), usual())),
        "microVM ABI version 1 accepts only serial port 0 as its portb endpoint"
    );
    let mut orphaned = recorded_contract();
    orphaned.devices.push(SnapshotDevice {
        stable_id: "console:microvm-virtio0".to_owned(),
    });
    assert_eq!(
        plan(restoration_facts(Some(orphaned))),
        "snapshot microVM console device and attachment inventories disagree"
    );
}

fn format() -> SnapshotFormat {
    SnapshotFormat {
        version: 7,
        openvmm_version: "1.0".to_owned(),
        page_size: 4096,
        architecture: "x86_64".to_owned(),
        format_magic: vec![1, 2, 3, 4],
        saved_state_schema_version: 2,
        saved_state_root_type: "state".to_owned(),
        section_bits: SectionBits {
            invariants: 1,
            image_binding: 2,
            sandbox: 4,
        },
    }
}

const MACHINE: CapturedMachine = CapturedMachine {
    created_at_ns: 99,
    memory: 4096,
    processors: 2,
};

fn tier(tier: SnapshotTier, paired: bool) -> TierPolicy {
    TierPolicy {
        tier,
        requires_paired_scratch: paired,
        manifest_name: "tier-name".to_owned(),
        restore_policy: "tier-policy".to_owned(),
    }
}

fn capture_source(tier: SnapshotTier) -> CaptureSource {
    CaptureSource {
        hypervisor: "kvm".to_owned(),
        command_line: "quiet".to_owned(),
        network: Some(MicrovmNetworkConfig::from_str("10.0.0.2/24").unwrap()),
        egress_policy: None,
        network_attachment: None,
        filesystem_slot: true,
        filesystem: None,
        filesystem_root_path: Some("/srv".to_owned()),
        filesystem_attachment: None,
        console: None,
        control_console: None,
        blocks: Ok(vec![SnapshotMicrovmSandboxBlock {
            role: "layer".to_owned(),
            read_only: true,
            length: 1,
            identity_kind: "sha256".to_owned(),
            identity: vec![9],
            artifact: String::new(),
        }]),
        tier: Some(tier),
        processors: 2,
        memory: 4096,
        memory_capacity: Some(8192),
    }
}

fn stopped_worker() -> SnapshotSaveResponse {
    SnapshotSaveResponse {
        saved_state: vec![1],
        state_unit_names: vec!["partition".to_owned()],
        tsc_frequency_hz: 7,
        apic_frequency_hz: 8,
        capture_wall_clock_ns: 9,
        cpu_contract: vec![1, 2],
    }
}

#[test]
fn captured_contracts_are_made_of_whole_parts() {
    let platform =
        capture_inputs(capture_source(SnapshotTier::Platform), stopped_worker()).unwrap();
    assert!(platform.inputs.network.is_none() && platform.inputs.filesystem.is_none());
    assert!(platform.inputs.filesystem_slot);
    assert_eq!(platform.inputs.blocks[0].identity_kind, "unbound");
    assert!(platform.inputs.blocks[0].identity.is_empty());
    assert_eq!(platform.inputs.state_unit_names, vec!["partition"]);
    assert_eq!(platform.inputs.apic_frequency_hz, Some(8));
    assert_eq!(platform.capture_wall_clock_ns, 9);
    let checkpoint = capture_inputs(
        capture_source(SnapshotTier::InstanceCheckpoint),
        stopped_worker(),
    )
    .unwrap();
    assert_eq!(checkpoint.inputs.blocks[0].identity, vec![9]);
    let lost = CaptureSource {
        blocks: Err(Refusal {
            message: "no blocks".to_owned(),
        }),
        ..capture_source(SnapshotTier::Platform)
    };
    assert_eq!(
        capture_inputs(lost, stopped_worker()).unwrap_err().message,
        "no blocks"
    );
}

#[test]
fn manifests_describe_the_captured_machine() {
    let saved = describe_capture(format(), MACHINE, None, None);
    assert_eq!(saved.version, 7);
    assert_eq!(saved.created_at_ns, 99);
    assert_eq!(saved.memory_size_bytes, 4096);
    assert_eq!(saved.vp_count, 2);
    assert!(saved.machine_contract.is_none() && saved.snapshot_tier.is_empty());
    assert_eq!(saved.consumed_config_sections, 0);
    assert_eq!(saved.state_size_bytes, 0);
    let platform = describe_capture(
        format(),
        MACHINE,
        Some(recorded_contract()),
        Some(tier(SnapshotTier::Platform, false)),
    );
    assert_eq!(platform.snapshot_tier, "tier-name");
    assert_eq!(platform.restore_policy, "tier-policy");
    assert_eq!(platform.consumed_config_sections, 1);
    let checkpoint = describe_capture(
        format(),
        MACHINE,
        Some(recorded_contract()),
        Some(tier(SnapshotTier::InstanceCheckpoint, true)),
    );
    assert_eq!(checkpoint.consumed_config_sections, 7);
    assert_eq!(recorded_together(Some(1), Some(2), Some(3)), Some((1, 2, 3)));
    assert_eq!(recorded_together(Some(1), None::<u8>, Some(3)), None);
}

fn stopped() -> StoppedMachine {
    StoppedMachine {
        machine: MACHINE,
        contract: Ok(recorded_contract()),
        tier: Some(tier(SnapshotTier::WorkloadStart, true)),
        memory_flush: Some(Ok(())),
        block_roles: vec![
            MicrovmSandboxBlockRole::Layer,
            MicrovmSandboxBlockRole::Scratch,
        ],
        scratch_policy: ScratchPolicy::Paired,
        automatic_memory_file: true,
    }
}

#[test]
fn captures_gather_their_files() {
    let plan = plan_write(format(), stopped()).unwrap();
    assert_eq!(plan.scratch, Some(1));
    assert_eq!(plan.memory, MemoryTransfer::Owned);
    assert_eq!(
        plan.manifest.machine_contract.unwrap().effective_command_line,
        "recorded"
    );
    let fresh = plan_write(
        format(),
        StoppedMachine {
            scratch_policy: ScratchPolicy::Fresh,
            automatic_memory_file: false,
            ..stopped()
        },
    )
    .unwrap();
    assert_eq!(fresh.scratch, None);
    assert_eq!(fresh.memory, MemoryTransfer::Copied);
    for (stopped, message) in [
        (
            StoppedMachine {
                contract: Err(refusal("no contract")),
                memory_flush: None,
                ..stopped()
            },
            "no contract",
        ),
        (
            StoppedMachine {
                memory_flush: None,
                ..stopped()
            },
            "microVM snapshot capture lost its exact RAM handle",
        ),
        (
            StoppedMachine {
                memory_flush: Some(Err(refusal("io"))),
                ..stopped()
            },
            "failed to flush snapshot RAM handle",
        ),
        (
            StoppedMachine {
                block_roles: vec![MicrovmSandboxBlockRole::Layer],
                ..stopped()
            },
            "paired snapshot lost its scratch backing handle",
        ),
    ] {
        assert_eq!(
            plan_write(format(), stopped).unwrap_err().message,
            message
        );
    }
    assert_eq!(
        scratch_to_capture(&Vec::new(), ScratchPolicy::Paired).unwrap(),
        None
    );
}

#[test]
fn accepted_captures_have_their_scratch() {
    let roles = || {
        vec![
            MicrovmSandboxBlockRole::Layer,
            MicrovmSandboxBlockRole::Scratch,
        ]
    };
    let facts = CaptureFacts {
        machine_profile: MachineProfile::Microvm,
        source_hypervisor: "kvm".to_owned(),
        block_roles: roles(),
        tier: Some(tier(SnapshotTier::InstanceCheckpoint, true)),
        scratch_policy: ScratchPolicy::Paired,
        destination: "/out".to_owned(),
        destination_absent: true,
        memory_backing_file: Some("/mem".to_owned()),
        memory_handle: Some(Ok(4096)),
        memory: 4096,
        automatic_memory_file: None,
        effective_command_line: Some("line".to_owned()),
    };
    assert_eq!(preflight(&facts).unwrap(), "line");
    assert_eq!(
        scratch_to_capture(&roles(), facts.scratch_policy).unwrap(),
        Some(1)
    );
}

#[test]
fn disk_snapshots_are_saved_step_by_step() {
    let mut save = DiskSave::start();
    for step in [
        SaveStep::Pause,
        SaveStep::Save,
        SaveStep::Flush,
        SaveStep::Write,
    ] {
        assert_eq!(save, DiskSave::Next(step));
        save.advance(true);
    }
    assert_eq!(save, DiskSave::Saved);
    let mut failed = DiskSave::start();
    failed.advance(true);
    failed.advance(false);
    assert_eq!(failed, DiskSave::Failed(SaveStep::Save));
    failed.advance(true);
    assert_eq!(failed, DiskSave::Failed(SaveStep::Save));
    assert_eq!(
        DiskSave::failure(SaveStep::Save),
        Some("failed to save state")
    );
    assert_eq!(DiskSave::failure(SaveStep::Write), None);
}

#[test]
fn sessions_start_as_they_are_asked_to() {
    let plan = plan_session(SessionOptions {
        gfx: true,
        vnc: false,
        gdb: Some(1234),
        paused: true,
        restore_ready: true,
    });
    assert!(plan.vnc_worker && !plan.resume && plan.restore_ready_pending);
    assert_eq!(plan.debugger_port, Some(1234));
    let plain = plan_session(SessionOptions {
        gfx: false,
        vnc: false,
        gdb: None,
        paused: false,
        restore_ready: true,
    });
    assert!(!plain.vnc_worker && plain.resume && !plain.restore_ready_pending);
}

fn front_options(machine: MachineProfile) -> FrontOptions {
    FrontOptions {
        machine,
        arch: GuestArch::X86_64,
        host: HostOs::Linux,
        checks: OptionChecks {
            isolation: Ok(()),
            igvm: Ok(()),
            contract: Ok(()),
            microvm: Ok(()),
            memory: Ok(()),
        },
        network: MicrovmNetworkOptions {
            net: Vec::new(),
            network_profile: None,
            net_tap: false,
            allow_host: 0,
            block_host: 0,
            allow_endpoint: 0,
        },
        binding: PolicyBinding {
            policy: Err(refusal("no policy")),
            snapshot_check: Ok(()),
        },
        mount: None,
        recorded_target_check: Ok(()),
        serial: SerialOptions {
            com1: None,
            com2: None,
            com3: None,
            com4: None,
            vmbus_com1: None,
            vmbus_com2: None,
            debugcon: None,
            virtio_console: None,
        },
        console: None,
        resolved: ResolvedIdentity {
            path: Err(refusal("no path")),
            v6: None,
        },
        snapshot_dir: None,
        processors: 1,
        scsi_sub_channels: 0,
        get: false,
        vtl2: false,
        no_get: false,
    }
}

fn front(options: FrontOptions) -> Result<LaunchFront, String> {
    plan_front(options, None).map_err(|e| e.message)
}

#[test]
fn the_front_of_a_launch_decides_the_fixed_devices() {
    let plain = front(front_options(MachineProfile::Standard)).unwrap_or_else(|e| panic!("{e}"));
    assert_eq!(plain.terminal, Some("ttyS0"));
    assert!(plain.port.is_none() && !plain.filesystem_slot && !plain.with_get);

    let microvm = front(front_options(MachineProfile::Microvm)).unwrap_or_else(|e| panic!("{e}"));
    assert_eq!(microvm.terminal, Some("hvc0"));
    assert!(matches!(microvm.port, Some(SerialConfigCli::Console)));
    assert!(microvm.filesystem_slot && microvm.network.is_none());

    let mut attached = front_options(MachineProfile::Microvm);
    attached.console = Some(Ok(SerialConfigCli::Console));
    let attached = front(attached).unwrap_or_else(|e| panic!("{e}"));
    assert_eq!(attached.terminal, Some("hvc1"));
    assert!(matches!(attached.port, Some(SerialConfigCli::Stderr)));

    let mut paravisor = front_options(MachineProfile::Standard);
    paravisor.vtl2 = true;
    let paravisor = front(paravisor).unwrap_or_else(|e| panic!("{e}"));
    assert!(paravisor.with_get);
    assert_eq!(paravisor.paravisor_vtl, DeviceVtl::Vtl2);
}

#[test]
fn the_front_of_a_launch_refuses_in_order() {
    let stop = |change: &dyn Fn(&mut FrontOptions), machine: MachineProfile| {
        let mut options = front_options(machine);
        change(&mut options);
        match front(options) {
            Ok(_) => String::new(),
            Err(message) => message,
        }
    };
    let standard = MachineProfile::Standard;
    let microvm = MachineProfile::Microvm;
    assert_eq!(
        stop(
            &|o| {
                o.checks.isolation = Err(refusal("isolation"));
                o.processors = 0;
            },
            standard
        ),
        "isolation"
    );
    // The contract of a snapshot is not looked at where there is none.
    assert_eq!(
        stop(&|o| o.checks.contract = Err(refusal("contract")), standard),
        ""
    );
    assert_eq!(
        stop(
            &|o| o.network.net = vec![MicrovmNetRequest::Other, MicrovmNetRequest::Other],
            microvm
        ),
        "microVM permits at most one virtio-net device"
    );
    assert_eq!(
        stop(&|o| o.serial.com2 = Some(SerialConfigCli::Stderr), microvm),
        "microVM does not expose UART, debugcon, or VMBus serial"
    );
    assert_eq!(
        stop(&|o| o.serial.com2 = Some(SerialConfigCli::Console), standard),
        "console already set by ttyS0"
    );
    assert_eq!(
        stop(&|o| o.checks.memory = Err(refusal("memory")), standard),
        "memory"
    );
    assert_eq!(
        stop(&|o| o.processors = 1025, standard),
        "invalid proc count: 1025"
    );
    assert_eq!(
        stop(&|o| o.scsi_sub_channels = 1024, standard),
        "invalid SCSI sub-channel count: requested 1024, max 1023"
    );
}

#[test]
fn fresh_consoles_stay_beside_their_snapshot() {
    let plan = plan_microvm_console(
        &requested_console(&console_request("/snapshots/console.sock")),
        None,
        HostOs::Linux,
    )
    .unwrap();
    assert!(matches!(&plan.endpoint, SerialConfigCli::Pipe(path) if path == "/snapshots/console.sock"));
    assert_eq!(plan.disconnect_policy, ConsoleDisconnectPolicy::Retain);
    let (_, discarding, _) =
        microvm_console_attachment_from_cli(&SerialConfigCli::Disconnected, HostOs::Linux)
            .unwrap();
    for (microvm, attachment, expected) in [
        (true, None, ConsoleDisconnectPolicy::Retain),
        (true, Some(&plan.resource), ConsoleDisconnectPolicy::Retain),
        (true, Some(&discarding), ConsoleDisconnectPolicy::Discard),
        (false, None, ConsoleDisconnectPolicy::Discard),
    ] {
        assert_eq!(console_disconnect_policy(microvm, attachment), expected);
    }
    let connect = VirtioConsoleRequest {
        socket_path: "/peer".to_owned(),
        connect: true,
    };
    assert!(matches!(requested_console(&connect), SerialConfigCli::ConnectPipe(_)));
}

#[test]
fn pcie_and_vpci_devices_are_listed_in_order() {
    let ports = PciePorts {
        remote: vec!["a".to_owned()],
        adapters: vec!["b".to_owned(), "c".to_owned()],
        cxl_test: vec!["d".to_owned()],
        virtio: vec![("e".to_owned(), VirtioKind::Entropy)],
        assigned: vec!["f".to_owned()],
    };
    let mut expected = vec![
        ("a".to_owned(), PcieKind::Remote(0)),
        ("b".to_owned(), PcieKind::Adapter(0)),
        ("c".to_owned(), PcieKind::Adapter(1)),
        ("d".to_owned(), PcieKind::CxlTest(0)),
        ("e".to_owned(), PcieKind::Virtio(VirtioKind::Entropy)),
    ];
    assert_eq!(pcie_device_list(&ports, HostOs::Windows), expected);
    expected.push(("f".to_owned(), PcieKind::Assigned(0)));
    assert_eq!(pcie_device_list(&ports, HostOs::Linux), expected);

    assert_eq!(
        vpci_device_list([true, false, true], &vec![VirtioKind::Vsock]),
        vec![
            (DeviceVtl::Vtl0, VpciKind::Adapter),
            (DeviceVtl::Vtl2, VpciKind::Adapter),
            (DeviceVtl::Vtl0, VpciKind::Virtio(VirtioKind::Vsock)),
        ]
    );
}

#[test]
fn recorded_ranges_are_ranges_of_memory() {
    let ranges = [SnapshotMemoryExpansionRange {
        gpa_start: 0x10_0000,
        length: 0x2000,
    }];
    assert_eq!(
        memory_ranges(&ranges),
        vec![MemoryRange {
            start: 0x10_0000,
            end: 0x10_2000,
        }]
    );
    let mut growing = recorded_contract();
    growing.memory_expansion_version = 1;
    growing.memory_capacity_bytes = 0x8000;
    assert_eq!(microvm_memory_capacity(Some(&growing), Some(1)), Some(0x8000));
    assert_eq!(
        microvm_memory_capacity(Some(&recorded_contract()), Some(1)),
        Some(1)
    );
    assert!(mounts_at_boot(None, true));
    assert!(!mounts_at_boot(Some(&recorded_contract()), true));
    assert!(mounts_at_boot(Some(&furnished_contract()), false));
}

#[test]
fn guests_write_numbers_in_decimal() {
    let mut out = Vec::new();
    write_u32(&mut out, 4_294_967_295);
    let digits: Vec<u8> = out.iter().map(|write| write.value).collect();
    assert_eq!(digits, "4294967295".as_bytes());
    assert!(out.iter().all(|write| write.port == DATA_PORT));
    assert_eq!(
        STATUS_RESTORE_AVAILABLE,
        STATUS_RESTORE_TARGET_AVAILABLE | STATUS_RESTORE_MEMORY_AVAILABLE
    );
}

fn launch_choices(machine: MachineProfile) -> LaunchChoices {
    LaunchChoices {
        machine,
        arch: GuestArch::X86_64,
        host: HostOs::Linux,
        vtl2: false,
        no_alias_map: false,
        no_vmbus: false,
        vmbus_redirect: false,
        isolation: None,
        boot: BootChoices {
            kernel: true,
            uefi_firmware: false,
            cmdline: vec!["quiet".to_owned()],
            restore_snapshot: false,
            igvm: false,
            igvm_personality: None,
            igvm_vtl2_relocation: Vtl2BaseAddressType::File,
            pcat: false,
            pcat_boot_order: None,
            uefi: false,
            hv: true,
            no_hv: false,
            device_tree: false,
            snp_restricted_injection: false,
            has_root_complex: false,
            com3: SerialInformation {
                io_port: 0x3e8,
                irq: 4,
            },
            smbios_requested: false,
            uefi_memory_protections: false,
        },
        firmware: FirmwareChoices {
            gfx: false,
            vtl2_gfx: false,
            vnc: false,
            guest_watchdog: false,
            serial: [true, false, false, false],
            serial_debugger: [false; 4],
            vmbus_serial1: false,
            vmbus_serial2: false,
            serial_tx_only: false,
            battery: false,
            hibernation: false,
            debugcon: None,
            secure_boot: false,
            secure_boot_template: SecureBootTemplate::Bare,
            custom_variables: false,
            log_level: None,
            vmgs: None,
            test_gsp_by_id: false,
            uefi_debug: false,
            disable_frontpage: false,
            uefi_console_mode: None,
            default_boot_always_attempt: false,
            force_dma_bounce: false,
            tpm: None,
        },
        virtio: VirtioLists {
            net: vec![Some("rp0".to_owned()), None],
            host_fs: Vec::new(),
            shared_memory_fs: Vec::new(),
            plan9: Vec::new(),
            vhost_user: Vec::new(),
            fs_bus: VirtioBusOption::Auto,
            persistent_memory: false,
            persistent_memory_port: None,
            entropy: false,
            entropy_bus: VirtioBusOption::Auto,
            entropy_port: None,
            console: false,
            console_port: None,
            vsock: false,
            vsock_bus: None,
            vhost_vsock_cid: None,
        },
        nics: Vec::new(),
        default_nic: false,
        crash_dump: false,
        configuration_hive: false,
        has_guest_nvme: false,
        other: OtherDevices {
            remote_ports: vec!["rp1".to_owned()],
            adapter_ports: Vec::new(),
            cxl_test_ports: Vec::new(),
            assigned_ports: Vec::new(),
            adapters: [false; 3],
        },
    }
}

fn launch(choices: LaunchChoices) -> Result<LaunchPlan, String> {
    let decided = front(front_options(choices.machine)).unwrap_or_else(|e| panic!("{e}"));
    plan_launch(
        choices,
        &decided,
        None,
        HostFile { slot: 1 },
        None,
        plain_smbios(zero_guid()),
    )
    .map_err(|e| e.message)
}

#[test]
fn a_launched_machine_is_planned_whole() {
    let plan = launch(launch_choices(MachineProfile::Standard)).unwrap();
    assert_eq!(plan.chipset, BaseChipsetType::HyperVGen2LinuxDirect);
    match plan.load_mode {
        LoadMode::Linux { cmdline, .. } => {
            assert_eq!(cmdline, "panic=-1 debug pci=off console=ttyS0 quiet");
        }
        other => panic!("unexpected load mode: {other:?}"),
    }
    assert!(plan.with_hv && plan.guest_emulation.is_none());
    assert!(matches!(plan.vmgs, Some(VmgsResource::Ephemeral)));
    assert_eq!(
        plan.buses.pcie,
        vec![
            ("rp1".to_owned(), PcieKind::Remote(0)),
            (
                "rp0".to_owned(),
                PcieKind::Virtio(VirtioKind::Listed(VirtioClass::Net, 0))
            ),
        ]
    );
    assert_eq!(
        plan.buses.virtio,
        vec![(VirtioBus::Pci, VirtioKind::Listed(VirtioClass::Net, 1))]
    );
    assert_eq!(
        plan.buses.vmbus,
        vec![
            (DeviceVtl::Vtl0, VmbusKind::ShutdownIc),
            (DeviceVtl::Vtl0, VmbusKind::KeyValueIc),
            (DeviceVtl::Vtl0, VmbusKind::TimeSyncIc),
        ]
    );
}

#[test]
fn a_launched_microvm_is_plain() {
    let mut choices = launch_choices(MachineProfile::Microvm);
    choices.virtio.net = Vec::new();
    let plan = launch(choices).unwrap();
    assert_eq!(plan.chipset, BaseChipsetType::Microvm);
    assert!(matches!(plan.load_mode, LoadMode::Pvh { .. }));
    assert!(!plan.with_hv && plan.vmgs.is_none() && plan.buses.vmbus.is_empty());
    assert_eq!(
        plan.buses.virtio,
        vec![(VirtioBus::Mmio, VirtioKind::MicrovmFs { dormant: true })]
    );
}

#[test]
fn launches_are_refused_in_order() {
    let stop = |change: &dyn Fn(&mut LaunchChoices), machine: MachineProfile| {
        let mut choices = launch_choices(machine);
        change(&mut choices);
        launch(choices).map(|_| ()).unwrap_err()
    };
    assert_eq!(
        stop(
            &|c| {
                c.boot.kernel = false;
                c.isolation = Some(IsolationRequest::Vbs);
            },
            MachineProfile::Standard
        ),
        "must provide kernel when booting with linux direct"
    );
    assert_eq!(
        stop(
            &|c| c.firmware.vmgs = Some(openvmm::launch_boot::ProvisionVmgs::True),
            MachineProfile::Microvm
        ),
        "microVM does not support VMGS"
    );
    assert_eq!(
        stop(
            &|c| c.isolation = Some(IsolationRequest::Vbs),
            MachineProfile::Standard
        ),
        "VBS isolation is only currently supported with vtl2"
    );
}
