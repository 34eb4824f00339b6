//! Machine contracts, command lines, topologies and creation requests.

use openvmm::config::{
    default_gic_redistributors_base, default_pcat_boot_order, BaseChipsetManifest,
    ChipsetDeviceHandle, Config, DeviceResource, GuestArch, Guid, HostFile, HostOs, LayoutConfig,
    LoadMode, MachineProfile, MemoryRange, MicrovmNetworkConfig, NumaTopology, PcatBootDevice,
    PcieGenericInitiatorConfig, PcieMmioRangeConfig, UefiConsoleMode, VirtioBus,
    VmChipsetCapabilities, VpAssignment,
};
use openvmm::chipset::BaseChipsetType;
use openvmm::controller::GuestPowerAction;
use openvmm::create::{
    assign_serial_ports, check_snapshot_destination, create_config, disk_unit, load_mode,
    plan_boot, plan_memory, plan_power_actions, plan_processors, plan_restore_entropy, uses_vpci,
    BootPlan, DestinationFacts, MachineParts, SerialPresence,
};
use openvmm::create_plan::{plan_creation, CreationFacts};
use openvmm::create_request::{
    authoritative_contract, check_snapshot_options, check_source_hypervisor, select_profile,
    take_restore_request, BootRequest, DevicesRequest, RequestedPowerAction, RequestedPowerActions,
    RequestedProfile, ScsiDiskRequest, SecureBootTemplate, SerialPortRequest, SnapshotOptions,
    VirtioFsRequest, VmConfigRequest,
};
use openvmm::machine::validate_machine_config;
use openvmm::microvm::{
    append_microvm_device_discovery, append_microvm_virtio_blk_discovery,
    build_console_command_line, build_microvm_command_line, microvm_virtio_mmio_bases,
    microvm_virtio_net_irq, validate_reservations,
};
use openvmm::microvm_network::InvalidMicrovmNetworkConfig;
use openvmm::net::Ipv4Address;
use openvmm::numa::{
    build_numa_topology, single_node_topology, NodeMemoryRequest, NumaDistanceRequest,
    NumaNodeRequest, NumaRequest, MB,
};
use openvmm::pcie::{
    build_pcie_topology, build_switch_list, pcie_mmio_range_config, GenericPcieSwitchCli,
    PcieAttachmentKind, PcieDeviceRef, PciePortRequest, PcieRootComplexRequest,
    PcieTopologyRequest,
};
use openvmm::refusal::Refusal;

const BASE: &str = "earlycon=xe9 console=hvc0 reboot=t panic=-1";

fn args(list: &[&str]) -> Vec<String> {
    list.iter().map(|arg| arg.to_string()).collect()
}

#[test]
fn microvm_command_lines_are_built_on_their_base() {
    assert_eq!(
        build_microvm_command_line(&args(&["a=1", "", "b"])).unwrap(),
        format!("{BASE} a=1 b")
    );
    assert!(build_console_command_line(&args(&[]), true)
        .unwrap()
        .contains("hvc1"));
    for reserved in [
        "console=ttyS0",
        "x earlycon=xe9",
        "virtio_mmio.device=0x1000@0:1",
        "virtnet_ip=1",
    ] {
        assert_eq!(
            build_microvm_command_line(&args(&[reserved]))
                .unwrap_err()
                .message,
            "microVM kernel command line cannot override earlycon, console, or virtio-mmio discovery"
        );
    }
    assert_eq!(
        build_microvm_command_line(&args(&["a\0b"]))
            .unwrap_err()
            .message,
        "microVM kernel command line contains an embedded NUL"
    );
    let long = "x".repeat(65536);
    assert_eq!(
        build_microvm_command_line(&[long]).unwrap_err().message,
        "microVM kernel command line exceeds the 64-KiB ABI limit"
    );
}

#[test]
fn block_discovery_is_announced_once() {
    let mut line = build_microvm_command_line(&[]).unwrap();
    append_microvm_virtio_blk_discovery(&mut line).unwrap();
    assert_eq!(
        line,
        format!("{BASE} virtio_mmio.device=0x1000@0xd0003000:4")
    );
    assert_eq!(
        append_microvm_virtio_blk_discovery(&mut line)
            .unwrap_err()
            .message,
        "microVM command line already contains virtio-mmio discovery"
    );
}

#[test]
fn virtio_windows_do_not_overlap() {
    let bases = microvm_virtio_mmio_bases();
    validate_reservations(&bases, 0x1000).unwrap();
    assert!(validate_reservations(&bases, 0x1001).is_err());
    assert_eq!(
        microvm_virtio_net_irq(Some("kvm"), HostOs::Windows).unwrap(),
        10
    );
    assert_eq!(
        microvm_virtio_net_irq(Some("whp"), HostOs::Linux).unwrap(),
        5
    );
    assert!(microvm_virtio_net_irq(Some("hvf"), HostOs::Linux).is_err());
}

#[test]
fn network_identities_derive_their_gateway() {
    let config = MicrovmNetworkConfig::from_str("10.0.0.2/24").unwrap();
    assert_eq!(
        config.derived_gateway_ipv4,
        Ipv4Address::parse("10.0.0.1").unwrap()
    );
    assert_eq!(config.guest_mac.octets, [0x52, 0x54, 0, 0, 0, 2]);
    assert_eq!(config.netmask(), Ipv4Address::parse("255.255.255.0").unwrap());
    assert_eq!(
        config.command_line_fragment(),
        config.command_line_fragment_with_dns(false)
    );
    assert_eq!(
        config.command_line_fragment_with_dns(false),
        "virtnet_ip=10.0.0.2 virtnet_mask=255.255.255.0 virtnet_gw=10.0.0.1"
    );
    for (text, expected) in [
        ("10.0.0.2", InvalidMicrovmNetworkConfig::InvalidFormat),
        (
            "10.0.0/24",
            InvalidMicrovmNetworkConfig::InvalidAddress("10.0.0".to_owned()),
        ),
        (
            "10.0.0.2/x",
            InvalidMicrovmNetworkConfig::InvalidPrefix("x".to_owned()),
        ),
        (
            "10.0.0.2/31",
            InvalidMicrovmNetworkConfig::PrefixOutOfRange(31),
        ),
        (
            "10.0.0.0/24",
            InvalidMicrovmNetworkConfig::NetworkAddress(Ipv4Address::parse("10.0.0.0").unwrap()),
        ),
        (
            "10.0.0.255/24",
            InvalidMicrovmNetworkConfig::BroadcastAddress(
                Ipv4Address::parse("10.0.0.255").unwrap(),
            ),
        ),
        (
            "10.0.0.1/24",
            InvalidMicrovmNetworkConfig::GatewayCollision(Ipv4Address::parse("10.0.0.1").unwrap()),
        ),
    ] {
        let error = MicrovmNetworkConfig::from_str(text).unwrap_err();
        assert_eq!(error.message(), expected.message());
    }
}

fn microvm_devices() -> Vec<ChipsetDeviceHandle> {
    [
        ("ioapic", "generic-ioapic"),
        ("microvm-portb", "microvm-portb"),
        ("microvm-shutdown", "microvm-shutdown"),
        ("microvm-snapshot-request", "microvm-snapshot-request"),
        ("pic", "pic"),
        ("pit", "pit"),
    ]
    .iter()
    .map(|(name, id)| ChipsetDeviceHandle {
        name: name.to_string(),
        resource: DeviceResource { id: id.to_string() },
    })
    .collect()
}

fn microvm_parts(devices: &[&str]) -> MachineParts {
    MachineParts {
        machine_profile: MachineProfile::Microvm,
        load_mode: LoadMode::Pvh {
            kernel: HostFile { slot: 3 },
            initrd: None,
            cmdline: BASE.to_owned(),
        },
        root_complexes: Vec::new(),
        pcie_devices: Vec::new(),
        switches: Vec::new(),
        generic_initiators: Vec::new(),
        numa: single_node_topology(256 * MB),
        proc_count: 1,
        chipset: BaseChipsetManifest {
            with_generic_cmos_rtc: true,
            with_other_devices: false,
        },
        chipset_devices: microvm_devices(),
        pci_chipset_devices: Vec::new(),
        isa_dma_controller: None,
        chipset_capabilities: VmChipsetCapabilities {
            with_ioapic: true,
            with_pic: true,
            with_pit: true,
            with_generic_isa_dma: false,
            with_psp: false,
            with_guest_watchdog: false,
            with_i440bx_host_pci_bridge: false,
        },
        layout: LayoutConfig {
            chipset_low_mmio_size: 0x4000_0000,
            chipset_high_mmio_size: 0,
            vtl2_chipset_mmio_size: 0,
        },
        virtio_devices: devices
            .iter()
            .map(|id| (VirtioBus::Mmio, DeviceResource { id: id.to_string() }))
            .collect(),
        vpci_devices: Vec::new(),
        vmbus_devices: Vec::new(),
        hvsocket_path: None,
        restored: false,
    }
}

fn microvm_config() -> Config {
    create_config(microvm_parts(&["virtio-blk"]), HostOs::Linux).unwrap()
}

fn command_line(config: &Config) -> &str {
    match &config.load_mode {
        LoadMode::Pvh { cmdline, .. } => cmdline,
        other => panic!("not a direct boot: {other:?}"),
    }
}

#[test]
fn a_created_microvm_announces_its_devices() {
    let config = microvm_config();
    assert_eq!(
        command_line(&config),
        format!("{BASE} virtio_mmio.device=0x1000@0xd0003000:4")
    );
    assert!(config.vmbus.is_none() && !config.hypervisor.with_hv);
    validate_machine_config(&config, Some("kvm"), HostOs::Linux).unwrap();
}

#[test]
fn a_microvm_is_on_its_allowlist() {
    type Change = fn(&mut Config);
    let changes: [(Change, &str); 12] = [
        (
            |c| c.processor_topology.proc_count = 2,
            "microVM ABI version 1 requires exactly one vCPU",
        ),
        (
            |c| c.processor_topology.vps_per_socket = Some(1),
            "microVM ABI version 1 requires its fixed x86 APIC topology",
        ),
        (
            |c| c.numa.nodes.clear(),
            "microVM ABI version 1 requires a single NUMA node",
        ),
        (
            |c| c.hypervisor.with_hv = true,
            "microVM ABI version 1 does not support Hyper-V enlightenments, VTL2, isolation, or nested virtualization",
        ),
        (
            |c| c.chipset.with_other_devices = true,
            "microVM ABI version 1 chipset is not the microVM allowlist",
        ),
        (
            |c| c.chipset_capabilities.with_psp = true,
            "microVM ABI version 1 chipset capabilities do not match the fixed profile",
        ),
        (
            |c| c.chipset_devices.truncate(5),
            "microVM ABI version 1 chipset-device inventory is not exact",
        ),
        (
            |c| c.vmbus = Some(Default::default()),
            "microVM ABI version 1 does not support VMBus",
        ),
        (
            |c| c.framebuffer = true,
            "microVM ABI version 1 does not support graphics or VGA firmware",
        ),
        (
            |c| c.debugger_rpc = true,
            "microVM ABI version 1 does not support firmware or debugger resources",
        ),
        (
            |c| c.rtc_delta_milliseconds = 1,
            "microVM ABI version 1 RTC must be anchored directly to UTC",
        ),
        (
            |c| c.layout.chipset_high_mmio_size = 1,
            "microVM ABI version 1 requires the fixed 3-GiB/4-GiB RAM split",
        ),
    ];
    for (change, message) in changes {
        let mut config = microvm_config();
        change(&mut config);
        assert_eq!(
            validate_machine_config(&config, None, HostOs::Linux)
                .unwrap_err()
                .message,
            message
        );
    }
    assert_eq!(
        validate_machine_config(&microvm_config(), Some("mshv"), HostOs::Linux)
            .unwrap_err()
            .message,
        "microVM ABI version 1 requires the KVM or WHP hypervisor"
    );
    let mut standard = microvm_config();
    standard.machine_profile = MachineProfile::Standard;
    assert_eq!(
        validate_machine_config(&standard, None, HostOs::Linux)
            .unwrap_err()
            .message,
        "PVH load mode requires the microVM profile"
    );
}

#[test]
fn microvm_devices_have_fixed_slots() {
    let mut config = microvm_config();
    config.virtio_devices.clear();
    for id in ["virtio-net", "virtio-console"] {
        config
            .virtio_devices
            .push((VirtioBus::Mmio, DeviceResource { id: id.to_owned() }));
    }
    config.load_mode = LoadMode::Pvh {
        kernel: HostFile { slot: 3 },
        initrd: None,
        cmdline: "a".to_owned(),
    };
    append_microvm_device_discovery(&mut config, Some("whp"), HostOs::Linux).unwrap();
    assert_eq!(
        command_line(&config),
        "a virtio_mmio.device=0x1000@0xd0000000:5 virtio_mmio.device=0x1000@0xd0002000:7"
    );
    config.load_mode = LoadMode::Nothing;
    assert_eq!(
        append_microvm_device_discovery(&mut config, None, HostOs::Linux)
            .unwrap_err()
            .message,
        "microVM discovery requires PVH load mode"
    );
    assert_eq!(
        create_config(microvm_parts(&["virtio-rng"]), HostOs::Linux)
            .unwrap_err()
            .message,
        "unsupported microVM virtio device 'virtio-rng'"
    );
}

#[test]
fn a_microvm_has_no_socket_relay() {
    let parts = MachineParts {
        hvsocket_path: Some("/s".to_owned()),
        ..microvm_parts(&[])
    };
    assert_eq!(
        create_config(parts, HostOs::Linux).unwrap_err().message,
        "microVM ABI version 1 does not support hvsocket"
    );
}

#[test]
fn standard_machines_have_vmbus() {
    let parts = MachineParts {
        machine_profile: MachineProfile::Standard,
        load_mode: LoadMode::Nothing,
        hvsocket_path: Some("/s".to_owned()),
        ..microvm_parts(&[])
    };
    let config = create_config(parts, HostOs::Linux).unwrap();
    let vmbus = config.vmbus.unwrap();
    assert!(vmbus.vsock_listener);
    assert_eq!(vmbus.vsock_path.unwrap(), "/s");
    assert!(config.hypervisor.with_hv);
}

fn node_memory(memory_mb: u64) -> NodeMemoryRequest {
    NodeMemoryRequest {
        memory_mb,
        host_numa_node: Some(1),
        prefetch: true,
        private_memory: false,
        transparent_hugepages: None,
        hugepages: false,
        hugepage_size_bytes: None,
    }
}

#[test]
fn memory_is_spread_over_its_nodes() {
    let request = NumaRequest {
        nodes: vec![
            NumaNodeRequest {
                memory: Some(node_memory(512)),
                vps: None,
            },
            NumaNodeRequest {
                memory: None,
                vps: Some(vec![1, 2]),
            },
        ],
        distances: vec![NumaDistanceRequest {
            src: 0,
            dst: 1,
            distance: 20,
        }],
    };
    let (topology, size) = build_numa_topology(&request).unwrap();
    assert_eq!(size, 512 * MB);
    assert_eq!(topology.nodes[0].mem.unwrap().mem_size, 512 * MB);
    assert!(matches!(topology.nodes[1].vps, VpAssignment::Explicit(_)));
    assert_eq!(topology.distances[0].distance, 20);

    for (nodes, distance, message) in [
        (vec![u64::MAX], 10, "invalid node memory size"),
        (
            vec![u64::MAX / MB, u64::MAX / MB],
            10,
            "total memory overflow",
        ),
        (vec![1], 256, "distance out of range"),
    ] {
        let request = NumaRequest {
            nodes: nodes
                .into_iter()
                .map(|mb| NumaNodeRequest {
                    memory: Some(node_memory(mb)),
                    vps: None,
                })
                .collect(),
            distances: vec![NumaDistanceRequest {
                src: 0,
                dst: 0,
                distance,
            }],
        };
        assert_eq!(build_numa_topology(&request).unwrap_err().message, message);
    }
}

fn port(name: &str, attached: Option<Option<Box<PcieAttachmentKind>>>) -> PciePortRequest {
    PciePortRequest {
        name: name.to_owned(),
        hotplug: false,
        attached,
        devfn: None,
        acs_capabilities_supported: None,
    }
}

fn device(index: u32) -> Option<Option<Box<PcieAttachmentKind>>> {
    Some(Some(Box::new(PcieAttachmentKind::Device(PcieDeviceRef {
        index,
    }))))
}

fn topology(root_ports: Vec<PciePortRequest>) -> PcieTopologyRequest {
    PcieTopologyRequest {
        root_complexes: vec![PcieRootComplexRequest {
            name: "rc0".to_owned(),
            segment: 0,
            start_bus: 0,
            end_bus: 255,
            low_mmio: 0x10_0000,
            high_mmio: 0x4000_0000,
            low_mmio_base: None,
            high_mmio_base: Some(0x80_0000_0000),
            preserve_bars: false,
            node: Some(0),
            root_ports,
        }],
        generic_initiators: vec![PcieGenericInitiatorConfig {
            port_name: "rp0".to_owned(),
            node: 1,
        }],
    }
}

#[test]
fn pcie_topologies_keep_devices_on_their_ports() {
    let switch = PcieAttachmentKind::Switch {
        name: "sw0".to_owned(),
        downstream_ports: vec![port("sw0-d0", device(7)), port("sw0-d1", None)],
    };
    let built = build_pcie_topology(topology(vec![
        port("rp0", device(3)),
        port("rp1", Some(Some(Box::new(switch)))),
    ]))
    .unwrap();
    assert_eq!(built.root_complexes[0].ports.len(), 2);
    assert_eq!(
        built.root_complexes[0].low_mmio,
        PcieMmioRangeConfig::Dynamic { size: 0x10_0000 }
    );
    assert_eq!(built.switches[0].parent_port, "rp1");
    assert_eq!(built.switches[0].ports.len(), 2);
    let devices: Vec<(&str, u32)> = built
        .devices
        .iter()
        .map(|(port, device)| (port.as_str(), device.index))
        .collect();
    assert_eq!(devices, vec![("rp0", 3), ("sw0-d0", 7)]);
    assert_eq!(built.generic_initiators[0].node, 1);
}

#[test]
fn pcie_topologies_refuse_what_does_not_fit() {
    let mut wide = topology(Vec::new());
    wide.root_complexes[0].segment = 65536;
    assert_eq!(
        build_pcie_topology(wide).unwrap_err().message,
        "segment out of range"
    );
    let mut bus = topology(Vec::new());
    bus.root_complexes[0].end_bus = 256;
    assert_eq!(
        build_pcie_topology(bus).unwrap_err().message,
        "end_bus out of range"
    );
    assert_eq!(
        build_pcie_topology(topology(vec![port("rp0", Some(None))]))
            .unwrap_err()
            .message,
        "missing attachment kind"
    );
    let mut odd = port("rp0", None);
    odd.devfn = Some(256);
    assert_eq!(
        build_pcie_topology(topology(vec![odd])).unwrap_err().message,
        "devfn out of range"
    );
    assert_eq!(
        pcie_mmio_range_config(0x1000, Some(u64::MAX))
            .unwrap_err()
            .message,
        "MMIO base + size overflows"
    );
    assert_eq!(
        pcie_mmio_range_config(0x1000, Some(1)).unwrap_err().message,
        "invalid MMIO range"
    );
    assert_eq!(
        pcie_mmio_range_config(0x1000, Some(0x2000)).unwrap(),
        PcieMmioRangeConfig::Fixed(MemoryRange::try_new(0x2000, 0x3000).unwrap())
    );
}

#[test]
fn generic_switches_number_their_ports() {
    let switches = build_switch_list(&[GenericPcieSwitchCli {
        name: "sw".to_owned(),
        port_name: "rp0".to_owned(),
        num_downstream_ports: 2,
        hotplug: true,
        acs_capabilities_supported: None,
        pasid: false,
    }]);
    assert_eq!(switches[0].ports[1].name, "sw-downstream-1");
    assert!(switches[0].ports[0].hotplug);
}

const NO_SNAPSHOT: SnapshotOptions = SnapshotOptions {
    destination: false,
    restore: false,
    restore_entropy: false,
    quiesce_timeout_ms: 0,
};

#[test]
fn snapshot_options_exclude_each_other() {
    assert_eq!(check_snapshot_options(NO_SNAPSHOT).unwrap(), 5_000);
    let capture = SnapshotOptions {
        destination: true,
        quiesce_timeout_ms: 7,
        ..NO_SNAPSHOT
    };
    assert_eq!(check_snapshot_options(capture).unwrap(), 7);
    for (options, message) in [
        (
            SnapshotOptions {
                restore: true,
                ..capture
            },
            "snapshot capture and restore paths are mutually exclusive",
        ),
        (
            SnapshotOptions {
                restore_entropy: true,
                ..NO_SNAPSHOT
            },
            "restore_entropy requires restore_path",
        ),
        (
            SnapshotOptions {
                quiesce_timeout_ms: 1,
                ..NO_SNAPSHOT
            },
            "quiesce_timeout_ms requires destination_path",
        ),
    ] {
        assert_eq!(
            check_snapshot_options(options).unwrap_err().message,
            message
        );
    }
    assert!(authoritative_contract(None).is_err());
    check_source_hypervisor("kvm", "kvm").unwrap();
    assert_eq!(
        check_source_hypervisor("kvm", "whp").unwrap_err().message,
        "snapshot source hypervisor 'kvm' does not match destination 'whp'"
    );
    assert_eq!(
        select_profile(RequestedProfile::Unknown(9), NO_SNAPSHOT)
            .unwrap_err()
            .message,
        "unknown machine profile 9"
    );
    assert_eq!(
        select_profile(RequestedProfile::Standard, capture)
            .unwrap_err()
            .message,
        "microVM snapshot options require the microVM machine profile"
    );
}

fn request(profile: RequestedProfile, boot: BootRequest) -> VmConfigRequest {
    VmConfigRequest {
        machine_profile: profile,
        memory_mb: Some(256),
        processor_count: Some(1),
        boot_config: Some(boot),
        windows_options: false,
        hvsocket_path: None,
        numa_config: None,
        pcie: None,
        serial_ports: Vec::new(),
        devices_config: None,
        guest_power_actions: None,
    }
}

fn pvh() -> BootRequest {
    BootRequest::PvhBoot {
        kernel_path: "/vmlinux".to_owned(),
        initrd_path: String::new(),
        kernel_cmdline: "quiet".to_owned(),
    }
}

fn creation_facts() -> CreationFacts {
    CreationFacts {
        arch: GuestArch::X86_64,
        host: HostOs::Linux,
        target_check: Ok(()),
    }
}

#[test]
fn a_microvm_is_planned_from_its_request() {
    let plan = plan_creation(
        NO_SNAPSHOT,
        Some(request(RequestedProfile::Microvm, pvh())),
        &creation_facts(),
    )
    .unwrap();
    assert_eq!(plan.machine_profile, MachineProfile::Microvm);
    assert_eq!(plan.mem_size, 256 * MB);
    assert_eq!(plan.proc_count, 1);
    match plan.boot {
        BootPlan::Pvh {
            kernel_path,
            initrd_path,
            cmdline,
        } => {
            assert_eq!(kernel_path, "/vmlinux");
            assert_eq!(initrd_path, None);
            assert_eq!(cmdline, format!("{BASE} quiet"));
        }
        other => panic!("unexpected plan: {other:?}"),
    }
}

#[test]
fn microvm_requests_stay_minimal() {
    let microvm = || request(RequestedProfile::Microvm, pvh());
    let mut arm = creation_facts();
    arm.arch = GuestArch::Aarch64;
    assert_eq!(
        plan_creation(NO_SNAPSHOT, Some(microvm()), &arm)
            .unwrap_err()
            .message,
        "microVM requires an x86-64 guest"
    );
    for (request, message) in [
        (
            VmConfigRequest {
                processor_count: Some(2),
                ..microvm()
            },
            "microVM ABI version 1 requires exactly one vCPU",
        ),
        (
            VmConfigRequest {
                pcie: Some(topology(Vec::new())),
                ..microvm()
            },
            "microVM ABI version 1 does not support PCIe",
        ),
        (
            VmConfigRequest {
                hvsocket_path: Some("/s".to_owned()),
                ..microvm()
            },
            "microVM ABI version 1 does not support hvsocket",
        ),
        (
            VmConfigRequest {
                serial_ports: vec![SerialPortRequest {
                    port: 1,
                    socket_path: "/p".to_owned(),
                    connect: false,
                }],
                ..microvm()
            },
            "microVM ABI version 1 accepts only serial port 0 as its portb endpoint",
        ),
        (
            request(
                RequestedProfile::Microvm,
                BootRequest::DirectBoot {
                    kernel_path: "/k".to_owned(),
                    initrd_path: String::new(),
                    kernel_cmdline: String::new(),
                },
            ),
            "the microVM profile requires pvh_boot",
        ),
        (
            request(RequestedProfile::Standard, pvh()),
            "pvh_boot requires the microVM profile",
        ),
    ] {
        assert_eq!(
            plan_creation(NO_SNAPSHOT, Some(request), &creation_facts())
                .unwrap_err()
                .message,
            message
        );
    }
}

#[test]
fn firmware_writes_to_the_first_serial_port() {
    let uefi = BootRequest::Uefi {
        firmware_path: "/fw".to_owned(),
        secure_boot_enabled: true,
        secure_boot_template: SecureBootTemplate::MicrosoftWindows,
    };
    let plan = plan_boot(
        Some(uefi),
        false,
        SerialPresence {
            any: true,
            com1: true,
        },
        false,
        GuestArch::X86_64,
    )
    .unwrap();
    assert_eq!(plan.chipset_type(), BaseChipsetType::HypervGen2Uefi);
    match plan {
        BootPlan::Uefi {
            enable_serial,
            uefi_console_mode,
            template,
            ..
        } => {
            assert!(enable_serial);
            assert_eq!(uefi_console_mode, Some(UefiConsoleMode::Com1));
            assert_eq!(
                template,
                Some((GuestArch::X86_64, SecureBootTemplate::MicrosoftWindows))
            );
        }
        other => panic!("unexpected plan: {other:?}"),
    }
    let linux = BootPlan::Linux {
        kernel_path: "/k".to_owned(),
        initrd_path: None,
        cmdline: "x".to_owned(),
    };
    let guid = Guid {
        data1: 0,
        data2: 0,
        data3: 0,
        data4: [0; 8],
    };
    assert!(matches!(
        load_mode(linux, HostFile { slot: 1 }, None, guid),
        LoadMode::Linux { .. }
    ));
}

#[test]
fn the_last_request_for_a_serial_port_stands() {
    let ports = |list: &[u32]| -> Vec<SerialPortRequest> {
        list.iter()
            .map(|port| SerialPortRequest {
                port: *port,
                socket_path: String::new(),
                connect: false,
            })
            .collect()
    };
    assert_eq!(
        assign_serial_ports(&ports(&[0, 3, 0])).unwrap(),
        [Some(2), None, None, Some(1)]
    );
    assert_eq!(
        assign_serial_ports(&ports(&[4])).unwrap_err().message,
        "invalid serial port"
    );
}

#[test]
fn sizes_and_counts_come_from_the_snapshot_first() {
    let (topology, size): (NumaTopology, u64) = plan_memory(Some(4096), None, Some(7)).unwrap();
    assert_eq!((topology.nodes.len(), size), (1, 4096));
    assert_eq!(plan_memory(None, None, Some(2)).unwrap().1, 2 * MB);
    assert_eq!(
        plan_memory(None, None, None).unwrap_err().message,
        "missing memory configuration"
    );
    assert_eq!(
        plan_memory(None, None, Some(u64::MAX)).unwrap_err().message,
        "invalid memory configuration"
    );
    assert_eq!(plan_processors(Some(4), Some(2)), 4);
    assert_eq!(plan_processors(None, Some(2)), 2);
    assert_eq!(plan_processors(None, None), 1);
}

#[test]
fn power_actions_have_defaults() {
    let actions = plan_power_actions(None).unwrap();
    let restart = RequestedPowerActions {
        shutdown: RequestedPowerAction::Restart,
        reset: RequestedPowerAction::Default,
        crash: RequestedPowerAction::Halt,
        watchdog: RequestedPowerAction::Restart,
    };
    let planned = plan_power_actions(Some(restart)).unwrap();
    assert_eq!(planned.shutdown, GuestPowerAction::Reset);
    assert_eq!(planned.reset, actions.reset);
    assert_eq!(planned.crash, GuestPowerAction::Halt);
    let unknown = RequestedPowerActions {
        shutdown: RequestedPowerAction::Unknown(5),
        ..restart
    };
    assert_eq!(
        plan_power_actions(Some(unknown)).unwrap_err().message,
        "unknown guest power action 5"
    );
}

#[test]
fn restores_accept_only_attachments() {
    let devices = DevicesRequest {
        scsi_disks: Vec::new(),
        vpmem_disks: 0,
        nic_config: Vec::new(),
        windows_device: 0,
        virtiofs_config: vec![VirtioFsRequest {
            tag: "microvm".to_owned(),
            root_path: "/r".to_owned(),
            guest_mount_target: "/mnt".to_owned(),
            read_write: false,
        }],
        virtio_blk: None,
        virtio_console: None,
    };
    let restore = |devices_config: Option<DevicesRequest>| VmConfigRequest {
        memory_mb: None,
        processor_count: None,
        boot_config: None,
        devices_config,
        ..request(RequestedProfile::Microvm, pvh())
    };
    let taken = take_restore_request(Some(restore(Some(devices)))).unwrap();
    assert_eq!(taken.virtiofs.unwrap().root_path, "/r");
    assert_eq!(
        take_restore_request(Some(request(RequestedProfile::Microvm, pvh())))
            .unwrap_err()
            .message,
        "restore configuration may contain only serial attachments and guest power actions"
    );
    assert_eq!(
        take_restore_request(Some(VmConfigRequest {
            machine_profile: RequestedProfile::Standard,
            ..restore(None)
        }))
        .unwrap_err()
        .message,
        "microVM snapshot restore requires the microVM machine profile"
    );
}

#[test]
fn destinations_are_new_entries_of_a_directory() {
    let free = DestinationFacts {
        parent_is_dir: Ok(true),
        free: true,
    };
    check_snapshot_destination("/d/s", "/d", &free).unwrap();
    for (facts, message) in [
        (
            DestinationFacts {
                parent_is_dir: Err(Refusal {
                    message: "gone".to_owned(),
                }),
                free: true,
            },
            "failed to inspect snapshot parent /d",
        ),
        (
            DestinationFacts {
                parent_is_dir: Ok(false),
                free: true,
            },
            "snapshot parent is not a directory: /d",
        ),
        (
            DestinationFacts {
                parent_is_dir: Ok(true),
                free: false,
            },
            "snapshot destination already exists or cannot be inspected: /d/s",
        ),
    ] {
        assert_eq!(
            check_snapshot_destination("/d/s", "/d", &facts)
                .unwrap_err()
                .message,
            message
        );
    }
}

#[test]
fn small_decisions_of_a_creation() {
    let disk = |lun: u32| ScsiDiskRequest {
        lun,
        host_path: String::new(),
        read_only: false,
    };
    assert_eq!(disk_unit(&disk(255)).unwrap(), 255);
    assert!(disk_unit(&disk(256)).is_err());
    assert!(uses_vpci(false, HostOs::Windows));
    assert!(!uses_vpci(true, HostOs::Windows));
    assert!(plan_restore_entropy(false).unwrap().is_empty());
    assert_eq!(plan_restore_entropy(true).unwrap().len(), 83);
    assert_eq!(
        default_gic_redistributors_base(HostOs::Linux),
        0xEFFF_0000
    );
    assert_eq!(default_pcat_boot_order()[0], PcatBootDevice::Optical);
}
