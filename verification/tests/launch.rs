//! Launching a machine from options, and restoring it.

use openvmm::bytes::{bytes_of_text, read_text};
use openvmm::capture::ScratchPolicy;
use openvmm::chipset::{IgvmPersonality, IsolationRequest};
use openvmm::config::{
    BaseChipsetManifest, Config, DeviceVtl, GuestArch, GuestStateEncryptionPolicy, Guid, HostFile, HostOs, IsolationType,
    LayoutConfig, LinuxIsolationConfig, LoadMode, MachineProfile, MicrovmNetworkConfig,
    PcieIommuConfig, PcieMmioRangeConfig, SmmuOas, UefiConsoleMode, VirtioBus,
    VmChipsetCapabilities, VmgsResource, Vtl2BaseAddressType, X2ApicConfig,
};
use openvmm::console::SerialConfigCli;
use openvmm::grouping::{group_by_text, text_order, TextOrder};
use openvmm::launch::{
    append_snapshot_tier, hypervisor_config, launch_numa, needs_framebuffer, place_virtio,
    processor_topology, requested_hypervisor, select_isolation, vmbus_configs, with_get,
    ArchOption, FinishOptions, LateMapOption, MemoryOptions, NumaOptions, SmtOption,
    VirtioBusOption, VirtioPlace, VmbusOptions,
};
use openvmm::filesystem::{
    EffectiveMicrovmFilesystem, MicrovmFilesystemAccess, MicrovmFilesystemConfig,
};
use openvmm::launch_boot::{
    select_load_mode, select_vmgs, uses_uefi_device, BootOptions, ProvisionVmgs, UefiOptions,
};
use openvmm::launch_config::{build_launch_config, LaunchParts};
use openvmm::launch_net::{
    check_paravisor_nic, check_virtio_nic, check_vmbus_nic, group_vports, kernel_nic_instance_id,
    mac_address_from_random, microvm_network_endpoint, new_hvsock_service_id, nic_instance_id, nic_mac_address,
    numbered_nic, parse_endpoint, pcie_remote_instance_id, random_mac_address, EndpointPlan,
    EndpointRequest, NicConfigCli, NicCounter, VportPlacement,
};
use openvmm::launch_pcie::{
    build_root_complexes, check_iommu_contexts, check_vfio_context, IommuCli, RootComplexCli,
    RootPortCli, SmmuCli,
};
use openvmm::launch_serial::{
    assign_terminal, check_microvm_serial, microvm_port_backend, SerialOptions,
};
use openvmm::launch_storage::{
    check_processor_count, check_sandbox_block, check_scsi_sub_channels, check_virtio_blk,
    disk_location, disk_open, implied_controllers, nvme_location, DiskKind, DiskLocation,
    DiskPlacement, DiskPlan, LayerPlan, SandboxBlockOptions,
};
use openvmm::net::{Ipv4Address, SocketAddress};
use openvmm::numa::single_node_topology;
use openvmm::numeral::{push_decimal, push_fixed_hex, push_numeral, push_prefixed_hex, read_unsigned};
use openvmm::path::{lies_within, parse_parent, parse_path, same_path};
use openvmm::refusal::Refusal;
use openvmm::run::{
    check_started, choose_hypervisor, contract_inputs, memory_source, plan_restore, prepare_snapshot_restore,
    recorded_scratch_policy, select_rpc, vnc_listen_address, HypervisorChoice, MemorySource,
    PreparationFacts, RequestedMicrovm, RestoreOptions, ScratchSource,
};
use openvmm::smbios::{
    copy_smbios, merge_smbios, plain_smbios, smbios_config_from_cli, zero_guid, SmbiosCli,
    SmbiosUuid,
};
use openvmm::snapshot::{
    SnapshotAttachment, SnapshotMachineContract, SnapshotMemoryExpansionRange,
    SnapshotMicrovmSandboxBlock,
};
use openvmm::text::{command_line_tokens, push_text, split_at_byte, split_once, split_words};
use openvmm::transport::RpcTransport;
use openvmm::worker::{
    worker_parameters, LaunchMemory, RESTORE_READY_EVENT_V1, VM_WORKER,
};

fn refused(text: &str) -> Refusal {
    Refusal {
        message: text.to_owned(),
    }
}

#[test]
fn isolation_has_its_conditions() {
    assert_eq!(select_isolation(None, false, false).unwrap(), None);
    assert_eq!(
        select_isolation(Some(IsolationRequest::Snp), false, false).unwrap(),
        Some(IsolationType::Snp)
    );
    assert_eq!(
        select_isolation(Some(IsolationRequest::Vbs), true, true).unwrap(),
        Some(IsolationType::Vbs)
    );
    assert_eq!(
        select_isolation(Some(IsolationRequest::Vbs), false, true).unwrap_err(),
        refused("VBS isolation is only currently supported with vtl2")
    );
    assert_eq!(
        select_isolation(Some(IsolationRequest::Vbs), true, false).unwrap_err(),
        refused("alias map not supported with isolation")
    );
}

#[test]
fn processors_follow_the_options() {
    let arch = ArchOption::X86 {
        apic_id_offset: 16,
        x2apic: X2ApicConfig::Enabled,
    };
    let plain = processor_topology(8, Some(4), SmtOption::Force, arch, false);
    assert_eq!(plain.vps_per_socket, Some(4));
    assert_eq!(plain.enable_smt, Some(true));
    let microvm = processor_topology(8, Some(4), SmtOption::Force, arch, true);
    assert_eq!(microvm.vps_per_socket, Some(8));
    assert_eq!(microvm.enable_smt, Some(false));
    check_processor_count(1024).unwrap();
    assert_eq!(
        check_processor_count(1025).unwrap_err(),
        refused("invalid proc count: 1025")
    );
    assert_eq!(
        check_scsi_sub_channels(1024).unwrap_err(),
        refused("invalid SCSI sub-channel count: requested 1024, max 1023")
    );
}

fn vmbus(no_vmbus: bool) -> VmbusOptions {
    VmbusOptions {
        vsock_path: Some("/v".to_owned()),
        vtl2_vsock_path: None,
        vmbus_redirect: true,
        vmbus_max_version: Some(5),
        no_vmbus,
    }
}

#[test]
fn vmbus_needs_the_enlightenments() {
    let (guest, paravisor) = vmbus_configs(vmbus(false), true, true);
    let guest = guest.unwrap();
    assert!(guest.vsock_listener && guest.vtl2_redirect);
    assert!(!paravisor.unwrap().vtl2_redirect);
    let (guest, paravisor) = vmbus_configs(vmbus(true), true, false);
    assert!(guest.is_none() && paravisor.is_none());
    assert!(vmbus_configs(vmbus(false), false, true).0.is_none());
    let hypervisor = hypervisor_config(true, true, true, LateMapOption::Log, None, false);
    assert!(!hypervisor.with_vtl2.unwrap().vtl0_alias_map);
}

#[test]
fn virtio_devices_find_their_bus() {
    assert!(matches!(
        place_virtio(
            Some("rp0".to_owned()),
            VirtioBusOption::Mmio,
            true,
            HostOs::Linux
        ),
        VirtioPlace::Port(_)
    ));
    assert!(matches!(
        place_virtio(None, VirtioBusOption::Auto, true, HostOs::Windows),
        VirtioPlace::Vpci
    ));
    assert!(matches!(
        place_virtio(None, VirtioBusOption::Auto, true, HostOs::Linux),
        VirtioPlace::Bus(VirtioBus::Pci)
    ));
}

fn memory(size: u64) -> MemoryOptions {
    MemoryOptions {
        size,
        prefetch: false,
        shared: Some(false),
        transparent_hugepages: None,
        hugepages: false,
        hugepage_size: None,
        host_numa_node: None,
    }
}

#[test]
fn memory_options_become_nodes() {
    let single = launch_numa(None, &Vec::new(), &memory(4096)).unwrap();
    let node = single.nodes[0].mem.unwrap();
    assert!(node.private_memory && node.transparent_hugepages);
    let nodes = vec![
        NumaOptions {
            memory: memory(1),
            vps: Some(Ok(vec![0])),
        },
        NumaOptions {
            memory: memory(2),
            vps: Some(Err(refused("bad processor list"))),
        },
    ];
    assert_eq!(
        launch_numa(Some(&nodes), &Vec::new(), &memory(0)).unwrap_err(),
        refused("bad processor list")
    );
}

#[test]
fn small_decisions_of_a_launch() {
    assert!(needs_framebuffer(false, false, true, false));
    assert!(!needs_framebuffer(false, false, false, false));
    assert!(with_get(true, false, false));
    assert_eq!(requested_hypervisor(None), None);
    assert!(uses_uefi_device(true, false, false, None));
    assert_eq!(
        select_vmgs(true, Some(ProvisionVmgs::True), false).unwrap_err(),
        refused("microVM does not support VMGS")
    );
    assert_eq!(
        select_vmgs(false, Some(ProvisionVmgs::OnFailure), false).unwrap(),
        Some(VmgsResource::ReprovisionOnFailure(
            GuestStateEncryptionPolicy::Unencrypted(true)
        ))
    );
    assert_eq!(
        select_vmgs(false, Some(ProvisionVmgs::OnEmpty), true).unwrap(),
        Some(VmgsResource::Disk(GuestStateEncryptionPolicy::GspById(true)))
    );
    assert_eq!(
        select_vmgs(false, None, true).unwrap(),
        Some(VmgsResource::Ephemeral)
    );
}

#[test]
fn a_snapshot_tier_is_named_once() {
    let mut line = "a=b".to_owned();
    append_snapshot_tier(&mut line, "platform").unwrap();
    assert_eq!(line, "a=b nvx_snapshot_tier=platform");
    assert_eq!(
        append_snapshot_tier(&mut line, "platform").unwrap_err(),
        refused("nvx_snapshot_tier is reserved for the host snapshot policy")
    );
    assert_eq!(line, "a=b nvx_snapshot_tier=platform");
}

fn boot() -> BootOptions {
    BootOptions {
        microvm: false,
        microvm_console: false,
        arch: GuestArch::X86_64,
        kernel: true,
        cmdline: vec!["quiet".to_owned(), "x=1".to_owned()],
        restore_snapshot: false,
        igvm: false,
        igvm_personality: None,
        igvm_vtl2_relocation: Vtl2BaseAddressType::MemoryLayout { size: None },
        pcat: false,
        pcat_boot_order: None,
        uefi: false,
        uefi_options: UefiOptions {
            firmware: false,
            debug: false,
            enable_memory_protections: false,
            disable_frontpage: false,
            enable_tpm: false,
            enable_battery: false,
            console_mode: Some(UefiConsoleMode::Com2),
            default_boot_always_attempt: false,
            force_dma_bounce: false,
            no_vmbus: false,
        },
        hv: true,
        no_hv: false,
        vtl2: false,
        with_get: false,
        hibernation: false,
        isolation: None,
        snp_restricted_injection: true,
        device_tree: false,
        gfx: true,
        has_root_complex: false,
        any_serial: true,
        com3: None,
        smbios_requested: false,
    }
}

fn load(opt: &BootOptions, recorded: Option<&str>) -> Result<(LoadMode, bool), Refusal> {
    select_load_mode(
        opt,
        recorded.map(str::to_owned),
        "ttyS0",
        HostFile { slot: 4 },
        None,
        plain_smbios(zero_guid()),
    )
}

#[test]
fn linux_boots_with_its_command_line() {
    let (mode, with_hv) = load(&boot(), None).unwrap();
    assert!(with_hv);
    match mode {
        LoadMode::Linux {
            cmdline, isolation, ..
        } => {
            assert_eq!(
                cmdline,
                "panic=-1 debug pci=off console=ttyS0 console=tty quiet x=1"
            );
            assert_eq!(isolation, LinuxIsolationConfig::NoIsolation);
        }
        other => panic!("unexpected mode: {other:?}"),
    }
}

#[test]
fn a_restored_microvm_keeps_its_command_line() {
    let microvm = BootOptions {
        microvm: true,
        ..boot()
    };
    let (mode, with_hv) = load(&microvm, Some("recorded")).unwrap();
    assert!(!with_hv);
    match mode {
        LoadMode::Pvh { cmdline, .. } => assert_eq!(cmdline, "recorded"),
        other => panic!("unexpected mode: {other:?}"),
    }
    let (mode, _) = load(&microvm, None).unwrap();
    match mode {
        LoadMode::Pvh { cmdline, .. } => assert!(cmdline.ends_with(" quiet x=1")),
        other => panic!("unexpected mode: {other:?}"),
    }
}

#[test]
fn boot_options_are_refused_with_a_reason() {
    for (opt, message) in [
        (
            BootOptions {
                kernel: false,
                ..boot()
            },
            "must provide kernel when booting with linux direct",
        ),
        (
            BootOptions {
                uefi: true,
                ..boot()
            },
            "must provide uefi firmware when booting with uefi",
        ),
        (
            BootOptions {
                uefi: true,
                no_hv: true,
                ..boot()
            },
            "--no-hv is not supported on x86_64",
        ),
        (
            BootOptions {
                pcat: true,
                arch: GuestArch::Aarch64,
                ..boot()
            },
            "pcat not supported on this architecture",
        ),
        (
            BootOptions {
                igvm: true,
                smbios_requested: true,
                ..boot()
            },
            "--smbios is not supported for IGVM launches without an OpenHCL GET channel",
        ),
        (
            BootOptions {
                microvm: true,
                uefi: true,
                ..boot()
            },
            "the microVM profile requires Xen PVH direct boot",
        ),
        (
            BootOptions {
                microvm: true,
                arch: GuestArch::Aarch64,
                ..boot()
            },
            "the microVM profile requires an x86-64 guest",
        ),
        (
            BootOptions {
                microvm: true,
                kernel: false,
                ..boot()
            },
            "must provide a PVH kernel when using --machine microvm",
        ),
    ] {
        assert_eq!(load(&opt, None).unwrap_err(), refused(message));
    }
    let igvm = BootOptions {
        igvm: true,
        igvm_personality: Some(IgvmPersonality::LinuxDirect),
        hv: false,
        ..boot()
    };
    let (mode, with_hv) = load(&igvm, None).unwrap();
    assert!(!with_hv);
    assert!(matches!(
        mode,
        LoadMode::Igvm {
            vtl2_base_address: Vtl2BaseAddressType::File,
            ..
        }
    ));
}

fn launch_parts(isolation: Option<IsolationRequest>, with_hv: bool) -> LaunchParts {
    let (load_mode, _) = load(
        &BootOptions {
            isolation,
            ..boot()
        },
        None,
    )
    .unwrap();
    LaunchParts {
        machine: MachineProfile::Standard,
        load_mode,
        with_hv,
        with_get: false,
        processors: 2,
        vps_per_socket: None,
        smt: SmtOption::Auto,
        arch: ArchOption::X86 {
            apic_id_offset: 0,
            x2apic: X2ApicConfig::Auto,
        },
        vtl2: false,
        no_alias_map: false,
        late_map: LateMapOption::Off,
        isolation,
        nested_virt: false,
        vmbus: vmbus(false),
        vmgs: None,
        gfx: false,
        vtl2_gfx: false,
        vnc: false,
        pcat: false,
        numa: single_node_topology(0x1000_0000),
        floppy_disks: Vec::new(),
        ide_disks: Vec::new(),
        root_complexes: Vec::new(),
        ecam_below_4gb: false,
        pcie_devices: Vec::new(),
        switches: Vec::new(),
        generic_initiators: Vec::new(),
        vpci_devices: Vec::new(),
        virtio_devices: Vec::new(),
        vmbus_devices: Vec::new(),
        kernel_vmnics: Vec::new(),
        vpci_resources: Vec::new(),
        chipset: BaseChipsetManifest {
            with_generic_cmos_rtc: false,
            with_other_devices: false,
        },
        chipset_devices: Vec::new(),
        pci_chipset_devices: Vec::new(),
        isa_dma_controller: None,
        chipset_capabilities: VmChipsetCapabilities {
            with_ioapic: true,
            with_pic: false,
            with_pit: false,
            with_generic_isa_dma: false,
            with_psp: false,
            with_guest_watchdog: false,
            with_i440bx_host_pci_bridge: false,
        },
        layout: LayoutConfig {
            chipset_low_mmio_size: 0,
            chipset_high_mmio_size: 0,
            vtl2_chipset_mmio_size: 0,
        },
        microvm_network: None,
    }
}

fn finish() -> FinishOptions {
    FinishOptions {
        restored: false,
        snapshot_tier: None,
        hypervisor: None,
    }
}

#[test]
fn a_launched_machine_holds_its_parts() {
    let config: Config =
        build_launch_config(launch_parts(None, true), &finish(), HostOs::Linux).unwrap();
    assert_eq!(config.processor_topology.proc_count, 2);
    assert!(config.vmbus.is_some());
    assert_eq!(config.hypervisor.with_isolation, None);
}

#[test]
fn a_launched_microvm_misses_the_first_contract() {
    let parts = LaunchParts {
        machine: MachineProfile::Microvm,
        ..launch_parts(None, false)
    };
    assert!(build_launch_config(parts, &finish(), HostOs::Linux).is_err());
}

#[test]
fn an_isolated_machine_has_no_vmbus() {
    let isolated = build_launch_config(
        launch_parts(Some(IsolationRequest::Snp), false),
        &finish(),
        HostOs::Linux,
    )
    .unwrap();
    assert!(isolated.vmbus.is_none());
    assert_eq!(
        build_launch_config(
            launch_parts(Some(IsolationRequest::Snp), true),
            &finish(),
            HostOs::Linux
        )
        .unwrap_err(),
        refused("SNP isolation currently does not support Hyper-V enlightenments")
    );
}

#[test]
fn devices_are_numbered_from_their_base() {
    assert_eq!(
        nic_instance_id(5).to_text(),
        "00000005-da43-11ed-936a-00155d6db52f"
    );
    assert_eq!(
        pcie_remote_instance_id(1).to_text(),
        "00000001-c059-429f-9d9a-46bea02562c0"
    );
    assert_eq!(
        kernel_nic_instance_id(2).to_text(),
        "00000002-435d-11ee-9f59-00155d5016fc"
    );
    assert_eq!(
        new_hvsock_service_id(0x1234).to_text(),
        "00001234-facb-11e6-bd58-64006a7986d3"
    );
    assert_ne!(nic_instance_id(1), nic_instance_id(2));
}

fn nic(endpoint: EndpointRequest) -> NicConfigCli {
    NicConfigCli {
        vtl: DeviceVtl::Vtl0,
        endpoint,
        max_queues: None,
        pcie_port: None,
    }
}

#[test]
fn network_devices_count_up() {
    let mut counter = NicCounter {
        next: 0,
        bound: false,
    };
    let consomme = || EndpointRequest::Consomme {
        cidr: None,
        host_fwd: Vec::new(),
    };
    let first = parse_endpoint(nic(consomme()), &mut counter, HostOs::Linux).unwrap();
    let second = parse_endpoint(nic(consomme()), &mut counter, HostOs::Linux).unwrap();
    assert_eq!(first.instance_id, nic_instance_id(0));
    assert_eq!(second.instance_id, nic_instance_id(1));
    assert_eq!(first.mac_address.octets[..3], [0x00, 0x15, 0x5d]);
    assert!(matches!(
        first.endpoint,
        EndpointPlan::Consomme { bindable: true, .. }
    ));
    assert!(matches!(
        second.endpoint,
        EndpointPlan::Consomme {
            bindable: false,
            ..
        }
    ));
    let mac = nic_mac_address([1, 2, 3]);
    for (endpoint, message) in [
        (
            EndpointRequest::Dio { id: None },
            "cannot use dio on non-windows platforms",
        ),
        (
            EndpointRequest::Microvm,
            "a bare IPv4/prefix --net is only supported by the microVM profile",
        ),
    ] {
        assert_eq!(
            numbered_nic(nic(endpoint), &mut counter, mac, HostOs::Linux).unwrap_err(),
            refused(message)
        );
    }
    assert_eq!(
        numbered_nic(
            nic(EndpointRequest::Tap {
                name: "t".to_owned()
            }),
            &mut counter,
            mac,
            HostOs::Windows
        )
        .unwrap_err(),
        refused("TAP backend is only supported on Linux")
    );
    assert_eq!(
        mac_address_from_random(Some(vec![7, 8, 9])).unwrap().octets,
        [0x00, 0x15, 0x5d, 7, 8, 9]
    );
    assert_eq!(
        mac_address_from_random(None).unwrap_err(),
        refused("rng failure")
    );
    let distinct: Vec<_> = (0..4).map(|_| random_mac_address().unwrap()).collect();
    assert!(distinct.iter().any(|mac| mac.octets != distinct[0].octets));
}

#[test]
fn virtual_ports_are_grouped() {
    let placement = |vtl: DeviceVtl, port: Option<&str>| VportPlacement {
        vtl,
        pcie_port: port.map(str::to_owned),
    };
    let groups = group_vports(&vec![
        placement(DeviceVtl::Vtl0, None),
        placement(DeviceVtl::Vtl0, Some("b")),
        placement(DeviceVtl::Vtl2, None),
        placement(DeviceVtl::Vtl0, Some("a")),
        placement(DeviceVtl::Vtl0, Some("b")),
    ])
    .unwrap();
    assert_eq!(groups.vtl0, vec![0]);
    assert_eq!(groups.vtl2, vec![2]);
    assert_eq!(groups.pcie.keys, vec!["a", "b"]);
    assert_eq!(groups.pcie.members, vec![vec![3], vec![1, 4]]);
    assert_eq!(
        group_vports(&vec![placement(DeviceVtl::Vtl2, Some("a"))]).unwrap_err(),
        refused("PCIe NICs only supported to VTL0")
    );
    assert!(check_vmbus_nic(true).is_err());
    assert!(check_paravisor_nic(true, false).is_err());
    assert!(check_virtio_nic(true).is_err());
    let network = MicrovmNetworkConfig::from_str("10.0.0.2/24").unwrap();
    assert_eq!(
        microvm_network_endpoint(&network).gateway_ipv4,
        network.derived_gateway_ipv4
    );
}

#[test]
fn texts_group_in_order() {
    let keys: Vec<Option<String>> = [Some("b"), None, Some("a"), Some("b")]
        .iter()
        .map(|key| key.map(str::to_owned))
        .collect();
    let groups = group_by_text(&keys);
    assert_eq!(groups.keys, vec!["a", "b"]);
    assert_eq!(groups.members, vec![vec![2], vec![0, 3]]);
    assert_eq!(text_order("a", "ab"), TextOrder::Before);
    assert_eq!(text_order("b", "ab"), TextOrder::After);
    assert_eq!(text_order("b", "b"), TextOrder::Same);
}

fn complex(name: &str) -> RootComplexCli {
    RootComplexCli {
        name: name.to_owned(),
        segment: 0,
        start_bus: 0,
        end_bus: 255,
        low_mmio: 1,
        high_mmio: 0x10_0001,
        low_mmio_base: None,
        high_mmio_base: Some(0x80_0000_0000),
        hdm: 0,
        hdm_window_restrictions: 0,
        vnode: None,
        preserve_bars: false,
    }
}

#[test]
fn root_complexes_have_whole_windows() {
    let ports = vec![RootPortCli {
        root_complex_name: "rc1".to_owned(),
        name: "rp0".to_owned(),
        devfn: None,
        hotplug: true,
        acs_capabilities_supported: None,
        cxl: false,
        pasid: false,
    }];
    let iommu = IommuCli::X86 {
        amd_iommu: vec!["rc1".to_owned()],
        intel_vtd: Vec::new(),
    };
    let built =
        build_root_complexes(&vec![complex("rc0"), complex("rc1")], &ports, &iommu).unwrap();
    assert_eq!(
        built[0].low_mmio,
        PcieMmioRangeConfig::Dynamic { size: 0x10_0000 }
    );
    match built[0].high_mmio {
        PcieMmioRangeConfig::Fixed(range) => assert_eq!(range.end - range.start, 0x20_0000),
        other => panic!("unexpected window: {other:?}"),
    }
    assert!(built[0].ports.is_empty());
    assert_eq!(built[1].ports[0].name, "rp0");
    assert_eq!(built[1].index, 1);
    assert_eq!(built[1].iommu, Some(PcieIommuConfig::AmdVi));
    assert_eq!(built[0].iommu, None);
}

#[test]
fn root_complexes_refuse_what_they_cannot_place() {
    let none = IommuCli::X86 {
        amd_iommu: Vec::new(),
        intel_vtd: Vec::new(),
    };
    let huge = RootComplexCli {
        high_mmio: u64::MAX,
        ..complex("rc0")
    };
    assert_eq!(
        build_root_complexes(&vec![huge], &Vec::new(), &none).unwrap_err(),
        refused("high mmio rounding error")
    );
    let unaligned = RootComplexCli {
        low_mmio_base: Some(1),
        ..complex("rc0")
    };
    assert_eq!(
        build_root_complexes(&vec![unaligned], &Vec::new(), &none).unwrap_err(),
        refused("invalid low MMIO range")
    );
    let both = IommuCli::X86 {
        amd_iommu: vec!["rc0".to_owned()],
        intel_vtd: vec!["rc0".to_owned()],
    };
    assert_eq!(
        build_root_complexes(&vec![complex("rc0")], &Vec::new(), &both).unwrap_err(),
        refused("--amd-iommu and --intel-vtd cannot both be used in the same VM")
    );
    let unknown = IommuCli::Aarch64 {
        smmu: vec![SmmuCli {
            rc_name: "rc9".to_owned(),
            accel: false,
            oas: SmmuOas::Auto,
        }],
    };
    assert_eq!(
        build_root_complexes(&vec![complex("rc0")], &Vec::new(), &unknown).unwrap_err(),
        refused("--smmu refers to unknown root complex 'rc9'")
    );
    let ids = vec!["a".to_owned(), "b".to_owned()];
    check_iommu_contexts(&ids).unwrap();
    check_vfio_context("0000:01:00.0", "b", &ids).unwrap();
    assert!(check_vfio_context("0000:01:00.0", "c", &ids).is_err());
    assert_eq!(
        check_iommu_contexts(&vec!["a".to_owned(), "a".to_owned()]).unwrap_err(),
        refused("duplicate --iommu id=a")
    );
}

fn serial() -> SerialOptions {
    SerialOptions {
        com1: None,
        com2: None,
        com3: None,
        com4: None,
        vmbus_com1: None,
        vmbus_com2: None,
        debugcon: None,
        virtio_console: None,
    }
}

#[test]
fn the_terminal_has_one_owner() {
    assert_eq!(
        assign_terminal(&serial(), false, GuestArch::X86_64).unwrap(),
        Some("ttyS0")
    );
    let moved = SerialOptions {
        com1: Some(SerialConfigCli::Disconnected),
        com3: Some(SerialConfigCli::Console),
        ..serial()
    };
    assert_eq!(
        assign_terminal(&moved, false, GuestArch::Aarch64).unwrap(),
        Some("ttyAMA2")
    );
    let twice = SerialOptions {
        virtio_console: Some(SerialConfigCli::Console),
        ..serial()
    };
    assert_eq!(
        assign_terminal(&twice, false, GuestArch::X86_64).unwrap_err(),
        refused("console already set by ttyS0")
    );
    assert_eq!(
        assign_terminal(&twice, true, GuestArch::X86_64).unwrap(),
        Some("hvc1")
    );
    assert_eq!(
        assign_terminal(&serial(), true, GuestArch::X86_64).unwrap(),
        Some("hvc0")
    );
    assert!(check_microvm_serial(&moved).is_err());
    check_microvm_serial(&twice).unwrap();
    assert!(matches!(
        microvm_port_backend(Some(&SerialConfigCli::Console)),
        SerialConfigCli::Stderr
    ));
    assert!(matches!(
        microvm_port_backend(None),
        SerialConfigCli::Console
    ));
}

#[test]
fn disks_are_attached_where_asked() {
    let placement = |controller: Option<&str>, pcie_port: bool| DiskPlacement {
        controller: controller.map(str::to_owned),
        pcie_port,
        nsid: Some(2),
        lun: None,
    };
    assert!(matches!(
        disk_location(placement(None, false), false).unwrap(),
        DiskLocation::DefaultScsi
    ));
    match disk_location(placement(Some("nvme0"), false), true).unwrap() {
        DiskLocation::Named {
            controller, nsid, ..
        } => assert_eq!((controller.as_str(), nsid), ("nvme0", Some(2))),
        other => panic!("unexpected location: {other:?}"),
    }
    for (disk, message) in [
        (
            placement(Some("c"), true),
            "`on` is incompatible with `pcie_port` on `--disk`",
        ),
        (
            placement(None, true),
            "`--disk` is incompatible with `pcie_port` without `controller`",
        ),
    ] {
        assert_eq!(disk_location(disk, false).unwrap_err(), refused(message));
    }
    assert!(disk_location(placement(None, false), true).is_err());
    let ports: Vec<Option<String>> = [Some("b"), None, Some("a"), Some("b")]
        .iter()
        .map(|port| port.map(str::to_owned))
        .collect();
    assert_eq!(implied_controllers(&ports), vec!["b", "a"]);
    assert!(matches!(nvme_location(None), DiskLocation::DefaultNvme));
    assert!(check_virtio_blk(true).is_err());
    let block = SandboxBlockOptions {
        vtl: DeviceVtl::Vtl0,
        is_dvd: false,
        underhill: false,
        pcie_port: false,
        controller: false,
        nsid: false,
        lun: false,
        relay: false,
    };
    check_sandbox_block(&block).unwrap();
    assert!(check_sandbox_block(&SandboxBlockOptions {
        is_dvd: true,
        ..block
    })
    .is_err());
}

fn file(path: &str) -> DiskKind {
    DiskKind::File {
        path: path.to_owned(),
        create_with_len: None,
        direct: false,
    }
}

#[test]
fn layered_disks_only_read_what_lies_below() {
    match disk_open(DiskKind::MemoryDiff(Box::new(file("/a"))), false).unwrap() {
        DiskPlan::Layered(layers) => {
            assert!(matches!(layers[0], LayerPlan::Ram { len: None }));
            assert!(matches!(
                layers[1],
                LayerPlan::Disk(DiskPlan::OpenFile {
                    read_only: true,
                    ..
                })
            ));
        }
        other => panic!("unexpected plan: {other:?}"),
    }
    assert!(matches!(
        disk_open(file("/a"), false).unwrap(),
        DiskPlan::OpenFile {
            read_only: false,
            ..
        }
    ));
    let database = |create: bool, exists: bool| DiskKind::SqliteDiff {
        path: "/db".to_owned(),
        create,
        exists,
        inner: Box::new(file("/a")),
    };
    assert_eq!(
        disk_open(database(true, true), false).unwrap_err(),
        refused("cannot create new sqlite disk at /db - file already exists")
    );
    assert_eq!(
        disk_open(database(false, false), false).unwrap_err(),
        refused("cannot open sqlite disk at /db - file not found")
    );
    assert!(disk_open(database(true, false), false).is_ok());
}

fn contract() -> SnapshotMachineContract {
    SnapshotMachineContract {
        machine_profile: "microvm".to_owned(),
        microvm_abi_version: 1,
        source_hypervisor: "kvm".to_owned(),
        effective_command_line: String::new(),
        devices: Vec::new(),
        attachments: Vec::new(),
        microvm_network: None,
        microvm_filesystem: None,
        microvm_filesystem_slot_version: 0,
        microvm_sandbox_blocks: Vec::new(),
        memory_expansion_version: 0,
        memory_capacity_bytes: 1024,
        state_unit_names: vec!["partition".to_owned()],
        tsc_frequency_hz: 1_000_000_000,
        apic_frequency_hz: Some(500),
        cpu_contract: vec![1, 2, 3],
    }
}

fn block(role: &str, artifact: &str) -> SnapshotMicrovmSandboxBlock {
    SnapshotMicrovmSandboxBlock {
        role: role.to_owned(),
        read_only: false,
        length: 0,
        identity_kind: String::new(),
        identity: Vec::new(),
        artifact: artifact.to_owned(),
    }
}

fn restore() -> RestoreOptions {
    RestoreOptions {
        machine: MachineProfile::Microvm,
        supported: Ok(()),
        gate_requested: false,
        processors: None,
        memory: None,
        recorded_memory: 4096,
        command_line_overridden: false,
        memory_overridden: false,
        scratch_block: false,
        entropy: false,
    }
}

#[test]
fn a_changed_restore_is_gated() {
    let plain = plan_restore(&restore(), Some(&contract())).unwrap();
    assert!(!plain.gate_required && !plain.entropy);
    assert_eq!(plain.memory_size, Some(4096));
    assert_eq!(plain.scratch, ScratchSource::Absent);

    let grown = RestoreOptions {
        memory: Some((
            8192,
            Ok(vec![SnapshotMemoryExpansionRange {
                gpa_start: 4096,
                length: 4096,
            }]),
        )),
        ..restore()
    };
    let plan = plan_restore(&grown, Some(&contract())).unwrap();
    assert!(plan.gate_required && plan.entropy);
    assert_eq!(plan.memory_size, Some(8192));
    assert_eq!(plan.ranges.len(), 1);
    let processors = RestoreOptions {
        processors: Some(Ok(())),
        ..restore()
    };
    assert!(
        plan_restore(&processors, Some(&contract()))
            .unwrap()
            .gate_required
    );
}

#[test]
fn a_restored_standard_machine_keeps_its_memory() {
    let standard = RestoreOptions {
        machine: MachineProfile::Standard,
        memory: Some((8192, Ok(Vec::new()))),
        ..restore()
    };
    let plan = plan_restore(&standard, None).unwrap();
    assert_eq!(plan.memory_size, None);
    assert!(plan.ranges.is_empty() && !plan.gate_required);
}

#[test]
fn restores_are_refused_with_a_reason() {
    for (options, message) in [
        (
            RestoreOptions {
                machine: MachineProfile::Standard,
                ..restore()
            },
            "microVM snapshot restore requires --machine microvm",
        ),
        (
            RestoreOptions {
                supported: Err(refused("unsupported version")),
                ..restore()
            },
            "unsupported version",
        ),
        (
            RestoreOptions {
                command_line_overridden: true,
                ..restore()
            },
            "restore-time command-line overrides are not allowed",
        ),
        (
            RestoreOptions {
                memory_overridden: true,
                ..restore()
            },
            "restore-time memory overrides are not allowed",
        ),
    ] {
        assert_eq!(
            plan_restore(&options, Some(&contract())).unwrap_err(),
            refused(message)
        );
    }
    assert_eq!(
        plan_restore(&restore(), None).unwrap_err(),
        refused("microVM snapshot is missing its authoritative machine contract")
    );
    let mut paired = contract();
    paired.microvm_sandbox_blocks = vec![block("layer", ""), block("scratch", "scratch.img")];
    assert_eq!(
        plan_restore(&restore(), Some(&paired)).unwrap().scratch,
        ScratchSource::PrivateCopy
    );
    assert_eq!(recorded_scratch_policy(Some(&paired)), ScratchPolicy::Paired);
    let given = RestoreOptions {
        scratch_block: true,
        ..restore()
    };
    assert_eq!(
        plan_restore(&given, Some(&paired)).unwrap_err(),
        refused("paired snapshot restore supplies scratch.img; do not pass a scratch block")
    );
    let mut fresh = contract();
    fresh.microvm_sandbox_blocks = vec![block("scratch", "")];
    assert_eq!(
        plan_restore(&restore(), Some(&fresh)).unwrap_err(),
        refused("fresh-scratch snapshot restore requires a scratch block")
    );
    assert_eq!(recorded_scratch_policy(Some(&fresh)), ScratchPolicy::Fresh);
}

fn preparation() -> PreparationFacts {
    PreparationFacts {
        machine: MachineProfile::Microvm,
        command_line: true,
        block_contract: Ok(()),
        manifest_check: Ok(()),
        expected_contract: Ok(()),
        contract_check: Ok(()),
        capture_time_ns: Ok(10),
        now_ns: 25,
        saved_state: Ok(()),
        inventory: Ok(vec!["partition".to_owned()]),
    }
}

#[test]
fn only_a_recorded_contract_asks_for_the_inventory() {
    let unparsed = |machine: MachineProfile| PreparationFacts {
        machine,
        inventory: Err(refused("no inventory")),
        ..preparation()
    };
    assert!(
        prepare_snapshot_restore(&unparsed(MachineProfile::Standard), None)
            .unwrap()
            .is_none()
    );
    assert_eq!(
        prepare_snapshot_restore(&unparsed(MachineProfile::Microvm), Some(&contract()))
            .unwrap_err(),
        refused("no inventory")
    );
    let undecoded = PreparationFacts {
        machine: MachineProfile::Standard,
        saved_state: Err(refused("no state")),
        ..preparation()
    };
    assert_eq!(
        prepare_snapshot_restore(&undecoded, None).unwrap_err(),
        refused("no state")
    );
}

#[test]
fn an_expected_contract_follows_the_snapshot() {
    let requested = || RequestedMicrovm {
        hypervisor: "kvm".to_owned(),
        command_line: "quiet".to_owned(),
        network: None,
        filesystem: Some(EffectiveMicrovmFilesystem {
            config: MicrovmFilesystemConfig {
                guest_mount_target: "/mnt".to_owned(),
                access: MicrovmFilesystemAccess::ReadOnly,
            },
            root_path: "/srv".to_owned(),
            attachment: SnapshotAttachment {
                stable_id: "fs".to_owned(),
                kind: "virtio-fs".to_owned(),
                required: true,
                reconnect_policy: "p".to_owned(),
                identity_kind: "k".to_owned(),
                identity: vec![1],
                length: 0,
                reconnect_timeout_ms: 0,
            },
        }),
        console: None,
        blocks: Vec::new(),
        processors: 1,
        memory: 4096,
    };
    let saved = SnapshotMachineContract {
        microvm_filesystem: None,
        memory_expansion_version: 0,
        memory_capacity_bytes: 8192,
        ..contract()
    };
    let inputs = contract_inputs(requested(), &saved).unwrap();
    assert!(inputs.filesystem.is_none() && !inputs.filesystem_slot);
    assert_eq!(inputs.memory_capacity, None);
    assert_eq!(inputs.state_unit_names, vec!["partition".to_owned()]);
    assert_eq!(inputs.cpu_contract, vec![1, 2, 3]);
    let growing = SnapshotMachineContract {
        memory_expansion_version: 1,
        ..saved
    };
    assert_eq!(
        contract_inputs(requested(), &growing)
            .unwrap()
            .memory_capacity,
        Some(8192)
    );
    let slotted = SnapshotMachineContract {
        microvm_filesystem_slot_version: 9,
        ..growing
    };
    assert!(contract_inputs(requested(), &slotted).is_err());
}

#[test]
fn a_restored_machine_learns_how_long_it_was_away() {
    let time = prepare_snapshot_restore(&preparation(), Some(&contract()))
        .unwrap()
        .unwrap();
    assert_eq!(time.downtime_ns, 15);
    assert_eq!(time.tsc_frequency_hz, 1_000_000_000);
    assert_eq!(time.cpu_contract, vec![1, 2, 3]);
    let standard = PreparationFacts {
        machine: MachineProfile::Standard,
        ..preparation()
    };
    assert!(prepare_snapshot_restore(&standard, None).unwrap().is_none());
    for (facts, message) in [
        (
            PreparationFacts {
                command_line: false,
                ..preparation()
            },
            "microVM restore requires an effective PVH command line",
        ),
        (
            PreparationFacts {
                contract_check: Err(refused("different machine")),
                ..preparation()
            },
            "different machine",
        ),
        (
            PreparationFacts {
                capture_time_ns: Err(refused("year 0")),
                ..preparation()
            },
            "snapshot capture wall clock is invalid",
        ),
        (
            PreparationFacts {
                now_ns: 9,
                ..preparation()
            },
            "destination wall clock is before snapshot capture time",
        ),
        (
            PreparationFacts {
                inventory: Ok(Vec::new()),
                ..preparation()
            },
            "snapshot manifest state-unit inventory does not match state.bin",
        ),
    ] {
        assert_eq!(
            prepare_snapshot_restore(&facts, Some(&contract())).unwrap_err(),
            refused(message)
        );
    }
}

#[test]
fn small_decisions_of_a_run() {
    assert_eq!(memory_source(true, true, true), MemorySource::Restored);
    assert_eq!(memory_source(false, true, false), MemorySource::SnapshotFile);
    assert_eq!(memory_source(false, false, false), MemorySource::Anonymous);
    assert!(matches!(
        choose_hypervisor(None, MachineProfile::Microvm),
        HypervisorChoice::MicrovmDefault
    ));
    check_started(true, false).unwrap();
    assert!(check_started(false, false).is_err());
    assert_eq!(
        select_rpc(None, Some("t".to_owned()), Some("g".to_owned())),
        Some(("t".to_owned(), RpcTransport::Ttrpc))
    );
    let v4 = vnc_listen_address("127.0.0.1", None, None, 5900).unwrap();
    assert_eq!(v4.to_text(), "127.0.0.1:5900");
    let own_port = vnc_listen_address("127.0.0.1:1", None, None, 5900).unwrap();
    assert_eq!(own_port.port(), 1);
    let v6 = SocketAddress::V6 {
        text: "[::1]:5900".to_owned(),
        port: 5900,
        loopback: true,
    };
    assert!(vnc_listen_address("::1", None, Some(v6), 5900)
        .unwrap()
        .is_loopback());
    assert!(vnc_listen_address("host", None, None, 5900).is_err());
}

#[test]
fn a_snapshot_is_mapped_privately() {
    let config = || build_launch_config(launch_parts(None, true), &finish(), HostOs::Linux).unwrap();
    let time = prepare_snapshot_restore(&preparation(), Some(&contract())).unwrap();
    let restored = worker_parameters(
        config(),
        LaunchMemory::Snapshot {
            file: HostFile { slot: 1 },
            saved_state: HostFile { slot: 2 },
            time,
        },
        true,
        700,
    );
    assert!(restored.shared_memory_copy_on_write);
    assert_eq!(restored.restore_downtime_ns, Some(15));
    assert_eq!(restored.restore_gate_timeout_ms, Some(700));
    let fresh = worker_parameters(
        config(),
        LaunchMemory::Shared(HostFile { slot: 1 }),
        false,
        700,
    );
    assert!(!fresh.shared_memory_copy_on_write);
    assert!(fresh.saved_state.is_none() && fresh.restore_gate_timeout_ms.is_none());
    assert_eq!(VM_WORKER, "VmWorker");
    assert_eq!(RESTORE_READY_EVENT_V1, "OPENVMM_RESTORE_READY_V1\n");
}

#[test]
fn smbios_identities_keep_their_identifier() {
    let cli = |system_uuid: Option<SmbiosUuid>| SmbiosCli {
        bios_vendor: Some("v".to_owned()),
        bios_version: None,
        bios_release_date: None,
        bios_release: Some((1, 2)),
        system_manufacturer: None,
        system_product: None,
        system_version: None,
        system_serial: None,
        system_sku: None,
        system_family: None,
        system_uuid,
    };
    let fresh = Guid {
        data1: 1,
        ..zero_guid()
    };
    let fixed = Guid {
        data1: 2,
        ..zero_guid()
    };
    assert_eq!(
        smbios_config_from_cli(vec![cli(None)], fresh)
            .unwrap()
            .system
            .uuid,
        zero_guid()
    );
    assert_eq!(
        smbios_config_from_cli(vec![cli(Some(SmbiosUuid::Random))], fresh)
            .unwrap()
            .system
            .uuid,
        fresh
    );
    let config =
        smbios_config_from_cli(vec![cli(Some(SmbiosUuid::Fixed(fixed)))], fresh).unwrap();
    assert_eq!(config.system.uuid, fixed);
    assert_eq!(config.bios.vendor.unwrap(), "v");
    let none = smbios_config_from_cli(Vec::new(), fresh).unwrap();
    assert_eq!(none.system.uuid, zero_guid());
    assert!(none.bios.vendor.is_none());
}

fn empty_smbios() -> SmbiosCli {
    SmbiosCli {
        bios_vendor: None,
        bios_version: None,
        bios_release_date: None,
        bios_release: None,
        system_manufacturer: None,
        system_product: None,
        system_version: None,
        system_serial: None,
        system_sku: None,
        system_family: None,
        system_uuid: None,
    }
}

#[test]
fn smbios_arguments_are_merged() {
    let vendor = || SmbiosCli {
        bios_vendor: Some("v".to_owned()),
        ..empty_smbios()
    };
    let serial = |serial: &str| SmbiosCli {
        system_serial: Some(serial.to_owned()),
        system_uuid: Some(SmbiosUuid::Random),
        ..empty_smbios()
    };
    let merged = merge_smbios(vec![vendor(), empty_smbios(), serial("7")]).unwrap();
    assert_eq!(merged.bios_vendor.as_deref(), Some("v"));
    assert_eq!(merged.system_serial.as_deref(), Some("7"));
    assert!(merged.system_sku.is_none());
    assert_eq!(
        merge_smbios(vec![serial("7"), vendor(), serial("8")]).unwrap_err(),
        refused("an SMBIOS field is set twice")
    );
    assert!(smbios_config_from_cli(vec![vendor(), vendor()], zero_guid()).is_err());
    let config = plain_smbios(zero_guid());
    assert_eq!(
        format!("{:?}", copy_smbios(&config)),
        format!("{config:?}")
    );
}

#[test]
fn numbers_read_back() {
    for (n, radix) in [(0u128, 10u8), (255, 16), (8, 8), (u64::MAX as u128, 10)] {
        let mut text = String::new();
        push_numeral(&mut text, n, radix);
        assert_eq!(read_unsigned(&text, radix, u64::MAX), Some(n as u64));
    }
    let mut text = String::new();
    push_prefixed_hex(&mut text, 0xd000_3000);
    text.push(' ');
    push_fixed_hex(&mut text, 0xab, 4);
    text.push(' ');
    push_decimal(&mut text, u128::MAX);
    assert_eq!(
        text,
        "0xd0003000 00ab 340282366920938463463374607431768211455"
    );
    assert_eq!(read_unsigned("+7", 10, 255), "+7".parse::<u8>().ok().map(u64::from));
    assert_eq!(read_unsigned("256", 10, 255), None);
    assert_eq!(read_unsigned("-1", 10, 255), None);
    assert_eq!(read_unsigned("", 10, 255), None);
}

#[test]
fn addresses_read_back() {
    for text in ["0.0.0.0", "127.0.0.1", "255.255.255.255"] {
        assert_eq!(Ipv4Address::parse(text).unwrap().to_text(), text);
    }
    for text in ["1.2.3", "1.2.3.4.5", "01.2.3.4", "256.0.0.1", " 1.2.3.4", ""] {
        assert!(Ipv4Address::parse(text).is_none(), "{text}");
    }
    let socket = SocketAddress::parse_v4("127.0.0.1:5555").unwrap();
    assert_eq!(socket.to_text(), "127.0.0.1:5555");
    assert!(socket.is_loopback());
    assert!(SocketAddress::parse_v4("127.0.0.1:65536").is_none());
    assert!(SocketAddress::parse_v4("127.0.0.1").is_none());
}

#[test]
fn texts_split_as_expected() {
    let mut text = "a".to_owned();
    push_text(&mut text, "\u{e9}b");
    assert_eq!(text, "a\u{e9}b");
    assert_eq!(split_words(" a\tb\n c "), vec!["a", "b", "c"]);
    assert_eq!(
        split_once("a=b=c", '='),
        Some(("a".to_owned(), "b=c".to_owned()))
    );
    assert_eq!(split_once("abc", '='), None);
    let offset_tokens = command_line_tokens("\u{e9} x\t\u{20ac}y");
    assert_eq!(
        offset_tokens,
        vec![
            (0, "\u{e9}".to_owned()),
            (3, "x".to_owned()),
            (5, "\u{20ac}y".to_owned()),
        ]
    );
    assert_eq!(
        split_at_byte("\u{e9} x", 3),
        ("\u{e9} ".to_owned(), "x".to_owned())
    );
    let tokens = command_line_tokens("a \"b c\" d");
    let words: Vec<&str> = tokens.iter().map(|(_, word)| word.as_str()).collect();
    assert_eq!(words.first(), Some(&"a"));
    assert_eq!(
        read_text(&bytes_of_text("gr\u{fc}n")).unwrap(),
        "gr\u{fc}n"
    );
    assert_eq!(read_text(&vec![0xc3]), None);
}

#[test]
fn paths_are_compared_by_component() {
    assert!(same_path(&parse_path("/a//b/"), &parse_path("/a/./b")));
    assert!(!same_path(&parse_path("/a/b"), &parse_path("a/b")));
    assert!(lies_within(&parse_path("/a/b/c"), &parse_path("/a/b")));
    assert!(!lies_within(&parse_path("/a/bc"), &parse_path("/a/b")));
    assert!(same_path(
        &parse_parent("/a/b").unwrap(),
        &parse_path("/a")
    ));
    assert!(parse_parent("/").is_none());
}
