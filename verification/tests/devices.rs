//! Devices that are added on request, and the files and sockets behind them.

use std::io::Read;
use std::path::Path;

use openvmm::config::{Guid, HostOs};
use openvmm::controller::{
    AddVtl0ScsiDiskParams, RemoveVtl0ScsiDiskByNvmeNsidParams, RemoveVtl0ScsiDiskParams,
};
use openvmm::devices::{
    build_nic_backend, build_nvme_controller, build_pcie_device, build_pcie_devices,
    build_vfio_device, build_virtio_device,
    open_socket_verb, parse_nic_config, parse_port_config, parse_ports, parse_vfio_bar_addresses,
    push_signed, validate_pci_address, vfio_group_path, BarAddressConfig, BarSource, FileDisk,
    HostPortConfig, HostPortProtocol, NicBackend, NicEndpoint, NicRequest, NvmeNamespaceRequest,
    PcieDevicePlan, PcieDeviceRequest, PortRequest, SerialRelay, TapSource, VfioBarAddress, VhostUserDevice, VirtioDevicePlan,
    VirtioDeviceRequest, NVME_MAX_IO_QUEUES, NVME_MSIX_COUNT, VSOCK_GUEST_CID,
};
use openvmm::install::{contents_match, install_action, FileComparison, InstallAction};
use openvmm::net::MacAddress;
use openvmm::serial::{
    check_capability_pipe, check_control_parent, check_control_socket, check_restore_ready_pipe,
    clears_path, may_remove_socket, CapabilityReader, EntryFacts, EntryKind, FailureKind,
    IoFailure, PipeRead, ReaderStep,
};
use openvmm::vtl2::{
    add_disk_answer, add_vtl0_scsi_disk, keep_settings, remove_vtl0_scsi_disk, remove_vtl0_scsi_disk_by_nvme_nsid, SettingsCodes,
    StorageController, Vtl2DynamicSettings, Vtl2Settings,
};

fn vfio_bar_address(bar_index: u32, source: Option<BarSource>) -> VfioBarAddress {
    VfioBarAddress { bar_index, source }
}

#[test]
fn parse_vfio_bar_address_config() {
    let bars = parse_vfio_bar_addresses(&vec![
        vfio_bar_address(0, Some(BarSource::Host)),
        vfio_bar_address(4, Some(BarSource::Fixed(0x11_0000_0000))),
    ])
    .unwrap();

    assert_eq!(bars[0], BarAddressConfig::HostAssigned);
    assert_eq!(bars[1], BarAddressConfig::GuestAssigned);
    assert_eq!(bars[4], BarAddressConfig::Fixed(0x11_0000_0000));
}

#[test]
fn reject_invalid_vfio_bar_address_config() {
    assert!(parse_vfio_bar_addresses(&vec![vfio_bar_address(6, Some(BarSource::Host))]).is_err());
    assert!(parse_vfio_bar_addresses(&vec![vfio_bar_address(0, None)]).is_err());
    assert!(
        parse_vfio_bar_addresses(&vec![vfio_bar_address(0, Some(BarSource::Fixed(0)))]).is_err()
    );
    assert!(parse_vfio_bar_addresses(&vec![
        vfio_bar_address(0, Some(BarSource::Host)),
        vfio_bar_address(0, Some(BarSource::Fixed(0x1000))),
    ])
    .is_err());
}

#[test]
fn vfio_refusals_name_the_bar() {
    assert_eq!(
        parse_vfio_bar_addresses(&vec![vfio_bar_address(6, None)])
            .unwrap_err()
            .message,
        "VFIO BAR index 6 is out of range"
    );
    assert_eq!(
        parse_vfio_bar_addresses(&vec![
            vfio_bar_address(5, Some(BarSource::Host)),
            vfio_bar_address(5, None),
        ])
        .unwrap_err()
        .message,
        "duplicate VFIO BAR index 5"
    );
}

#[test]
fn vfio_devices_are_linux_devices_named_by_address() {
    let plan = build_vfio_device("0000:01:00.0", &Vec::new(), HostOs::Linux).unwrap();
    assert_eq!(
        plan.group_link,
        "/sys/bus/pci/devices/0000:01:00.0/iommu_group"
    );
    assert_eq!(plan.bar_addresses, [BarAddressConfig::GuestAssigned; 6]);
    assert!(build_vfio_device("0000:01:00.0", &Vec::new(), HostOs::Windows).is_err());
    assert!(build_vfio_device("../x", &Vec::new(), HostOs::Linux).is_err());
    assert!(validate_pci_address("..").is_err());
    validate_pci_address("0000:01:00.0").unwrap();

    assert_eq!(vfio_group_path(Some("42")).unwrap(), "/dev/vfio/42");
    assert_eq!(
        vfio_group_path(None).unwrap_err().message,
        "invalid iommu_group symlink"
    );
    assert_eq!(
        vfio_group_path(Some("x")).unwrap_err().message,
        "failed to parse IOMMU group ID"
    );
}

fn port(host_port: u32, guest_port: u32, protocol: Result<HostPortProtocol, i32>) -> PortRequest {
    PortRequest {
        host_port,
        guest_port,
        protocol,
    }
}

#[test]
fn forwarded_ports_fit_their_width() {
    assert_eq!(
        parse_port_config(port(65535, 0, Ok(HostPortProtocol::Udp))).unwrap(),
        HostPortConfig {
            protocol: HostPortProtocol::Udp,
            host_port: 65535,
            guest_port: 0,
        }
    );
    for (request, message) in [
        (port(1, 2, Err(-7)), "invalid protocol -7"),
        (
            port(65536, 2, Ok(HostPortProtocol::Tcp)),
            "host port out of range",
        ),
        (
            port(1, 65536, Ok(HostPortProtocol::Tcp)),
            "guest port out of range",
        ),
    ] {
        assert_eq!(parse_port_config(request).unwrap_err().message, message);
    }
    let ports = vec![
        port(80, 8080, Ok(HostPortProtocol::Tcp)),
        port(53, 5353, Ok(HostPortProtocol::Udp)),
    ];
    let parsed = parse_ports(&ports).unwrap();
    assert_eq!(parsed.len(), 2);
    assert_eq!(parsed[1].guest_port, 5353);
}

#[test]
fn signed_numbers_are_decimal() {
    for n in [0, 1, -1, i32::MAX, i32::MIN] {
        let mut text = String::new();
        push_signed(&mut text, n);
        assert_eq!(text, n.to_string());
    }
}

fn guid(data1: u32) -> Guid {
    Guid {
        data1,
        data2: 0x0203,
        data3: 0x0405,
        data4: [6, 7, 8, 9, 10, 11, 12, 13],
    }
}

const MAC: MacAddress = MacAddress {
    octets: [0, 0x15, 0x5d, 1, 2, 3],
};

#[test]
fn nic_backends_follow_the_host() {
    let tap = || {
        Some(NicBackend::Tap {
            source: Some(TapSource::Name("tap0".to_owned())),
        })
    };
    assert!(matches!(
        build_nic_backend(tap(), HostOs::Linux).unwrap(),
        NicEndpoint::Tap { .. }
    ));
    assert_eq!(
        build_nic_backend(tap(), HostOs::Windows).unwrap_err().message,
        "unsupported network backend"
    );
    assert_eq!(
        build_nic_backend(Some(NicBackend::Tap { source: None }), HostOs::Linux)
            .unwrap_err()
            .message,
        "missing tap source"
    );
    assert_eq!(
        build_nic_backend(None, HostOs::Linux).unwrap_err().message,
        "missing network backend"
    );
    match build_nic_backend(
        Some(NicBackend::Consomme {
            cidr: String::new(),
            ports: vec![port(80, 8080, Ok(HostPortProtocol::Tcp))],
        }),
        HostOs::Macos,
    )
    .unwrap()
    {
        NicEndpoint::Consomme { cidr, ports } => {
            assert_eq!(cidr, None);
            assert_eq!(ports.len(), 1);
        }
        other => panic!("unexpected endpoint: {other:?}"),
    }
    assert_eq!(
        build_nic_backend(
            Some(NicBackend::SwitchPort {
                switch: None,
                port: Some(guid(1)),
            }),
            HostOs::Windows
        )
        .unwrap_err()
        .message,
        "invalid switch ID"
    );
}

#[test]
fn vmbus_nics_need_an_identity() {
    let consomme = || {
        Some(NicBackend::Consomme {
            cidr: "10.0.0.0/24".to_owned(),
            ports: Vec::new(),
        })
    };
    let plan = parse_nic_config(
        NicRequest {
            backend: consomme(),
            nic_id: Some(guid(9)),
            mac_address: Some(MAC),
        },
        HostOs::Linux,
    )
    .unwrap();
    assert_eq!(plan.instance_id, guid(9));
    assert_eq!(plan.mac_address, MAC);
    for (request, message) in [
        (
            NicRequest {
                backend: consomme(),
                nic_id: None,
                mac_address: Some(MAC),
            },
            "invalid instance ID",
        ),
        (
            NicRequest {
                backend: consomme(),
                nic_id: Some(guid(1)),
                mac_address: None,
            },
            "invalid mac address",
        ),
        (
            NicRequest {
                backend: None,
                nic_id: Some(guid(1)),
                mac_address: Some(MAC),
            },
            "missing backend",
        ),
        (
            NicRequest {
                backend: Some(NicBackend::Other),
                nic_id: Some(guid(1)),
                mac_address: Some(MAC),
            },
            "unsupported backend",
        ),
    ] {
        assert_eq!(
            parse_nic_config(request, HostOs::Linux).unwrap_err().message,
            message
        );
    }
}

fn disk() -> FileDisk {
    FileDisk {
        path: "/disk.img".to_owned(),
        direct: true,
    }
}

#[test]
fn virtio_functions_are_planned_whole() {
    match build_virtio_device(
        Some(VirtioDeviceRequest::Blk {
            disk: Some(Some(disk())),
            read_only: true,
        }),
        HostOs::Linux,
    )
    .unwrap()
    {
        VirtioDevicePlan::Blk { disk, read_only } => {
            assert_eq!(disk.path, "/disk.img");
            assert!(disk.direct && read_only);
        }
        other => panic!("unexpected plan: {other:?}"),
    }
    match build_virtio_device(
        Some(VirtioDeviceRequest::Vsock {
            socket_path: "/s".to_owned(),
        }),
        HostOs::Linux,
    )
    .unwrap()
    {
        VirtioDevicePlan::Vsock { guest_cid, .. } => assert_eq!(guest_cid, VSOCK_GUEST_CID),
        other => panic!("unexpected plan: {other:?}"),
    }
    assert_eq!(VSOCK_GUEST_CID, 3);
    assert!(matches!(
        build_virtio_device(Some(VirtioDeviceRequest::Rng), HostOs::Windows).unwrap(),
        VirtioDevicePlan::Rng
    ));
    for (request, host, message) in [
        (None, HostOs::Linux, "missing virtio device kind"),
        (
            Some(VirtioDeviceRequest::Blk {
                disk: None,
                read_only: false,
            }),
            HostOs::Linux,
            "missing blk backend",
        ),
        (
            Some(VirtioDeviceRequest::Blk {
                disk: Some(None),
                read_only: false,
            }),
            HostOs::Linux,
            "missing disk backend kind",
        ),
        (
            Some(VirtioDeviceRequest::Net {
                max_queues: None,
                backend: None,
                mac_address: Some(MAC),
            }),
            HostOs::Linux,
            "missing net backend",
        ),
        (
            Some(VirtioDeviceRequest::Net {
                max_queues: Some(65536),
                backend: Some(Some(NicBackend::Consomme {
                    cidr: String::new(),
                    ports: Vec::new(),
                })),
                mac_address: Some(MAC),
            }),
            HostOs::Linux,
            "max_queues out of range",
        ),
        (
            Some(VirtioDeviceRequest::Console { relay: None }),
            HostOs::Linux,
            "missing console backend",
        ),
        (
            Some(VirtioDeviceRequest::Console { relay: Some(None) }),
            HostOs::Linux,
            "missing serial backend kind",
        ),
        (
            Some(VirtioDeviceRequest::VhostUser {
                socket_path: "/v".to_owned(),
                device: None,
            }),
            HostOs::Windows,
            "vhost-user is only supported on unix hosts",
        ),
        (
            Some(VirtioDeviceRequest::VhostUser {
                socket_path: "/v".to_owned(),
                device: Some(None),
            }),
            HostOs::Linux,
            "missing vhost-user device kind",
        ),
        (
            Some(VirtioDeviceRequest::VhostUser {
                socket_path: "/v".to_owned(),
                device: Some(Some(VhostUserDevice::Blk {
                    num_queues: Some(65536),
                    queue_size: None,
                })),
            }),
            HostOs::Linux,
            "queue value out of range",
        ),
    ] {
        assert_eq!(
            build_virtio_device(request, host).unwrap_err().message,
            message
        );
    }
}

#[test]
fn consoles_bind_or_connect() {
    assert_eq!(open_socket_verb(true), "connect to");
    assert_eq!(open_socket_verb(false), "bind");
    match build_virtio_device(
        Some(VirtioDeviceRequest::Console {
            relay: Some(Some(SerialRelay {
                socket_path: "/c".to_owned(),
                connect: true,
            })),
        }),
        HostOs::Linux,
    )
    .unwrap()
    {
        VirtioDevicePlan::Console { relay } => assert!(relay.connect),
        other => panic!("unexpected plan: {other:?}"),
    }
}

#[test]
fn nvme_controllers_keep_their_namespaces_in_order() {
    let namespace = |nsid: u32, disk: Option<Option<FileDisk>>| NvmeNamespaceRequest {
        nsid,
        read_only: nsid == 2,
        disk,
    };
    let plan = build_nvme_controller(vec![
        namespace(1, Some(Some(disk()))),
        namespace(2, Some(Some(disk()))),
    ])
    .unwrap();
    assert_eq!(plan.msix_count, NVME_MSIX_COUNT);
    assert_eq!(plan.max_io_queues, NVME_MAX_IO_QUEUES);
    assert_eq!((NVME_MSIX_COUNT, NVME_MAX_IO_QUEUES), (64, 64));
    assert_eq!(plan.namespaces[1].nsid, 2);
    assert!(plan.namespaces[1].read_only && !plan.namespaces[0].read_only);
    assert_eq!(
        build_nvme_controller(vec![namespace(1, None)])
            .unwrap_err()
            .message,
        "missing namespace backend"
    );
}

/// Installs as the build does: the library compares and decides.
fn install(source: &Path, destination: &Path) -> std::io::Result<()> {
    let source_permissions = fs_err::metadata(source)?.permissions();
    let (same_contents, same_permissions) = match fs_err::File::open(destination) {
        Err(error) if error.kind() == std::io::ErrorKind::NotFound => (false, false),
        Err(error) => return Err(error),
        Ok(mut installed) => {
            let mut file = fs_err::File::open(source)?;
            let lengths = (file.metadata()?.len(), installed.metadata()?.len());
            let mut same = false;
            if let Some(mut comparison) = FileComparison::start(lengths.0, lengths.1) {
                same = true;
                while same && comparison.remaining != 0 {
                    let mut left = vec![0; comparison.wanted()];
                    let mut right = vec![0; comparison.wanted()];
                    file.read_exact(&mut left)?;
                    installed.read_exact(&mut right)?;
                    same = comparison.accept(&left, &right);
                }
            }
            (
                same,
                fs_err::metadata(destination)?.permissions() == source_permissions,
            )
        }
    };
    match install_action(same_contents, same_permissions) {
        InstallAction::Copy => fs_err::copy(source, destination).map(|_| ()),
        InstallAction::SetPermissions => fs_err::set_permissions(destination, source_permissions),
        InstallAction::Nothing => Ok(()),
    }
}

#[test]
fn installs_missing_and_changed_binaries() {
    let dir = tempfile::tempdir().unwrap();
    let source = dir.path().join("download");
    let destination = dir.path().join("installed");
    let mut contents = vec![0x5a; 32 * 1024 + 1];
    fs_err::write(&source, &contents).unwrap();
    install(&source, &destination).unwrap();
    assert_eq!(fs_err::read(&destination).unwrap(), contents);

    contents[32 * 1024] = 0xa5;
    fs_err::write(&source, &contents).unwrap();
    install(&source, &destination).unwrap();
    assert_eq!(fs_err::read(&destination).unwrap(), contents);

    fs_err::write(&source, b"shorter").unwrap();
    install(&source, &destination).unwrap();
    assert_eq!(fs_err::read(&destination).unwrap(), b"shorter");
}

#[test]
fn missing_source_is_an_error() {
    let dir = tempfile::tempdir().unwrap();
    let destination = dir.path().join("installed");
    fs_err::write(&destination, b"installed").unwrap();
    assert_eq!(
        install(&dir.path().join("missing"), &destination)
            .unwrap_err()
            .kind(),
        std::io::ErrorKind::NotFound
    );
    assert_eq!(fs_err::read(destination).unwrap(), b"installed");
}

#[test]
fn files_are_compared_to_the_last_byte() {
    let contents = vec![0x5a; 32 * 1024 + 1];
    let mut changed = contents.clone();
    changed[32 * 1024] = 0xa5;
    assert!(contents_match(&contents, Some(&contents.clone())));
    assert!(!contents_match(&contents, Some(&changed)));
    assert!(!contents_match(&contents, Some(&contents[1..].to_vec())));
    assert!(!contents_match(&contents, None));
    assert_eq!(install_action(true, true), InstallAction::Nothing);
    assert_eq!(install_action(true, false), InstallAction::SetPermissions);
    assert_eq!(install_action(false, true), InstallAction::Copy);
}

fn entry(kind: EntryKind, mode: u32) -> EntryFacts {
    EntryFacts {
        kind,
        uid: 1000,
        mode,
        device: 1,
        inode: 2,
    }
}

#[test]
fn control_sockets_are_private() {
    check_control_parent(Some(&entry(EntryKind::Directory, 0o40700)), 1000).unwrap();
    assert_eq!(
        check_control_parent(None, 1000).unwrap_err().kind,
        FailureKind::InvalidInput
    );
    for parent in [
        entry(EntryKind::Directory, 0o40755),
        entry(EntryKind::Symlink, 0o40700),
    ] {
        assert_eq!(
            check_control_parent(Some(&parent), 1000).unwrap_err().kind,
            FailureKind::PermissionDenied
        );
    }
    assert!(check_control_parent(Some(&entry(EntryKind::Directory, 0o700)), 1001).is_err());

    let socket = entry(EntryKind::Socket, 0o140600);
    check_control_socket(&socket, &socket, 1000).unwrap();
    let open = entry(EntryKind::Socket, 0o140660);
    assert!(check_control_socket(&open, &open, 1000).is_err());
    assert!(may_remove_socket(Some(&socket), &socket));
    let replaced = EntryFacts { inode: 3, ..socket };
    assert!(!may_remove_socket(Some(&replaced), &socket));
    assert!(!may_remove_socket(None, &socket));
    assert!(clears_path(Some(&socket)));
    assert!(!clears_path(Some(&entry(EntryKind::Other, 0))));
    assert!(!clears_path(None));
}

fn feed(reads: Vec<PipeRead>) -> Option<Result<[u8; 32], IoFailure>> {
    let mut reader = CapabilityReader::new();
    for read in reads {
        match reader.accept(read) {
            ReaderStep::Again => {}
            ReaderStep::Done(bytes) => return Some(Ok(bytes)),
            ReaderStep::Refused(failure) => return Some(Err(failure)),
        }
    }
    None
}

#[test]
fn a_capability_is_the_whole_payload() {
    let bytes: Vec<u8> = (0..32).collect();
    let done = feed(vec![
        PipeRead::Data(bytes[..10].to_vec()),
        PipeRead::Interrupted,
        PipeRead::Data(bytes[10..].to_vec()),
        PipeRead::End,
    ]);
    assert_eq!(done.unwrap().unwrap().to_vec(), bytes);

    let short = feed(vec![PipeRead::Data(bytes[..31].to_vec()), PipeRead::End]);
    assert_eq!(
        short.unwrap().unwrap_err().kind,
        FailureKind::UnexpectedEof
    );
    let long = feed(vec![
        PipeRead::Data(bytes.clone()),
        PipeRead::Data(vec![0]),
        PipeRead::End,
    ]);
    assert!(long.unwrap().is_err());
    let open = feed(vec![PipeRead::Data(bytes), PipeRead::WouldBlock]);
    assert!(open.unwrap().is_err());
}

#[test]
fn pipes_are_checked_before_use() {
    check_capability_pipe(&entry(EntryKind::Fifo, 0)).unwrap();
    assert!(check_capability_pipe(&entry(EntryKind::Socket, 0)).is_err());
    check_restore_ready_pipe("//./pipe/ready").unwrap();
    assert!(check_restore_ready_pipe("/tmp/ready").is_err());
}

const CODES: SettingsCodes = SettingsCodes {
    scsi_protocol: 1,
    nvme_device: 2,
    single_backing: 3,
};

fn settings() -> Vtl2Settings {
    Vtl2Settings {
        dynamic: Some(Vtl2DynamicSettings {
            storage_controllers: vec![StorageController {
                instance_id: guid(0x01020304).to_text(),
                protocol: 1,
                luns: Vec::new(),
            }],
        }),
    }
}

fn added(lun: u32) -> AddVtl0ScsiDiskParams {
    AddVtl0ScsiDiskParams {
        controller_guid: guid(0x01020304),
        lun,
        device_type: 2,
        device_path: guid(5),
        sub_device_path: 7,
    }
}

#[test]
fn identifiers_print_in_five_groups() {
    assert_eq!(
        guid(0x01020304).to_text(),
        "01020304-0203-0405-0607-08090a0b0c0d"
    );
}

#[test]
fn a_removed_disk_leaves_the_settings_as_they_were() {
    let mut settings = settings();
    let before = format!("{settings:?}");
    add_vtl0_scsi_disk(&mut settings, &added(4), "disk0".to_owned(), CODES).unwrap();
    let lun = &settings.dynamic.as_ref().unwrap().storage_controllers[0].luns[0];
    assert_eq!((lun.location, lun.device_id.as_str()), (4, "disk0"));
    assert_eq!(lun.vendor_id, "OpenVMM");

    remove_vtl0_scsi_disk(
        &mut settings,
        &RemoveVtl0ScsiDiskParams {
            controller_guid: guid(0x01020304),
            lun: 4,
        },
        CODES,
    );
    assert_eq!(format!("{settings:?}"), before);
}

#[test]
fn a_disk_is_found_by_its_namespace() {
    let mut settings = settings();
    add_vtl0_scsi_disk(&mut settings, &added(4), "disk0".to_owned(), CODES).unwrap();
    let params = RemoveVtl0ScsiDiskByNvmeNsidParams {
        controller_guid: guid(0x01020304),
        nvme_controller_guid: guid(5),
        nsid: 7,
    };
    assert_eq!(
        remove_vtl0_scsi_disk_by_nvme_nsid(&mut settings, &params, CODES),
        Some(4)
    );
    assert_eq!(
        remove_vtl0_scsi_disk_by_nvme_nsid(&mut settings, &params, CODES),
        None
    );
}

#[test]
fn a_disk_needs_its_controller() {
    let mut settings = settings();
    let params = AddVtl0ScsiDiskParams {
        controller_guid: guid(1),
        ..added(4)
    };
    assert_eq!(
        add_vtl0_scsi_disk(&mut settings, &params, "disk0".to_owned(), CODES)
            .unwrap_err()
            .message,
        "SCSI controller 00000001-0203-0405-0607-08090a0b0c0d not found"
    );
}

#[test]
fn pcie_devices_are_built_by_their_kind() {
    let refused = |device: Option<PcieDeviceRequest>| {
        build_pcie_device(device, HostOs::Linux)
            .unwrap_err()
            .message
    };
    assert_eq!(refused(None), "missing PCIe device kind");
    assert_eq!(
        refused(Some(PcieDeviceRequest::Virtio(None))),
        "missing virtio device kind"
    );
    assert!(matches!(
        build_pcie_device(
            Some(PcieDeviceRequest::Virtio(Some(VirtioDeviceRequest::Rng))),
            HostOs::Linux
        ),
        Ok(PcieDevicePlan::Virtio(VirtioDevicePlan::Rng))
    ));
    let vfio = || {
        Some(PcieDeviceRequest::Vfio {
            host_pci_address: "0000:01:00.0".to_owned(),
            bar_addresses: Vec::new(),
        })
    };
    match build_pcie_device(vfio(), HostOs::Linux).unwrap() {
        PcieDevicePlan::Vfio(plan) => assert_eq!(
            plan.group_link,
            "/sys/bus/pci/devices/0000:01:00.0/iommu_group"
        ),
        other => panic!("unexpected device: {other:?}"),
    }
    let built = build_pcie_devices(
        vec![
            ("rp0".to_owned(), Some(PcieDeviceRequest::Nvme(Vec::new()))),
            ("rp1".to_owned(), vfio()),
        ],
        HostOs::Linux,
    )
    .unwrap();
    assert_eq!(built[0].0, "rp0");
    assert!(matches!(&built[0].1, PcieDevicePlan::Nvme(plan) if plan.namespaces.is_empty()));
    assert_eq!(built[1].0, "rp1");
    assert_eq!(
        build_pcie_devices(
            vec![
                ("rp0".to_owned(), None),
                ("rp1".to_owned(), Some(PcieDeviceRequest::Virtio(None))),
            ],
            HostOs::Linux
        )
        .unwrap_err()
        .message,
        "missing PCIe device kind"
    );
}

#[test]
fn settings_are_kept_once_they_are_accepted() {
    let refusal = |text: &str| openvmm::refusal::Refusal {
        message: text.to_owned(),
    };
    let edited = || Vtl2Settings {
        dynamic: Some(Vtl2DynamicSettings {
            storage_controllers: Vec::new(),
        }),
    };
    let mut current = Some(Vtl2Settings { dynamic: None });
    assert_eq!(
        keep_settings(&mut current, edited(), Err(refusal("busy"))).unwrap_err(),
        refusal("busy")
    );
    assert!(current.as_ref().unwrap().dynamic.is_none());
    keep_settings(&mut current, edited(), Ok(())).unwrap();
    assert!(current.unwrap().dynamic.is_some());
    assert_eq!(
        add_disk_answer(Err(refusal("busy")), Err(refusal("not found"))).unwrap_err(),
        refusal("busy")
    );
    assert_eq!(
        add_disk_answer(Ok(()), Err(refusal("not found"))).unwrap_err(),
        refusal("not found")
    );
    assert!(add_disk_answer(Ok(()), Ok(())).is_ok());
}
