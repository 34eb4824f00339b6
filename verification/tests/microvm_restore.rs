//! What a microVM snapshot records of the host, and what a restore accepts.

use openvmm::chipset::{base_chipset_type, BaseChipsetType, ChipsetOptions, IgvmPersonality, IsolationRequest};
use openvmm::config::{HostOs, MachineProfile, MicrovmNetworkConfig, MicrovmNetworkProfile};
use openvmm::console::{
    effective_microvm_console, microvm_console_attachment_from_cli,
    microvm_console_attachment_from_snapshot, validate_microvm_console_attachment_namespace,
    ResolvedIdentity, SerialConfigCli, VirtioConsoleReconnectPolicy, MICROVM_CONSOLE_STABLE_ID,
};
use openvmm::filesystem::{
    canonical_microvm_filesystem_root, effective_microvm_filesystem, microvm_filesystem_attachment,
    microvm_filesystem_slot_from_snapshot, root_identity,
    validate_microvm_filesystem_private_storage, CanonicalRoot, ComponentKind, FileFacts, HostRoot,
    MicrovmFilesystemAccess, MicrovmMount, RootComponent, RootIdentity,
    MICROVM_FILESYSTEM_STABLE_ID,
};
use openvmm::microvm::MICROVM_CONSOLE_RECONNECT_TIMEOUT_MS;
use openvmm::net::{Ipv4Address, SocketAddress};
use openvmm::network_attachment::{
    effective_microvm_network, microvm_network_attachment, planned_microvm_network, EgressPolicy,
    MicrovmNetRequest, MicrovmNetworkOptions, PolicyBinding, MICROVM_NETWORK_STABLE_ID,
};
use openvmm::refusal::Refusal;
use openvmm::restore::align_legacy_network_policy_contract;
use openvmm::serial::{
    canonical_microvm_console_path, EndpointPath, EntryFacts, EntryKind, Found,
    MicrovmConsoleSocketCleanup,
};
use openvmm::snapshot::{
    SnapshotAttachment, SnapshotDevice, SnapshotMachineContract, SnapshotMicrovmFilesystem,
    SnapshotMicrovmNetwork,
};

fn refused(text: &str) -> Refusal {
    Refusal {
        message: text.to_owned(),
    }
}

#[test]
fn maps_igvm_personalities_to_chipsets() {
    let igvm = ChipsetOptions {
        machine: MachineProfile::Standard,
        igvm: true,
        igvm_personality: None,
        isolation: None,
        pcat: false,
        uefi: false,
        hv: false,
    };
    for (opt, expected) in [
        (
            ChipsetOptions {
                igvm_personality: Some(IgvmPersonality::Uefi),
                ..igvm
            },
            BaseChipsetType::HypervGen2Uefi,
        ),
        (
            ChipsetOptions {
                igvm_personality: Some(IgvmPersonality::LinuxDirect),
                ..igvm
            },
            BaseChipsetType::UnenlightenedLinuxDirect,
        ),
        (
            ChipsetOptions {
                igvm_personality: Some(IgvmPersonality::LinuxDirect),
                hv: true,
                ..igvm
            },
            BaseChipsetType::HyperVGen2LinuxDirect,
        ),
        (
            ChipsetOptions {
                igvm_personality: Some(IgvmPersonality::LinuxDirect),
                isolation: Some(IsolationRequest::Snp),
                ..igvm
            },
            BaseChipsetType::EnlightenedLinuxDirect,
        ),
        (ChipsetOptions { hv: true, ..igvm }, BaseChipsetType::HclHost),
    ] {
        assert_eq!(base_chipset_type(&opt), expected);
    }
    let plain = ChipsetOptions {
        igvm: false,
        ..igvm
    };
    for (opt, expected) in [
        (
            ChipsetOptions {
                machine: MachineProfile::Microvm,
                ..plain
            },
            BaseChipsetType::Microvm,
        ),
        (
            ChipsetOptions {
                pcat: true,
                ..plain
            },
            BaseChipsetType::HypervGen1,
        ),
        (
            ChipsetOptions {
                uefi: true,
                ..plain
            },
            BaseChipsetType::HypervGen2Uefi,
        ),
        (plain, BaseChipsetType::UnenlightenedLinuxDirect),
    ] {
        assert_eq!(base_chipset_type(&opt), expected);
    }
}

fn socket_attachment(path: &str) -> SnapshotAttachment {
    SnapshotAttachment {
        stable_id: MICROVM_CONSOLE_STABLE_ID.to_owned(),
        kind: "virtio-console".to_owned(),
        required: false,
        reconnect_policy: "recreate-listener".to_owned(),
        identity_kind: "unix-socket".to_owned(),
        identity: path.as_bytes().to_vec(),
        length: 0,
        reconnect_timeout_ms: 0,
    }
}

fn unresolved() -> ResolvedIdentity {
    ResolvedIdentity {
        path: Err(refused("no such path")),
        v6: None,
    }
}

#[test]
fn socket_attachment_must_stay_in_snapshot_parent() {
    let allowed = tempfile::tempdir().unwrap();
    let allowed = fs_err::canonicalize(allowed.path()).unwrap();
    let attachment = socket_attachment(allowed.join("console.sock").to_str().unwrap());
    validate_microvm_console_attachment_namespace(&attachment, allowed.to_str().unwrap()).unwrap();

    let outside = tempfile::tempdir().unwrap();
    let outside = fs_err::canonicalize(outside.path()).unwrap();
    let attachment = socket_attachment(outside.join("console.sock").to_str().unwrap());
    let refusal =
        validate_microvm_console_attachment_namespace(&attachment, allowed.to_str().unwrap())
            .unwrap_err();
    assert!(refusal.message.contains("snapshot parent namespace"));
}

#[test]
fn named_pipe_attachment_uses_dedicated_namespace() {
    let mut attachment = socket_attachment("unused");
    attachment.identity_kind = "named-pipe".to_owned();
    attachment.identity = b"//./pipe/openvmm-microvm-console0".to_vec();
    validate_microvm_console_attachment_namespace(&attachment, "snapshot").unwrap();

    attachment.identity = b"//./pipe/unrelated".to_vec();
    assert!(validate_microvm_console_attachment_namespace(&attachment, "snapshot").is_err());
}

#[test]
fn console_identities_are_text_of_a_known_kind() {
    let mut attachment = socket_attachment("unused");
    attachment.identity = vec![0xff, 0xfe];
    assert_eq!(
        validate_microvm_console_attachment_namespace(&attachment, "/s").unwrap_err(),
        refused("microVM console socket identity is not valid UTF-8")
    );
    attachment.identity_kind = "carrier-pigeon".to_owned();
    assert_eq!(
        validate_microvm_console_attachment_namespace(&attachment, "/s").unwrap_err(),
        refused("unsupported microVM console identity kind 'carrier-pigeon'")
    );
    for kind in ["tcp", "provider", "disconnected"] {
        attachment.identity_kind = kind.to_owned();
        validate_microvm_console_attachment_namespace(&attachment, "/s").unwrap();
    }
}

#[test]
fn client_attachment_is_required_and_bounded() {
    let requested = SerialConfigCli::ConnectTcp(SocketAddress::parse_v4("127.0.0.1:5555").unwrap());
    let (_, resource, snapshot) =
        microvm_console_attachment_from_cli(&requested, HostOs::Linux).unwrap();
    assert!(snapshot.required);
    assert_eq!(snapshot.reconnect_policy, "reconnect-client");
    assert_eq!(
        snapshot.reconnect_timeout_ms,
        MICROVM_CONSOLE_RECONNECT_TIMEOUT_MS
    );
    assert_eq!(
        resource.reconnect_policy,
        VirtioConsoleReconnectPolicy::ReconnectClient
    );

    assert!(microvm_console_attachment_from_snapshot(
        &snapshot,
        None,
        &unresolved(),
        HostOs::Linux
    )
    .is_err());
    let requested = Ok(requested);
    let (restored, _, restored_snapshot) = microvm_console_attachment_from_snapshot(
        &snapshot,
        Some(&requested),
        &unresolved(),
        HostOs::Linux,
    )
    .unwrap();
    assert!(matches!(restored, SerialConfigCli::ConnectTcp(_)));
    assert!(restored_snapshot.same(&snapshot));
    assert_eq!(restored_snapshot.identity, b"127.0.0.1:5555");
}

#[test]
fn ipv6_loopback_listeners_are_found_again() {
    for text in ["[::1]:5555", "[::1%3]:5555"] {
        let listener = SerialConfigCli::Tcp(SocketAddress::parse_loopback(text).unwrap());
        let (_, _, snapshot) =
            microvm_console_attachment_from_cli(&listener, HostOs::Linux).unwrap();
        assert_eq!(snapshot.identity, text.as_bytes());
        let (restored, _, restored_snapshot) = microvm_console_attachment_from_snapshot(
            &snapshot,
            None,
            &unresolved(),
            HostOs::Linux,
        )
        .unwrap();
        assert!(matches!(restored, SerialConfigCli::Tcp(_)));
        assert!(restored_snapshot.same(&snapshot));
        let client = Ok(SerialConfigCli::ConnectTcp(
            SocketAddress::parse_loopback(text).unwrap(),
        ));
        assert!(microvm_console_attachment_from_snapshot(
            &snapshot,
            Some(&client),
            &unresolved(),
            HostOs::Linux
        )
        .is_err());
    }
    for text in ["[::2]:5555", "[::1]5555", "[::1]:", "[::1%]:1", "::1:5555", "[::1]:65536"] {
        assert!(SocketAddress::parse_loopback(text).is_none(), "{text}");
    }
}

#[test]
fn tcp_attachment_rejects_non_loopback_addresses() {
    assert!(microvm_console_attachment_from_cli(
        &SerialConfigCli::Tcp(SocketAddress::parse_v4("0.0.0.0:5555").unwrap()),
        HostOs::Linux
    )
    .is_err());
    assert!(microvm_console_attachment_from_cli(
        &SerialConfigCli::ConnectTcp(SocketAddress::parse_v4("192.0.2.1:5555").unwrap()),
        HostOs::Linux
    )
    .is_err());
}

#[test]
fn inherited_attachment_requires_matching_replacement() {
    let (_, _, snapshot) =
        microvm_console_attachment_from_cli(&SerialConfigCli::Console, HostOs::Linux).unwrap();
    assert!(snapshot.required);
    assert_eq!(snapshot.reconnect_policy, "require-inherited-attachment");
    assert!(microvm_console_attachment_from_snapshot(
        &snapshot,
        None,
        &unresolved(),
        HostOs::Linux
    )
    .is_err());
    assert!(microvm_console_attachment_from_snapshot(
        &snapshot,
        Some(&Ok(SerialConfigCli::Console)),
        &unresolved(),
        HostOs::Linux
    )
    .is_ok());
    let other = SerialConfigCli::ConnectTcp(SocketAddress::parse_v4("127.0.0.1:5555").unwrap());
    assert!(microvm_console_attachment_from_snapshot(
        &snapshot,
        Some(&Ok(other)),
        &unresolved(),
        HostOs::Linux
    )
    .is_err());
}

#[test]
fn disconnected_attachment_preserves_discard_policy() {
    let (config, resource, snapshot) =
        microvm_console_attachment_from_cli(&SerialConfigCli::Disconnected, HostOs::Linux).unwrap();
    assert!(matches!(config, SerialConfigCli::Disconnected));
    assert!(!snapshot.required);
    assert_eq!(snapshot.reconnect_policy, "discard-while-disconnected");
    assert_eq!(
        resource.reconnect_policy,
        VirtioConsoleReconnectPolicy::DiscardWhileDisconnected
    );

    let (restored, _, restored_snapshot) =
        microvm_console_attachment_from_snapshot(&snapshot, None, &unresolved(), HostOs::Linux)
            .unwrap();
    assert!(matches!(restored, SerialConfigCli::Disconnected));
    assert!(restored_snapshot.same(&snapshot));
}

#[test]
fn a_machine_without_console_stays_without() {
    assert!(
        effective_microvm_console(None, None, &unresolved(), HostOs::Linux)
            .unwrap()
            .is_none()
    );
}

fn empty_contract() -> SnapshotMachineContract {
    SnapshotMachineContract {
        machine_profile: "microvm".to_owned(),
        microvm_abi_version: 1,
        source_hypervisor: "kvm".to_owned(),
        effective_command_line: String::new(),
        devices: Vec::new(),
        attachments: Vec::new(),
        microvm_network: None,
        microvm_filesystem: None,
        microvm_filesystem_slot_version: 0,
        microvm_sandbox_blocks: Vec::new(),
        memory_expansion_version: 0,
        memory_capacity_bytes: 1024,
        state_unit_names: Vec::new(),
        tsc_frequency_hz: 1_000_000_000,
        apic_frequency_hz: Some(1_000_000_000),
        cpu_contract: vec![1, 2, 3],
    }
}

fn network_contract() -> SnapshotMachineContract {
    let network = MicrovmNetworkConfig::from_str("10.0.0.2/24").unwrap();
    let mut contract = empty_contract();
    contract.devices.push(SnapshotDevice {
        stable_id: MICROVM_NETWORK_STABLE_ID.to_owned(),
    });
    contract.attachments.push(microvm_network_attachment());
    contract.microvm_network = Some(SnapshotMicrovmNetwork {
        profile: "portable".to_owned(),
        guest_ipv4: network.guest_ipv4.bits,
        prefix_length: network.prefix_length.into(),
        gateway_ipv4: network.derived_gateway_ipv4.bits,
        guest_mac: network.guest_mac.octets.to_vec(),
        gateway_mac: network.gateway_mac.octets.to_vec(),
        egress_policy_encoding_version: 2,
        egress_policy_sha256: vec![0x11; 32],
    });
    contract
}

fn endpoint_options() -> MicrovmNetworkOptions {
    MicrovmNetworkOptions {
        net: Vec::new(),
        network_profile: Some(MicrovmNetworkProfile::Portable),
        net_tap: false,
        allow_host: 0,
        block_host: 0,
        allow_endpoint: 3,
    }
}

fn bound_policy() -> PolicyBinding {
    PolicyBinding {
        policy: Ok(EgressPolicy {
            next_hops: vec![
                Ipv4Address::parse("10.0.0.1").unwrap(),
                Ipv4Address::parse("10.0.0.9").unwrap(),
            ],
            allows_gateway_dns: false,
        }),
        snapshot_check: Ok(()),
    }
}

#[test]
fn network_restore_keeps_the_identity_and_the_policy() {
    let contract = network_contract();
    let restored = effective_microvm_network(&endpoint_options(), Some(&contract), bound_policy())
        .unwrap()
        .unwrap();
    assert_eq!(
        restored.config.guest_ipv4,
        Ipv4Address::parse("10.0.0.2").unwrap()
    );
    assert_eq!(
        restored.policy.next_hops,
        vec![
            Ipv4Address::parse("10.0.0.1").unwrap(),
            Ipv4Address::parse("10.0.0.9").unwrap(),
        ]
    );
    let mut other_policy = bound_policy();
    other_policy.snapshot_check = Err(refused("policy digest differs"));
    assert_eq!(
        effective_microvm_network(&endpoint_options(), Some(&contract), other_policy).unwrap_err(),
        refused("policy digest differs")
    );
}

#[test]
fn legacy_network_policy_contract_alignment_preserves_validated_digest() {
    let mut saved = network_contract();
    let saved_network = saved.microvm_network.as_mut().unwrap();
    saved_network.egress_policy_encoding_version = 0;
    saved_network.egress_policy_sha256 = vec![0x5a; 32];
    let mut expected = network_contract();

    align_legacy_network_policy_contract(&saved, &mut expected);
    let (saved, expected) = (
        saved.microvm_network.unwrap(),
        expected.microvm_network.unwrap(),
    );
    assert_eq!(format!("{saved:?}"), format!("{expected:?}"));
}

#[test]
fn current_network_policy_is_not_aligned() {
    let mut saved = network_contract();
    saved.microvm_network.as_mut().unwrap().egress_policy_sha256 = vec![0x5a; 32];
    let mut expected = network_contract();
    align_legacy_network_policy_contract(&saved, &mut expected);
    assert_eq!(
        expected.microvm_network.unwrap().egress_policy_sha256,
        vec![0x11; 32]
    );
}

#[test]
fn network_restore_rejects_attachment_identity_change() {
    let mut contract = network_contract();
    let attachment = contract
        .attachments
        .iter_mut()
        .find(|attachment| attachment.stable_id == MICROVM_NETWORK_STABLE_ID)
        .unwrap();
    attachment.identity.push(b'x');
    assert!(
        effective_microvm_network(&endpoint_options(), Some(&contract), bound_policy()).is_err()
    );
}

#[test]
fn network_restore_requires_portable_profile() {
    let contract = network_contract();
    let options = MicrovmNetworkOptions {
        net: Vec::new(),
        network_profile: None,
        net_tap: false,
        allow_host: 1,
        block_host: 0,
        allow_endpoint: 0,
    };
    assert_eq!(
        effective_microvm_network(&options, Some(&contract), bound_policy()).unwrap_err(),
        refused("networked microVM snapshot restore requires --network-profile portable")
    );
}

#[test]
fn a_new_machine_takes_its_identity_from_the_options() {
    let identity = MicrovmNetworkConfig::from_str("10.0.0.2/24").unwrap();
    let mut options = endpoint_options();
    options.net.push(MicrovmNetRequest::Microvm(identity));
    assert_eq!(
        planned_microvm_network(&options, None).unwrap(),
        Some(identity)
    );
    options.net.push(MicrovmNetRequest::Other);
    assert!(planned_microvm_network(&options, None).is_err());
}

fn directory() -> FileFacts {
    FileFacts {
        is_symlink: false,
        is_dir: true,
        is_reparse_point: false,
    }
}

fn component(kind: ComponentKind, path: &str) -> RootComponent {
    RootComponent {
        kind,
        path: path.to_owned(),
        facts: Ok(directory()),
    }
}

/// A directory below the file system root, by its path and inode.
fn host_root(path: &str, inode: u64) -> HostRoot {
    HostRoot {
        empty: false,
        components: vec![
            component(ComponentKind::RootDir, "/"),
            component(ComponentKind::Normal, path),
        ],
        canonical: Ok(CanonicalRoot {
            path: path.to_owned(),
            facts: directory(),
            identity: RootIdentity::Unix { device: 7, inode },
        }),
    }
}

fn mount(path: &str, inode: u64, access: MicrovmFilesystemAccess) -> Option<MicrovmMount> {
    Some(MicrovmMount {
        guest_target: "/mnt/share".to_owned(),
        access,
        target_check: Ok(()),
        host: host_root(path, inode),
    })
}

fn dormant_filesystem_contract() -> SnapshotMachineContract {
    let mut contract = empty_contract();
    contract.devices.push(SnapshotDevice {
        stable_id: MICROVM_FILESYSTEM_STABLE_ID.to_owned(),
    });
    contract.microvm_filesystem_slot_version = 1;
    contract
}

fn filesystem_contract(path: &str, inode: u64) -> SnapshotMachineContract {
    let (root_path, attachment) = microvm_filesystem_attachment(host_root(path, inode)).unwrap();
    let mut contract = dormant_filesystem_contract();
    contract.attachments.push(attachment);
    contract.microvm_filesystem = Some(SnapshotMicrovmFilesystem {
        guest_mount_target: "/mnt/share".to_owned(),
        access_mode: MicrovmFilesystemAccess::ReadOnly.as_str().to_owned(),
        canonical_host_path: root_path,
    });
    contract
}

#[test]
fn filesystem_restore_requires_same_live_root_identity() {
    let contract = filesystem_contract("/share", 10);
    let restored = effective_microvm_filesystem(
        mount("/share", 10, MicrovmFilesystemAccess::ReadOnly),
        Some(&contract),
        &Ok(()),
    )
    .unwrap()
    .unwrap();
    assert_eq!(restored.config.guest_mount_target, "/mnt/share");
    assert!(restored.attachment.same(&contract.attachments[0]));

    assert!(effective_microvm_filesystem(
        mount("/replacement", 11, MicrovmFilesystemAccess::ReadOnly),
        Some(&contract),
        &Ok(()),
    )
    .is_err());
    assert!(effective_microvm_filesystem(
        mount("/share", 11, MicrovmFilesystemAccess::ReadOnly),
        Some(&contract),
        &Ok(()),
    )
    .is_err());
}

#[test]
fn filesystem_restore_rejects_same_root_at_a_new_path() {
    let contract = filesystem_contract("/original", 10);
    assert!(effective_microvm_filesystem(
        mount("/moved", 10, MicrovmFilesystemAccess::ReadOnly),
        Some(&contract),
        &Ok(()),
    )
    .is_err());
}

#[test]
fn filesystem_restore_rejects_missing_or_changed_policy() {
    let contract = filesystem_contract("/share", 10);
    assert!(effective_microvm_filesystem(None, Some(&contract), &Ok(())).is_err());
    assert!(effective_microvm_filesystem(
        mount("/share", 10, MicrovmFilesystemAccess::ReadWrite),
        Some(&contract),
        &Ok(()),
    )
    .is_err());
}

#[test]
fn filesystem_restore_without_mount_preserves_dormant_slot() {
    let contract = dormant_filesystem_contract();
    assert!(microvm_filesystem_slot_from_snapshot(&contract).unwrap());
    assert!(effective_microvm_filesystem(None, Some(&contract), &Ok(()))
        .unwrap()
        .is_none());
}

#[test]
fn filesystem_restore_attaches_mount_to_dormant_slot() {
    let contract = dormant_filesystem_contract();
    let filesystem = effective_microvm_filesystem(
        mount("/share", 10, MicrovmFilesystemAccess::ReadWrite),
        Some(&contract),
        &Ok(()),
    )
    .unwrap()
    .unwrap();
    assert_eq!(filesystem.config.guest_mount_target, "/mnt/share");
    assert_eq!(
        filesystem.config.access,
        MicrovmFilesystemAccess::ReadWrite
    );
    assert_eq!(filesystem.root_path, "/share");
}

#[test]
fn filesystem_restore_rejects_mount_for_legacy_snapshot_without_slot() {
    let contract = network_contract();
    let error = match effective_microvm_filesystem(
        mount("/share", 10, MicrovmFilesystemAccess::ReadOnly),
        Some(&contract),
        &Ok(()),
    ) {
        Err(error) => error,
        Ok(_) => panic!("legacy snapshot unexpectedly accepted a restore-time mount"),
    };
    assert!(error
        .message
        .contains("does not support restore-time microVM filesystem attachment"));
}

#[test]
fn filesystem_root_rejects_parent_components() {
    let mut root = host_root("/root", 1);
    root.components
        .push(component(ComponentKind::Normal, "/root/child"));
    root.components
        .push(component(ComponentKind::ParentDir, "/root/child/.."));
    assert_eq!(
        canonical_microvm_filesystem_root(root.empty, &root.components, root.canonical)
            .unwrap_err(),
        refused("microVM filesystem host path contains a parent component")
    );
}

#[test]
fn filesystem_root_rejects_symbolic_link_components() {
    let mut root = host_root("/root", 1);
    root.components.push(RootComponent {
        kind: ComponentKind::Normal,
        path: "/root/link".to_owned(),
        facts: Ok(FileFacts {
            is_symlink: true,
            is_dir: false,
            is_reparse_point: false,
        }),
    });
    assert_eq!(
        canonical_microvm_filesystem_root(root.empty, &root.components, root.canonical)
            .unwrap_err(),
        refused("microVM filesystem path component is a symbolic link: /root/link")
    );
}

#[test]
fn filesystem_roots_are_identified_by_the_host() {
    let (kind, bytes) = root_identity(&RootIdentity::Unix {
        device: 0x0102,
        inode: 3,
    })
    .unwrap();
    assert_eq!(kind, "unix-device-inode-v1");
    let mut expected = b"openvmm-microvm-fs-unix-v1\0".to_vec();
    expected.extend_from_slice(&0x0102u64.to_le_bytes());
    expected.extend_from_slice(&3u64.to_le_bytes());
    assert_eq!(bytes, expected);

    let (kind, bytes) = root_identity(&RootIdentity::Windows {
        volume: Some(vec![0x41, 0x42]),
        file_id: 9,
    })
    .unwrap();
    assert_eq!(kind, "windows-volume-file-id-v1");
    let mut expected = b"openvmm-microvm-fs-windows-v1\0".to_vec();
    expected.extend_from_slice(&[2, 0, 0, 0, 0x41, 0, 0x42, 0]);
    expected.extend_from_slice(&9u64.to_le_bytes());
    assert_eq!(bytes, expected);

    assert!(root_identity(&RootIdentity::Windows {
        volume: None,
        file_id: 9
    })
    .is_err());
    assert!(root_identity(&RootIdentity::Unsupported).is_err());
}

#[test]
fn filesystem_export_rejects_snapshot_and_memory_storage() {
    let parent = tempfile::tempdir().unwrap();
    let parent = fs_err::canonicalize(parent.path()).unwrap();
    let root = parent.join("share");
    let memory = root.join("memory.bin");
    let restore = root.join("restore");
    let text = |path: &std::path::Path| path.to_str().unwrap().to_owned();
    let root_text = text(&root);

    assert!(validate_microvm_filesystem_private_storage(
        &root_text,
        Some(&text(&root)),
        None,
        None,
    )
    .is_err());
    assert!(validate_microvm_filesystem_private_storage(
        &root_text,
        None,
        Some(&text(&restore)),
        None,
    )
    .is_err());
    assert!(validate_microvm_filesystem_private_storage(
        &root_text,
        None,
        None,
        Some(&text(&memory)),
    )
    .is_err());
    validate_microvm_filesystem_private_storage(&root_text, Some(&text(&parent)), None, None)
        .unwrap();
}

#[test]
fn a_sibling_with_the_same_prefix_is_outside_the_export() {
    validate_microvm_filesystem_private_storage("/share", Some("/share2"), None, None).unwrap();
    assert!(
        validate_microvm_filesystem_private_storage("/share", Some("/share/./x"), None, None)
            .is_err()
    );
}

fn socket_entry(inode: u64) -> EntryFacts {
    EntryFacts {
        kind: EntryKind::Socket,
        uid: 1000,
        mode: 0o600,
        device: 7,
        inode,
    }
}

#[test]
fn cleanup_guard_does_not_remove_replaced_socket() {
    let cleanup =
        MicrovmConsoleSocketCleanup::new("/run/console.sock".to_owned(), &Ok(socket_entry(1)))
            .unwrap();
    assert!(cleanup.remove_if_owned(&Found::Entry(socket_entry(2))).is_err());
    assert!(cleanup.remove_if_owned(&Found::Entry(socket_entry(1))).unwrap());
    assert!(!cleanup.remove_if_owned(&Found::Missing).unwrap());
    assert!(cleanup
        .remove_if_owned(&Found::Failed(refused("permission denied")))
        .is_err());
}

#[test]
fn console_paths_are_rooted_in_their_canonical_parent() {
    let path = EndpointPath {
        file_name: Some("console.sock".to_owned()),
        parent: Some(Ok("/run/vm".to_owned())),
        is_symlink: false,
    };
    assert_eq!(
        canonical_microvm_console_path(&path).unwrap(),
        "/run/vm/console.sock"
    );
    let link = EndpointPath {
        is_symlink: true,
        ..path
    };
    assert!(canonical_microvm_console_path(&link).is_err());
}
