//! What holds of the consoles, networks, exported directories and fixed devices of
//! microVMs.

use vstd::prelude::*;

use crate::config::{HostOs, MicrovmNetworkConfig};
use crate::console::{
    effective_microvm_console, microvm_console_attachment_from_cli,
    namespace_refusal, SerialConfigCli, SerialEndpoint, VirtioConsoleAttachment,
};
use crate::filesystem::{
    canonical_microvm_filesystem_root, component_refusal, components_refusal,
    effective_microvm_filesystem, microvm_filesystem_attachment, microvm_filesystem_from_snapshot,
    microvm_filesystem_slot_from_snapshot, validate_microvm_filesystem_private_storage,
    CanonicalRoot, EffectiveMicrovmFilesystem, HostRoot, MicrovmFilesystemConfig,
    MicrovmMount, RootComponent,
};
use crate::microvm::{
    build_console_command_line, device_slot, discovery_tokens, is_reserved_token,
    microvm_virtio_mmio_bases, microvm_virtio_net_irq, slot_refusal, user_args_refusal,
    validate_reservations,
};
use crate::network_attachment::{
    effective_microvm_network, planned_microvm_network, EffectiveMicrovmNetwork,
    MicrovmNetworkOptions, PolicyBinding,
};
use crate::path::{path_parts, path_within};
use crate::refusal::Refusal;
use crate::snapshot::{
    find_attachment, has_device, Attachment, SnapshotAttachment, SnapshotMachineContract,
    SnapshotMicrovmFilesystem,
};
use crate::text::{
    byte_len, has_prefix, lemma_bytes_char, lemma_bytes_concat, string_views, words,
};

verus! {

/// The console of a microVM is a socket, a loopback address with a port of its own, the
/// terminal, or nothing: a file, a window and the diagnostic stream are turned down, and
/// on Windows a pipe outside the consoles' own names is too.
pub proof fn law_console_endpoints(
    config: SerialConfigCli,
    host: HostOs,
    r: Result<(SerialConfigCli, VirtioConsoleAttachment, SnapshotAttachment), Refusal>,
)
    requires
        call_ensures(microvm_console_attachment_from_cli, (&config, host), r),
    ensures
        r is Ok ==> {
            &&& !(config@ is File) && !(config@ is Stderr) && !(config@ is NewConsole)
            &&& config@ matches SerialEndpoint::Tcp(address) ==> address.port() > 0
                && address.loopback()
            &&& config@ matches SerialEndpoint::ConnectTcp(address) ==> address.port() > 0
                && address.loopback()
            &&& host is Windows ==> (config@ matches SerialEndpoint::Pipe(path) ==> has_prefix(
                path,
                "//./pipe/openvmm-microvm-"@,
            ))
        },
        config@ is Console || config@ is Disconnected ==> r is Ok,
{
    reveal_strlit("console");
    reveal_strlit("discard");
    lemma_byte_len("console"@);
    lemma_byte_len("discard"@);
}

proof fn lemma_byte_len(s: Seq<char>)
    ensures
        byte_len(s) <= 4 * s.len(),
    decreases s.len(),
{
    if s.len() > 0 {
        let first = seq![s[0]];
        let rest = s.skip(1);
        assert(s =~= first + rest);
        lemma_bytes_concat(first, rest);
        lemma_bytes_char(s[0]);
        lemma_byte_len(rest);
    } else {
        assert(s =~= Seq::empty());
    }
}

/// The console device is told what its endpoint is: a socket or pipe by the host's kind, or
/// TCP, or the terminal; whether it listens or connects. A client is required and given
/// five seconds to come back; a listener is made again; the terminal is required; what
/// leads nowhere is not required and discards. A snapshot records the same.
pub proof fn law_console_device_is_told(
    config: SerialConfigCli,
    host: HostOs,
    r: Result<(SerialConfigCli, VirtioConsoleAttachment, SnapshotAttachment), Refusal>,
)
    requires
        call_ensures(microvm_console_attachment_from_cli, (&config, host), r),
        r is Ok,
    ensures
        ({
            let (effective, told, recorded) = r->Ok_0;
            let client = config@ is ConnectPipe || config@ is ConnectTcp;
            let listener = config@ is Pipe || config@ is Tcp;
            &&& effective@ == config@
            &&& told.mode is Listen <==> listener
            &&& told.mode is Connect <==> client
            &&& told.backend_kind is Tcp <==> config@ is Tcp || config@ is ConnectTcp
            &&& told.backend_kind is Inherited <==> config@ is Console
            &&& told.backend_kind is NamedPipe <==> host is Windows && (config@ is Pipe || config@
                is ConnectPipe)
            &&& told.backend_kind is UnixSocket <==> !(host is Windows) && (config@ is Pipe
                || config@ is ConnectPipe)
            &&& told.required <==> client || config@ is Console
            &&& told.reconnect_timeout_ms == if client {
                5000
            } else {
                0int
            }
            &&& told.reconnect_policy is RecreateListener <==> listener
            &&& told.reconnect_policy is ReconnectClient <==> client
            &&& told.reconnect_policy is RequireInheritedAttachment <==> config@ is Console
            &&& told.stable_id@ == "console:microvm-virtio0"@
            &&& config@ matches SerialEndpoint::Pipe(path) ==> told.endpoint_identity@ == path
            &&& config@ matches SerialEndpoint::ConnectPipe(path) ==> told.endpoint_identity@
                == path
            &&& recorded@.stable_id == "console:microvm-virtio0"@ && recorded@.kind
                == "virtio-console"@
            &&& recorded@.required == told.required && recorded@.reconnect_timeout_ms
                == told.reconnect_timeout_ms && recorded@.length == 0
        }),
{
    let (effective, told, recorded) = r->Ok_0;
    assert(told@.mode == told.mode);
    assert(told@.required == told.required);
}

/// A socket lies beside the snapshot that it belongs to, and nothing else is held to that
/// place; an unknown kind of console is turned down.
pub proof fn law_sockets_lie_beside_their_snapshot(attachment: Attachment, parent: Seq<char>)
    ensures
        attachment.identity_kind == "unix-socket"@ && namespace_refusal(attachment, parent) is None
            ==> {
            let identity = crate::bytes::text_of_bytes(attachment.identity);
            &&& identity is Some
            &&& crate::path::path_parent(identity->0) == Some(path_parts(parent))
        },
        attachment.identity_kind == "tcp"@ || attachment.identity_kind == "provider"@
            || attachment.identity_kind == "disconnected"@ ==> namespace_refusal(attachment, parent)
            is None,
{
    reveal_strlit("unix-socket");
    reveal_strlit("named-pipe");
    reveal_strlit("tcp");
    reveal_strlit("provider");
    reveal_strlit("disconnected");
    assert("unix-socket"@.len() == 11 && "named-pipe"@.len() == 10 && "tcp"@.len() == 3);
    assert("provider"@.len() == 8 && "disconnected"@.len() == 12);
}

/// A fresh machine has the console that is asked for, or none; a restored machine has one
/// exactly where its snapshot records one.
pub proof fn law_console_is_asked_for_or_recorded(
    requested: Option<&Result<SerialConfigCli, Refusal>>,
    restore: Option<&SnapshotMachineContract>,
    resolved: crate::console::ResolvedIdentity,
    host: HostOs,
    r: Result<
        Option<(SerialConfigCli, VirtioConsoleAttachment, SnapshotAttachment)>,
        Refusal,
    >,
)
    requires
        call_ensures(effective_microvm_console, (requested, restore, &resolved, host), r),
        r is Ok,
    ensures
        restore is None ==> (r->Ok_0 is Some <==> requested is Some),
        restore is None && requested is Some ==> requested->0 is Ok && (r->Ok_0->0).0@
            == requested->0->Ok_0@,
        restore matches Some(contract) ==> {
            &&& r->Ok_0 is Some <==> has_device(contract.devices@, "console:microvm-virtio0"@)
            &&& r->Ok_0 is None ==> requested is None
            &&& r->Ok_0 is Some ==> find_attachment(
                contract.attachments@,
                "console:microvm-virtio0"@,
            ) == Some((r->Ok_0->0).2@)
        },
{
    if let Some(contract) = restore {
        let saved = find_attachment(contract.attachments@, "console:microvm-virtio0"@);
        if saved is Some {
            let wanted = crate::console::requested_view(requested);
            crate::console::law_restored_console_is_the_recorded_one(
                saved->0,
                wanted,
                crate::console::path_view(resolved.path),
                crate::console::endpoint_view(resolved.v6),
                host,
            );
        }
    }
}

/// A microVM has at most one network. A fresh one has the address that is asked for; a
/// restored one takes no address from the command line, and has one exactly where the
/// snapshot records it and the profile is named again.
pub proof fn law_network_is_asked_for_or_recorded(
    opt: MicrovmNetworkOptions,
    restore: Option<&SnapshotMachineContract>,
    r: Result<Option<MicrovmNetworkConfig>, Refusal>,
)
    requires
        call_ensures(planned_microvm_network, (&opt, restore), r),
    ensures
        opt.net@.len() > 1 ==> r is Err,
        restore is None && opt.net@.len() == 0 ==> r is Ok && r->Ok_0 is None,
        restore is None && opt.net@.len() == 1 ==> (r is Ok <==> opt.net@[0] is Microvm),
        restore is None && r is Ok && r->Ok_0 is Some ==> r->Ok_0->0 == opt.net@[0]->Microvm_0,
        restore matches Some(contract) ==> (r is Ok ==> {
            &&& opt.net@.len() == 0
            &&& r->Ok_0 is Some <==> contract.microvm_network is Some
            &&& r->Ok_0 is Some ==> opt.network_profile is Some && r->Ok_0->0.wf()
                && r->Ok_0->0.guest_ipv4.bits == contract.microvm_network->0@.guest_ipv4
                && r->Ok_0->0.prefix_length == contract.microvm_network->0@.prefix_length
                && r->Ok_0->0.derived_gateway_ipv4.bits
                == contract.microvm_network->0.gateway_ipv4 && r->Ok_0->0.guest_mac.octets@
                == contract.microvm_network->0.guest_mac@ && r->Ok_0->0.gateway_mac.octets@
                == contract.microvm_network->0.gateway_mac@
            &&& r->Ok_0 is Some ==> contract.microvm_network->0.profile@ == "portable"@
            &&& r->Ok_0 is None ==> opt.network_profile is None && !opt.net_tap && opt.allow_host
                == 0 && opt.block_host == 0 && opt.allow_endpoint == 0
        }),
{
}

/// A network carries the policy that was bound to it; without a policy there is no network,
/// and a restored one needs the snapshot's policy.
pub proof fn law_network_carries_its_policy(
    opt: MicrovmNetworkOptions,
    restore: Option<&SnapshotMachineContract>,
    binding: PolicyBinding,
    r: Result<Option<EffectiveMicrovmNetwork>, Refusal>,
)
    requires
        call_ensures(effective_microvm_network, (&opt, restore, binding), r),
        r is Ok,
        r->Ok_0 is Some,
    ensures
        binding.policy is Ok && binding.policy->Ok_0 == r->Ok_0->0.policy,
        restore is Some ==> binding.snapshot_check is Ok,
        restore is None ==> opt.net@.len() == 1 && r->Ok_0->0.config == opt.net@[0]->Microvm_0,
        r->Ok_0->0.attachment@.stable_id == "net:microvm0"@,
        r->Ok_0->0.attachment@.kind == "virtio-net"@,
        !r->Ok_0->0.attachment@.required,
        r->Ok_0->0.attachment@.reconnect_policy == "recreate-endpoint"@,
        r->Ok_0->0.attachment@.identity_kind == "user-mode-nat"@,
        r->Ok_0->0.attachment@.reconnect_timeout_ms == 0 && r->Ok_0->0.attachment@.length == 0,
        restore matches Some(contract) ==> find_attachment(contract.attachments@, "net:microvm0"@)
            == Some(r->Ok_0->0.attachment@),
{
    if let Some(contract) = restore {
        if contract.microvm_network is Some {
            assert(!crate::network_attachment::is_planned_network(opt, Some(*contract), None));
        }
    }
}

proof fn lemma_components(list: Seq<RootComponent>)
    ensures
        components_refusal(list) is None <==> forall|i: int|
            0 <= i < list.len() ==> component_refusal(#[trigger] list[i]) is None,
    decreases list.len(),
{
    if list.len() > 0 {
        let rest = list.skip(1);
        lemma_components(rest);
        assert(forall|i: int| 0 <= i < rest.len() ==> rest[i] == list[i + 1]);
        if components_refusal(list) is None {
            assert forall|i: int| 0 <= i < list.len() implies component_refusal(#[trigger] list[i])
                is None by {
                if i > 0 {
                    assert(component_refusal(rest[i - 1]) is None);
                }
            }
        } else if component_refusal(list[0]) is None {
            let k = choose|k: int|
                0 <= k < rest.len() && component_refusal(#[trigger] rest[k]) is Some;
            assert(component_refusal(list[k + 1]) is Some);
        }
    }
}

/// What is exported is a plain directory, reached without links, redirections or steps
/// upwards; it is identified by what the host identifies it by, under its canonical path.
pub proof fn law_exports_are_plain_directories(
    empty: bool,
    components: Vec<RootComponent>,
    canonical: Result<CanonicalRoot, Refusal>,
    r: Result<(String, &'static str, Vec<u8>), Refusal>,
    i: int,
)
    requires
        call_ensures(canonical_microvm_filesystem_root, (empty, &components, canonical), r),
        r is Ok,
    ensures
        !empty && canonical is Ok,
        canonical->Ok_0.facts.is_dir && !canonical->Ok_0.facts.is_symlink,
        r->Ok_0.0 == canonical->Ok_0.path,
        0 <= i < components@.len() ==> !(components@[i].kind is ParentDir),
        0 <= i < components@.len() && components@[i].kind is Normal ==> components@[i].facts is Ok
            && !components@[i].facts->Ok_0.is_symlink
            && !components@[i].facts->Ok_0.is_reparse_point,
{
    lemma_components(components@);
    if 0 <= i < components@.len() {
        assert(component_refusal(components@[i]) is None);
    }
}

/// An export is recorded as required and checked again on every restore.
pub proof fn law_export_is_recorded(host: HostRoot, r: Result<(String, SnapshotAttachment), Refusal>)
    requires
        call_ensures(microvm_filesystem_attachment, (host,), r),
        r is Ok,
    ensures
        r->Ok_0.0 == host.canonical->Ok_0.path,
        r->Ok_0.1@.stable_id == "fs:microvm0"@ && r->Ok_0.1@.kind == "virtio-fs"@,
        r->Ok_0.1@.required && r->Ok_0.1@.reconnect_policy == "live-revalidate"@,
        r->Ok_0.1@.length == 0 && r->Ok_0.1@.reconnect_timeout_ms == 0,
{
}

/// The guest cannot reach what is the host's: neither the place that snapshots go to, nor
/// the snapshot that it came from, nor the file of its own memory lies in its export;
/// and anything that lies elsewhere is fine.
pub proof fn law_private_storage_is_outside(
    root: &str,
    parent: Option<&str>,
    snapshot: Option<&str>,
    memory: Option<&str>,
    r: Result<(), Refusal>,
)
    requires
        call_ensures(
            validate_microvm_filesystem_private_storage,
            (root, parent, snapshot, memory),
            r,
        ),
    ensures
        r is Ok <==> {
            &&& parent is Some ==> !path_within(path_parts(parent->0@), path_parts(root@))
            &&& snapshot is Some ==> !path_within(path_parts(snapshot->0@), path_parts(root@))
            &&& memory is Some ==> !path_within(path_parts(memory->0@), path_parts(root@))
        },
{
}

/// A recorded export comes back at its recorded place, writable exactly where it was.
pub proof fn law_recorded_access_comes_back(
    saved: SnapshotMicrovmFilesystem,
    target_check: Result<(), Refusal>,
    r: Result<MicrovmFilesystemConfig, Refusal>,
)
    requires
        call_ensures(microvm_filesystem_from_snapshot, (&saved, &target_check), r),
    ensures
        r is Ok <==> target_check is Ok && (saved.access_mode@ == "ro"@ || saved.access_mode@
            == "rw"@),
        r is Ok ==> r->Ok_0.guest_mount_target == saved.guest_mount_target && (
        r->Ok_0.access is ReadOnly <==> saved.access_mode@ == "ro"@),
{
    reveal_strlit("ro");
    reveal_strlit("rw");
    assert("ro"@[1] != "rw"@[1]);
}

/// A machine has an exported directory exactly where one is mounted, and it is the mount:
/// its target, its access and its directory. A restore that records one needs it again;
/// one whose machine has no slot for it cannot be given one.
pub proof fn law_directory_is_the_mounted_one(
    requested: Option<MicrovmMount>,
    restore: Option<&SnapshotMachineContract>,
    saved_check: Result<(), Refusal>,
    r: Result<Option<EffectiveMicrovmFilesystem>, Refusal>,
)
    requires
        call_ensures(effective_microvm_filesystem, (requested, restore, &saved_check), r),
        r is Ok,
    ensures
        r->Ok_0 is Some <==> requested is Some,
        r->Ok_0 matches Some(fs) ==> {
            let mount = requested->0;
            &&& fs.config.guest_mount_target@ == mount.guest_target@ && fs.config.access
                == mount.access
            &&& mount.host.canonical is Ok && fs.root_path@ == mount.host.canonical->Ok_0.path@
        },
        restore matches Some(contract) ==> {
            &&& contract.microvm_filesystem is Some ==> requested is Some
            &&& requested is Some && contract.microvm_filesystem is None
                ==> contract.microvm_filesystem_slot_version == 1
        },
        restore is None && requested is Some ==> requested->0.target_check is Ok,
{
}

/// A snapshot has the slot of a directory exactly where it has the device; a version that
/// is not known is turned down.
pub proof fn law_slot_is_the_device(contract: SnapshotMachineContract, r: Result<bool, Refusal>)
    requires
        call_ensures(microvm_filesystem_slot_from_snapshot, (&contract,), r),
    ensures
        r is Ok ==> (r->Ok_0 <==> has_device(contract.devices@, "fs:microvm0"@)),
        contract.microvm_filesystem_slot_version == 0 ==> r is Ok,
        contract.microvm_filesystem_slot_version == 1 ==> (r is Ok <==> has_device(
            contract.devices@,
            "fs:microvm0"@,
        )),
        contract.microvm_filesystem_slot_version > 1 ==> r is Err,
{
}

/// The fixed devices of a microVM are where guests of its first version look for them.
pub proof fn law_fixed_devices_are_where_guests_look(
    hypervisor: Option<Seq<char>>,
    host: HostOs,
    bases: [u64; 4],
)
    requires
        call_ensures(microvm_virtio_mmio_bases, (), bases),
    ensures
        bases@[0] == 0xd000_0000 && bases@[1] == 0xd000_1000 && bases@[2] == 0xd000_2000
            && bases@[3] == 0xd000_3000,
        device_slot("virtio-console"@, hypervisor, host) == Ok::<(nat, nat), Seq<char>>(
            (0xd000_2000, 7),
        ),
        device_slot("virtio-blk"@, hypervisor, host) == Ok::<(nat, nat), Seq<char>>(
            (0xd000_3000, 4),
        ),
        hypervisor == Some("kvm"@) || hypervisor == Some("mshv"@) || hypervisor is None && host
            is Linux ==> device_slot("virtio-net"@, hypervisor, host) == Ok::<
            (nat, nat),
            Seq<char>,
        >((0xd000_0000, 10)),
        hypervisor == Some("whp"@) || hypervisor is None && host is Windows ==> device_slot(
            "virtio-net"@,
            hypervisor,
            host,
        ) == Ok::<(nat, nat), Seq<char>>((0xd000_0000, 5)),
{
    reveal_strlit("virtio-net");
    reveal_strlit("virtio-console");
    reveal_strlit("virtio-blk");
    reveal_strlit("kvm");
    reveal_strlit("mshv");
    reveal_strlit("whp");
    assert("virtio-net"@.len() == 10 && "virtio-console"@.len() == 14 && "virtio-blk"@.len() == 10);
    assert("virtio-net"@[7] != "virtio-blk"@[7]);
    assert("kvm"@[0] != "whp"@[0] && "mshv"@.len() == 4);
}

/// The interrupt of the network is fixed by the hypervisor: KVM and MSHV share one and WHP
/// has its own; where none is named the host's own is meant, and there is no other.
pub proof fn law_network_interrupt(hypervisor: Option<&str>, host: HostOs, r: Result<u32, Refusal>)
    requires
        call_ensures(microvm_virtio_net_irq, (hypervisor, host), r),
    ensures
        hypervisor matches Some(name) ==> {
            &&& name@ == "kvm"@ || name@ == "mshv"@ ==> r is Ok && r->Ok_0 == 10
            &&& name@ == "whp"@ ==> r is Ok && r->Ok_0 == 5
            &&& name@ != "kvm"@ && name@ != "mshv"@ && name@ != "whp"@ ==> r is Err
        },
        hypervisor is None ==> {
            &&& host is Linux ==> r is Ok && r->Ok_0 == 10
            &&& host is Windows ==> r is Ok && r->Ok_0 == 5
            &&& !(host is Linux) && !(host is Windows) ==> r is Err
        },
{
    reveal_strlit("kvm");
    reveal_strlit("mshv");
    reveal_strlit("whp");
    assert("kvm"@[0] != "whp"@[0] && "mshv"@.len() == 4);
}

/// Every device that has a slot is announced once, in its place, and the last of them with
/// its own slot.
pub proof fn law_devices_are_announced_in_order(
    ids: Seq<Seq<char>>,
    hypervisor: Option<Seq<char>>,
    host: HostOs,
)
    requires
        slot_refusal(ids, hypervisor, host) is None,
        ids.len() > 0,
    ensures
        discovery_tokens(ids, hypervisor, host).len() == ids.len(),
        device_slot(ids.last(), hypervisor, host) is Ok,
        discovery_tokens(ids, hypervisor, host).last() == crate::microvm::discovery_token(
            (device_slot(ids.last(), hypervisor, host)->Ok_0).0,
            (device_slot(ids.last(), hypervisor, host)->Ok_0).1,
        ),
    decreases ids.len(),
{
    if ids.len() > 1 {
        law_devices_are_announced_in_order(ids.drop_last(), hypervisor, host);
    } else {
        let none = ids.drop_last();
        assert(none.len() == 0);
        assert(discovery_tokens(none, hypervisor, host).len() == 0);
    }
}

proof fn lemma_user_args(args: Seq<Seq<char>>)
    ensures
        user_args_refusal(args) is None <==> forall|i: int|
            0 <= i < args.len() ==> !(#[trigger] args[i]).contains('\0')
                && !crate::microvm::has_reserved_token(args[i]),
    decreases args.len(),
{
    if args.len() > 0 {
        let front = args.drop_last();
        lemma_user_args(front);
        assert(forall|i: int| 0 <= i < front.len() ==> front[i] == args[i]);
        assert(args.last() == args[args.len() - 1]);
        if user_args_refusal(args) is None {
            assert forall|i: int| 0 <= i < args.len() implies !(#[trigger] args[i]).contains('\0')
                && !crate::microvm::has_reserved_token(args[i]) by {
                if i < front.len() {
                    assert(!front[i].contains('\0'));
                }
            }
        } else if user_args_refusal(front) is Some {
            let k = choose|k: int|
                0 <= k < front.len() && ((#[trigger] front[k]).contains('\0')
                    || crate::microvm::has_reserved_token(front[k]));
            assert(args[k] == front[k]);
        }
    }
}

/// The user cannot take over what is the machine's on the command line: a word that names
/// the early output, the console, a device or the network is turned down, and so is a
/// NUL; any other argument is accepted as long as the line fits.
pub proof fn law_reserved_words_are_turned_down(
    args: &[String],
    console: bool,
    r: Result<String, Refusal>,
    i: int,
    k: int,
)
    requires
        call_ensures(build_console_command_line, (args, console), r),
        0 <= i < args@.len(),
        0 <= k < words(args@[i]@).len(),
    ensures
        r is Ok ==> {
            let word = words(args@[i]@)[k];
            &&& !has_prefix(word, "earlycon="@) && !has_prefix(word, "console="@)
            &&& !has_prefix(word, "virtio_mmio.device="@)
            &&& !has_prefix(word, "virtnet_ip="@) && !has_prefix(word, "virtnet_mask="@)
                && !has_prefix(word, "virtnet_gw="@) && !has_prefix(word, "virtnet_dns="@)
            &&& !args@[i]@.contains('\0')
        },
        r is Ok ==> byte_len(r->Ok_0@) < 65536,
{
    let list = string_views(args@);
    lemma_user_args(list);
    if r is Ok {
        assert(!list[i].contains('\0') && !crate::microvm::has_reserved_token(list[i]));
        assert(!is_reserved_token(words(list[i])[k]));
    }
}

/// Reserved windows are accepted exactly where they follow each other without overlap and
/// lie between three and four gigabytes.
pub proof fn law_windows_follow_each_other(bases: &[u64], len: u64, r: Result<(), Refusal>, i: int)
    requires
        call_ensures(validate_reservations, (bases, len), r),
        r is Ok,
        0 <= i < bases@.len(),
    ensures
        0xc000_0000 <= bases@[i] && bases@[i] + len <= 0x1_0000_0000,
        i + 1 < bases@.len() ==> bases@[i] + len <= bases@[i + 1],
{
}

} // verus!
