//! What holds of planned machines, of what they are attached to and of what they are told.

use vstd::prelude::*;
use vstd::utf8::encode_utf8;

use crate::bytes::text_of_bytes;
use crate::config::{HostFile, HostOs, MicrovmNetworkConfig, NumaTopology, SmbiosConfig};
use crate::console::{
    microvm_console_attachment_from_snapshot, validate_microvm_console_attachment_namespace,
    ResolvedIdentity, SerialConfigCli, SerialEndpoint, VirtioConsoleAttachment,
};
use crate::controller::GuestPowerAction;
use crate::create::first_consomme;
use crate::create_laws::{follows, lemma_last_request};
use crate::create_plan::{plan_creation, CreationFacts, CreationPlan};
use crate::create_request::{
    RequestedPowerAction, RequestedPowerActions, SnapshotOptions, VmConfigRequest,
};
use crate::create_restore::{plan_restoration, RestorationFacts, RestorationPlan};
use crate::devices::NicRequest;
use crate::launch_config::{features_of, LaunchParts};
use crate::launch_front::{plan_front, FrontOptions, LaunchFront};
use crate::launch_lists::{pcie_list, pcie_views, PciePorts};
use crate::launch_plan::{are_on_buses, plan_launch, LaunchChoices, LaunchPlan};
use crate::net::ipv4_text;
use crate::network_attachment::microvm_network_from_snapshot;
use crate::numa::single_node_topology;
use crate::refusal::Refusal;
use crate::snapshot::{
    find_attachment, SnapshotAttachment, SnapshotMachineContract, SnapshotMicrovmNetwork,
};
use crate::text::{has_prefix, has_suffix};

verus! {

/// What is asked of power events; what is not asked is left to the defaults.
pub open spec fn asked_actions(requested: Option<RequestedPowerActions>) -> RequestedPowerActions {
    match requested {
        Some(asked) => asked,
        None => RequestedPowerActions {
            shutdown: RequestedPowerAction::Default,
            reset: RequestedPowerAction::Default,
            crash: RequestedPowerAction::Default,
            watchdog: RequestedPowerAction::Default,
        },
    }
}

/// A machine that is created does at each power event what was asked for that event.
pub proof fn law_created_machine_follows_its_power_events(
    options: SnapshotOptions,
    requested: Option<VmConfigRequest>,
    facts: CreationFacts,
    r: Result<CreationPlan, Refusal>,
)
    requires
        call_ensures(plan_creation, (options, requested, &facts), r),
        r is Ok,
    ensures
        ({
            let asked = asked_actions(requested->0.guest_power_actions);
            let planned = r->Ok_0.power_actions;
            &&& follows(asked.shutdown, planned.shutdown, GuestPowerAction::Halt)
            &&& follows(asked.reset, planned.reset, GuestPowerAction::Reset)
            &&& follows(asked.crash, planned.crash, GuestPowerAction::Halt)
            &&& follows(asked.watchdog, planned.watchdog, GuestPowerAction::Reset)
        }),
{
}

/// A machine that is continued does at each power event what is asked for that event now.
pub proof fn law_continued_machine_follows_its_power_events(
    options: SnapshotOptions,
    requested: Option<VmConfigRequest>,
    facts: RestorationFacts,
    r: Result<RestorationPlan, Refusal>,
)
    requires
        call_ensures(plan_restoration, (options, requested, facts), r),
        options.restore,
        r is Ok,
    ensures
        ({
            let asked = asked_actions(
                match requested {
                    Some(q) => q.guest_power_actions,
                    None => None,
                },
            );
            let planned = r->Ok_0.power_actions;
            &&& follows(asked.shutdown, planned.shutdown, GuestPowerAction::Halt)
            &&& follows(asked.reset, planned.reset, GuestPowerAction::Reset)
            &&& follows(asked.crash, planned.crash, GuestPowerAction::Halt)
            &&& follows(asked.watchdog, planned.watchdog, GuestPowerAction::Reset)
        }),
{
}

/// Each serial port of a machine that is created follows the last request for it.
pub proof fn law_created_ports_follow_the_last_request(
    options: SnapshotOptions,
    requested: Option<VmConfigRequest>,
    facts: CreationFacts,
    r: Result<CreationPlan, Refusal>,
    port: int,
)
    requires
        call_ensures(plan_creation, (options, requested, &facts), r),
        r is Ok,
        0 <= port < 4,
    ensures
        ({
            let ports = requested->0.serial_ports@;
            match r->Ok_0.serial_slots@[port] {
                Some(k) => {
                    &&& k < ports.len() && ports[k as int].port == port
                    &&& forall|j: int| k < j < ports.len() ==> (#[trigger] ports[j]).port != port
                },
                None => forall|j: int| 0 <= j < ports.len() ==> (#[trigger] ports[j]).port != port,
            }
        }),
{
    let ports = requested->0.serial_ports@;
    lemma_last_request(ports, port, ports.len() as int);
    let slot = r->Ok_0.serial_slots@[port];
}

/// A firmware that is created to be booted finds serial ports exactly where some port is asked
/// for, and takes the first as its console exactly where that one is.
pub proof fn law_created_firmware_finds_its_ports(
    options: SnapshotOptions,
    requested: Option<VmConfigRequest>,
    facts: CreationFacts,
    r: Result<CreationPlan, Refusal>,
)
    requires
        call_ensures(plan_creation, (options, requested, &facts), r),
        r is Ok,
        r->Ok_0.boot is Uefi,
    ensures
        r->Ok_0.boot->enable_serial <==> exists|k: int|
            0 <= k < requested->0.serial_ports@.len() && 0 <= (
            #[trigger] requested->0.serial_ports@[k]).port <= 3,
        r->Ok_0.boot->uefi_console_mode is Some <==> exists|k: int|
            0 <= k < requested->0.serial_ports@.len() && (
            #[trigger] requested->0.serial_ports@[k]).port == 0,
{
    let ports = requested->0.serial_ports@;
    let slots = r->Ok_0.serial_slots@;
    assert forall|p: int| 0 <= p < 4 implies ((#[trigger] slots[p]) is Some <==> exists|k: int|
        0 <= k < ports.len() && (#[trigger] ports[k]).port == p) by {
        law_created_ports_follow_the_last_request(options, requested, facts, r, p);
        if let Some(k) = slots[p] {
            assert(ports[k as int].port == p);
        }
    }
    assert(slots[0] is Some || slots[0] is None);
    assert(slots[1] is Some || slots[1] is None);
    assert(slots[2] is Some || slots[2] is None);
    assert(slots[3] is Some || slots[3] is None);
    if exists|k: int| 0 <= k < ports.len() && 0 <= (#[trigger] ports[k]).port <= 3 {
        let k = choose|k: int| 0 <= k < ports.len() && 0 <= (#[trigger] ports[k]).port <= 3;
        assert(slots[ports[k].port as int] is Some);
    }
}

/// The device whose ports can be changed is the first that translates addresses in user
/// mode, and there is none only where no device does.
pub proof fn law_first_user_mode_device_is_bound(nics: Seq<NicRequest>)
    ensures
        match first_consomme(nics) {
            Some(at) => {
                &&& 0 <= at < nics.len()
                &&& nics[at].backend is Some && nics[at].backend->0 is Consomme
                &&& forall|i: int|
                    0 <= i < at ==> !((#[trigger] nics[i]).backend is Some && nics[i].backend->0
                        is Consomme)
            },
            None => forall|i: int|
                0 <= i < nics.len() ==> !((#[trigger] nics[i]).backend is Some && nics[i].backend->0
                    is Consomme),
        },
    decreases nics.len(),
{
    if nics.len() > 0 {
        let front = nics.drop_last();
        law_first_user_mode_device_is_bound(front);
        assert forall|i: int| 0 <= i < front.len() implies #[trigger] nics[i] == front[i] by {}
    }
}

/// The console of a continued machine is the recorded one, is told to its device as what it
/// is, and keeps its output unless it leads nowhere. Without a record there is none.
pub proof fn law_continued_console_is_the_recorded_one(
    options: SnapshotOptions,
    requested: Option<VmConfigRequest>,
    facts: RestorationFacts,
    r: Result<RestorationPlan, Refusal>,
)
    requires
        call_ensures(plan_restoration, (options, requested, facts), r),
        options.restore,
        r is Ok,
    ensures
        ({
            let contract = facts.manifest->Ok_0.machine_contract->0;
            let saved = find_attachment(contract.attachments@, "console:microvm-virtio0"@);
            match r->Ok_0.console {
                None => saved is None,
                Some(plan) => {
                    let to = plan.endpoint@;
                    &&& saved == Some(plan.snapshot@)
                    &&& plan.disconnect_policy is Discard <==> to is Disconnected
                    &&& plan.resource.mode is Listen <==> to is Pipe || to is Tcp
                    &&& plan.resource.mode is Connect <==> to is ConnectPipe || to is ConnectTcp
                    &&& plan.resource.backend_kind is Tcp <==> to is Tcp || to is ConnectTcp
                    &&& plan.resource.required <==> to is ConnectPipe || to is ConnectTcp || to
                        is Console
                    &&& to matches SerialEndpoint::Pipe(path) ==> plan.resource.endpoint_identity@
                        == path
                    &&& to matches SerialEndpoint::ConnectPipe(path)
                        ==> plan.resource.endpoint_identity@ == path
                },
            }
        }),
{
    if let Some(plan) = r->Ok_0.console {
        assert(plan.resource@.mode == plan.resource.mode);
        assert(plan.resource@.required == plan.resource.required);
    }
}

/// The directory of a continued machine is the recorded one: the same place in the guest, the
/// same access, and the very directory of the host.
pub proof fn law_continued_directory_is_the_recorded_one(
    options: SnapshotOptions,
    requested: Option<VmConfigRequest>,
    facts: RestorationFacts,
    r: Result<RestorationPlan, Refusal>,
)
    requires
        call_ensures(plan_restoration, (options, requested, facts), r),
        options.restore,
        r is Ok,
        r->Ok_0.filesystem is Some,
    ensures
        ({
            let contract = facts.manifest->Ok_0.machine_contract->0;
            let fs = r->Ok_0.filesystem->0;
            let saved = contract.microvm_filesystem->0;
            &&& contract.microvm_filesystem is Some
            &&& fs.config.guest_mount_target@ == saved.guest_mount_target@
            &&& fs.config.access is ReadOnly <==> saved.access_mode@ == "ro"@
            &&& fs.config.access is ReadWrite ==> saved.access_mode@ == "rw"@
            &&& fs.root_path == facts.host_root.canonical->Ok_0.path
            &&& find_attachment(contract.attachments@, "fs:microvm0"@) == Some(fs.attachment@)
        }),
{
    reveal_strlit("ro");
    reveal_strlit("rw");
    assert("ro"@[1] == 'o' && "rw"@[1] == 'w');
}

/// A recorded console that is attached again is the recorded one. It must be a console of a
/// microVM, and one that is a client of something is attached only where that is asked
/// for again.
pub proof fn law_recorded_console_is_attached_again(
    attachment: &SnapshotAttachment,
    requested: Option<&Result<SerialConfigCli, Refusal>>,
    resolved: &ResolvedIdentity,
    host: HostOs,
    r: Result<(SerialConfigCli, VirtioConsoleAttachment, SnapshotAttachment), Refusal>,
)
    requires
        call_ensures(
            microvm_console_attachment_from_snapshot,
            (attachment, requested, resolved, host),
            r,
        ),
        r is Ok,
    ensures
        r->Ok_0.2@ == attachment@,
        attachment.stable_id@ == "console:microvm-virtio0"@,
        attachment.kind@ == "virtio-console"@,
        attachment.length == 0,
        attachment.reconnect_policy@ == "reconnect-client"@ ==> requested is Some,
        requested is Some ==> requested->0 is Ok,
        r->Ok_0.1.required == attachment.required,
        r->Ok_0.1.reconnect_timeout_ms == attachment.reconnect_timeout_ms,
        text_of_bytes(attachment.identity@) is Some,
{
    let (config, told, recorded) = r->Ok_0;
    assert(attachment@.stable_id == attachment.stable_id@);
    assert(told@.required == told.required);
    assert(told@.reconnect_timeout_ms == told.reconnect_timeout_ms);
    assert(attachment@.required == attachment.required);
}

/// On Windows a recorded console is a pipe with a name of the consoles' own, and no other.
pub proof fn law_pipes_keep_to_their_names(
    attachment: &SnapshotAttachment,
    parent: &str,
    r: Result<(), Refusal>,
)
    requires
        call_ensures(
            validate_microvm_console_attachment_namespace,
            (attachment, parent),
            r,
        ),
        attachment.identity_kind@ == "named-pipe"@,
        r is Ok,
    ensures
        ({
            let name = text_of_bytes(attachment.identity@);
            &&& name is Some
            &&& has_prefix(name->0, "//./pipe/openvmm-microvm-"@)
            &&& name->0.len() > 25
            &&& !name->0.skip(25).contains('/') && !name->0.skip(25).contains('\\')
        }),
{
    reveal_strlit("unix-socket");
    reveal_strlit("named-pipe");
    reveal_strlit("//./pipe/openvmm-microvm-");
    assert("unix-socket"@.len() == 11 && "named-pipe"@.len() == 10);
    assert("//./pipe/openvmm-microvm-"@.len() == 25);
}

/// The console of a launched microVM is told to its device and recorded as what it is.
pub proof fn law_launched_console_is_told(
    opt: FrontOptions,
    contract: Option<&SnapshotMachineContract>,
    r: Result<LaunchFront, Refusal>,
)
    requires
        call_ensures(plan_front, (opt, contract), r),
        r is Ok,
        r->Ok_0.console is Some,
    ensures
        ({
            let (config, told, recorded) = r->Ok_0.console->0;
            let to = config@;
            let client = to is ConnectPipe || to is ConnectTcp;
            &&& told.stable_id@ == "console:microvm-virtio0"@
            &&& told.mode is Listen <==> to is Pipe || to is Tcp
            &&& told.mode is Connect <==> client
            &&& told.backend_kind is Tcp <==> to is Tcp || to is ConnectTcp
            &&& told.required <==> client || to is Console
            &&& told.reconnect_timeout_ms == (if client {
                5000int
            } else {
                0
            })
            &&& to matches SerialEndpoint::Pipe(path) ==> told.endpoint_identity@ == path
            &&& to matches SerialEndpoint::ConnectPipe(path) ==> told.endpoint_identity@ == path
            &&& recorded.stable_id@ == told.stable_id@ && recorded.required == told.required
            &&& recorded.reconnect_timeout_ms == told.reconnect_timeout_ms && recorded.length == 0
            &&& recorded.kind@ == "virtio-console"@
            &&& recorded.identity@ == encode_utf8(told.endpoint_identity@)
        }),
{
    let (config, told, recorded) = r->Ok_0.console->0;
    assert(told@.mode == told.mode);
    assert(told@.required == told.required);
    assert(told@.reconnect_timeout_ms == told.reconnect_timeout_ms);
    assert(recorded@.required == told@.required);
    assert(recorded@.reconnect_timeout_ms == told@.reconnect_timeout_ms);
}

/// A recorded network is read back exactly where it is one that a machine can have, with every
/// address that follows from the guest's own, and is then that network.
pub proof fn law_recorded_networks_are_read_back(
    saved: &SnapshotMicrovmNetwork,
    config: MicrovmNetworkConfig,
    r: Result<MicrovmNetworkConfig, Refusal>,
)
    requires
        call_ensures(microvm_network_from_snapshot, (saved,), r),
    ensures
        r is Ok ==> {
            &&& r->Ok_0.wf()
            &&& r->Ok_0.guest_ipv4.bits == saved.guest_ipv4
            &&& r->Ok_0.prefix_length == saved.prefix_length
            &&& r->Ok_0.derived_gateway_ipv4.bits == saved.gateway_ipv4
            &&& r->Ok_0.guest_mac.octets@ == saved.guest_mac@
            &&& r->Ok_0.gateway_mac.octets@ == saved.gateway_mac@
        },
        config.wf() && config.guest_ipv4.bits == saved.guest_ipv4 && config.prefix_length
            == saved.prefix_length && config.derived_gateway_ipv4.bits == saved.gateway_ipv4
            && config.guest_mac.octets@ == saved.guest_mac@ && config.gateway_mac.octets@
            == saved.gateway_mac@ ==> r is Ok,
{
    assert(saved@.guest_mac == saved.guest_mac@);
    assert(saved@.gateway_mac == saved.gateway_mac@);
    assert(saved@.guest_ipv4 == saved.guest_ipv4);
    assert(saved@.gateway_ipv4 == saved.gateway_ipv4);
    assert(saved@.prefix_length == saved.prefix_length);
}

/// The words that tell a guest its network begin with its own address and end with its
/// gateway; a name server is told only where there is one, and it is the gateway.
pub proof fn law_guest_is_told_its_network(
    config: &MicrovmNetworkConfig,
    plain: String,
    same: String,
    dns: String,
)
    requires
        1 <= config.prefix_length <= 32,
        call_ensures(MicrovmNetworkConfig::command_line_fragment, (config,), plain),
        call_ensures(MicrovmNetworkConfig::command_line_fragment_with_dns, (config, false), same),
        call_ensures(MicrovmNetworkConfig::command_line_fragment_with_dns, (config, true), dns),
    ensures
        same@ == plain@,
        dns@ == plain@ + " virtnet_dns="@ + ipv4_text(config.derived_gateway_ipv4.bits as nat),
        has_prefix(
            plain@,
            "virtnet_ip="@ + ipv4_text(config.guest_ipv4.bits as nat) + " virtnet_mask="@,
        ),
        has_suffix(
            plain@,
            " virtnet_gw="@ + ipv4_text(config.derived_gateway_ipv4.bits as nat),
        ),
{
    let head = "virtnet_ip="@ + ipv4_text(config.guest_ipv4.bits as nat) + " virtnet_mask="@;
    let tail = " virtnet_gw="@ + ipv4_text(config.derived_gateway_ipv4.bits as nat);
    assert(same@ =~= plain@);
    assert(dns@ =~= plain@ + " virtnet_dns="@ + ipv4_text(
        config.derived_gateway_ipv4.bits as nat,
    ));
    assert(plain@.take(head.len() as int) =~= head);
    assert(plain@.skip(plain@.len() - tail.len()) =~= tail);
}

/// A machine with one node has all of its memory and all of its processors there, and
/// asks nothing special of the host's memory.
pub proof fn law_single_node_has_everything(mem_size: u64, t: NumaTopology)
    requires
        call_ensures(single_node_topology, (mem_size,), t),
    ensures
        t.nodes@.len() == 1,
        t.distances@.len() == 0,
        t.nodes@[0].vps is FromTopology,
        t.nodes@[0].mem is Some,
        ({
            let mem = t.nodes@[0].mem->0;
            &&& mem.mem_size == mem_size
            &&& !mem.prefetch_memory && !mem.private_memory && !mem.hugepages
            &&& mem.transparent_hugepages
            &&& mem.hugepage_size is None && mem.host_numa_node is None
        }),
{
}

/// A machine with a paravisor maps guest memory for it unless that is turned off, and
/// treats memory that is touched too early as it is asked to.
pub proof fn law_paravisor_sees_guest_memory_as_asked(parts: LaunchParts)
    ensures
        features_of(parts).with_vtl2 is Some <==> parts.vtl2,
        parts.vtl2 ==> {
            let vtl2 = features_of(parts).with_vtl2->0;
            &&& vtl2.vtl0_alias_map <==> !parts.no_alias_map
            &&& vtl2.late_map_vtl0_memory is None <==> parts.late_map is Off
            &&& vtl2.late_map_vtl0_memory is Some ==> {
                let policy = vtl2.late_map_vtl0_memory->0;
                &&& policy is Log <==> parts.late_map is Log
                &&& policy is Halt <==> parts.late_map is Halt
                &&& policy is InjectException <==> parts.late_map is Exception
            }
        },
        features_of(parts).with_hv == parts.with_hv,
        features_of(parts).nested_virt == parts.nested_virt,
{
}

/// The devices behind the PCIe ports of a launched machine are the chosen ones, each kind behind
/// the ports that were chosen for it.
pub proof fn law_launched_ports_are_the_chosen_ones(
    c: LaunchChoices,
    front: LaunchFront,
    recorded: Option<String>,
    image: HostFile,
    initrd: Option<HostFile>,
    smbios: SmbiosConfig,
    r: Result<LaunchPlan, Refusal>,
)
    requires
        call_ensures(plan_launch, (c, &front, recorded, image, initrd, smbios), r),
        r is Ok,
    ensures
        exists|ports: PciePorts|
            {
                &&& #[trigger] pcie_list(ports, c.host) == pcie_views(r->Ok_0.buses.pcie@)
                &&& ports.remote == c.other.remote_ports
                &&& ports.adapters == c.other.adapter_ports
                &&& ports.cxl_test == c.other.cxl_test_ports
                &&& ports.assigned == c.other.assigned_ports
            },
{
    reveal(are_on_buses);
}

} // verus!
