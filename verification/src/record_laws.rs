//! What holds of recorded values: their copies, their comparison and their defaults.

use vstd::prelude::*;

use crate::config::{
    default_gic_redistributors_base, default_pcat_boot_order, HostOs, MemoryRange, PcatBootDevice,
    DEFAULT_GIC_DISTRIBUTOR_BASE, DEFAULT_GIC_V2M_MSI_FRAME_BASE,
};
use crate::console::{
    identity_kind_name, policy_name, SerialConfigCli, VirtioConsoleBackendKind,
    VirtioConsoleReconnectPolicy,
};
use crate::net::{Ipv4Address, SocketAddress};
use crate::path::{same_path, ParsedPath};
use crate::refusal::Refusal;
use crate::run::vnc_listen_address;
use crate::snapshot::{
    find_attachment, SnapshotAttachment, SnapshotDevice, SnapshotMachineContract,
};

verus! {

/// Two attachments are the same exactly where nothing in them differs.
pub proof fn law_same_attachments_differ_in_nothing(
    a: &SnapshotAttachment,
    b: &SnapshotAttachment,
    same: bool,
)
    requires
        call_ensures(SnapshotAttachment::same, (a, b), same),
    ensures
        same <==> {
            &&& a.stable_id@ == b.stable_id@
            &&& a.kind@ == b.kind@
            &&& a.required == b.required
            &&& a.reconnect_policy@ == b.reconnect_policy@
            &&& a.identity_kind@ == b.identity_kind@
            &&& a.identity@ == b.identity@
            &&& a.length == b.length
            &&& a.reconnect_timeout_ms == b.reconnect_timeout_ms
        },
{
}

/// A copy of an attachment is the same attachment.
pub proof fn law_copied_attachments_are_the_same(
    a: &SnapshotAttachment,
    copy: SnapshotAttachment,
    same: bool,
)
    requires
        call_ensures(SnapshotAttachment::duplicate, (a,), copy),
        call_ensures(SnapshotAttachment::same, (a, &copy), same),
    ensures
        same,
        copy.stable_id@ == a.stable_id@ && copy.kind@ == a.kind@,
        copy.required == a.required && copy.reconnect_policy@ == a.reconnect_policy@,
        copy.identity_kind@ == a.identity_kind@ && copy.identity@ == a.identity@,
        copy.length == a.length && copy.reconnect_timeout_ms == a.reconnect_timeout_ms,
{
}

proof fn lemma_found_attachment(list: Seq<SnapshotAttachment>, id: Seq<char>)
    ensures
        find_attachment(list, id) matches Some(a) ==> a.stable_id == id && exists|i: int|
            0 <= i < list.len() && (#[trigger] list[i])@ == a,
        find_attachment(list, id) is None <==> forall|i: int|
            0 <= i < list.len() ==> (#[trigger] list[i]).stable_id@ != id,
    decreases list.len(),
{
    if list.len() > 0 {
        let rest = list.skip(1);
        lemma_found_attachment(rest, id);
        if list[0].stable_id@ != id {
            if let Some(a) = find_attachment(rest, id) {
                let i = choose|i: int| 0 <= i < rest.len() && (#[trigger] rest[i])@ == a;
                assert(list[i + 1] == rest[i]);
                assert(list[i + 1].stable_id@ == id);
            } else {
                assert forall|i: int| 0 <= i < list.len() implies (#[trigger] list[i]).stable_id@
                    != id by {
                    if i > 0 {
                        assert(list[i] == rest[i - 1]);
                    }
                }
            }
        }
    }
}

/// An attachment that a contract is asked for is one of its own and has the identifier, and
/// there is none only where no attachment has it. So it is with its devices.
pub proof fn law_contract_is_searched_by_identifier(
    contract: &SnapshotMachineContract,
    id: &str,
    r: Option<&SnapshotAttachment>,
    device: bool,
)
    requires
        call_ensures(SnapshotMachineContract::attachment, (contract, id), r),
        call_ensures(SnapshotMachineContract::has_device, (contract, id), device),
    ensures
        r is Some ==> r->0.stable_id@ == id@ && exists|i: int|
            0 <= i < contract.attachments@.len() && (#[trigger] contract.attachments@[i])@
                == r->0@,
        r is None <==> forall|i: int|
            0 <= i < contract.attachments@.len() ==> (
            #[trigger] contract.attachments@[i]).stable_id@ != id@,
        device <==> contract.devices@.map_values(|d: SnapshotDevice| d.stable_id@).contains(id@),
{
    lemma_found_attachment(contract.attachments@, id@);
    let ids = contract.devices@.map_values(|d: SnapshotDevice| d.stable_id@);
    if device {
        let i = choose|i: int|
            0 <= i < contract.devices@.len() && (#[trigger] contract.devices@[i]).stable_id@
                == id@;
        assert(ids[i] == id@);
    }
    if ids.contains(id@) {
        let i = choose|i: int| 0 <= i < ids.len() && ids[i] == id@;
        assert(contract.devices@[i].stable_id@ == id@);
    }
}

/// A copy of a serial configuration is of the same kind and leads to the same place.
pub proof fn law_copied_serial_configurations_are_the_same(
    a: &SerialConfigCli,
    copy: SerialConfigCli,
)
    requires
        call_ensures(SerialConfigCli::duplicate, (a,), copy),
    ensures
        match *a {
            SerialConfigCli::Disconnected => copy is Disconnected,
            SerialConfigCli::Console => copy is Console,
            SerialConfigCli::NewConsole(app, title) => {
                &&& copy matches SerialConfigCli::NewConsole(app2, title2)
                &&& (app is Some <==> app2 is Some) && (title is Some <==> title2 is Some)
                &&& app is Some ==> app2->0@ == app->0@
                &&& title is Some ==> title2->0@ == title->0@
            },
            SerialConfigCli::Stderr => copy is Stderr,
            SerialConfigCli::File(path) => copy matches SerialConfigCli::File(p) && p@ == path@,
            SerialConfigCli::Pipe(path) => copy matches SerialConfigCli::Pipe(p) && p@ == path@,
            SerialConfigCli::ConnectPipe(path) => copy matches SerialConfigCli::ConnectPipe(p)
                && p@ == path@,
            SerialConfigCli::Tcp(address) => copy matches SerialConfigCli::Tcp(other) && other@
                == address@,
            SerialConfigCli::ConnectTcp(address) => copy matches SerialConfigCli::ConnectTcp(
                other,
            ) && other@ == address@,
        },
{
}

/// A copy of an address is the same address with the same port.
pub proof fn law_copied_addresses_are_the_same(a: &SocketAddress, copy: SocketAddress)
    requires
        call_ensures(SocketAddress::duplicate, (a,), copy),
    ensures
        match *a {
            SocketAddress::V4 { ip, port } => copy matches SocketAddress::V4 {
                ip: other,
                port: at,
            } && other.bits == ip.bits && at == port,
            SocketAddress::V6 { text, port, loopback } => copy matches SocketAddress::V6 {
                text: other,
                port: at,
                loopback: own,
            } && other@ == text@ && at == port && own == loopback,
        },
{
}

/// Two paths are the same where they begin at the same place and go along the same names.
pub proof fn law_same_paths_have_the_same_names(a: &ParsedPath, b: &ParsedPath, same: bool)
    requires
        call_ensures(same_path, (a, b), same),
    ensures
        same ==> a.absolute == b.absolute && a.current == b.current && a.names@.len()
            == b.names@.len(),
        same ==> forall|i: int|
            0 <= i < a.names@.len() ==> (#[trigger] a.names@[i])@ == b.names@[i]@,
        a.absolute == b.absolute && a.current == b.current && a.names@.len() == b.names@.len()
            && (forall|i: int|
            0 <= i < a.names@.len() ==> (#[trigger] a.names@[i])@ == b.names@[i]@) ==> same,
{
    if same {
        assert(a@.names.len() == b@.names.len());
        assert forall|i: int| 0 <= i < a.names@.len() implies (#[trigger] a.names@[i])@
            == b.names@[i]@ by {
            assert(a@.names[i] == b@.names[i]);
        }
    }
    if a.absolute == b.absolute && a.current == b.current && a.names@.len() == b.names@.len()
        && (forall|i: int|
        0 <= i < a.names@.len() ==> (#[trigger] a.names@[i])@ == b.names@[i]@) {
        assert(a@.names =~= b@.names);
    }
}

/// Reconnect policies and console backends are recorded under names of their own.
pub proof fn law_recorded_names_tell_consoles_apart(
    a: VirtioConsoleReconnectPolicy,
    b: VirtioConsoleReconnectPolicy,
    c: VirtioConsoleBackendKind,
    d: VirtioConsoleBackendKind,
)
    ensures
        policy_name(a) == policy_name(b) ==> a == b,
        identity_kind_name(c) == identity_kind_name(d) ==> c == d,
{
    reveal_strlit("recreate-listener");
    reveal_strlit("reconnect-client");
    reveal_strlit("require-inherited-attachment");
    reveal_strlit("discard-while-disconnected");
    reveal_strlit("unix-socket");
    reveal_strlit("named-pipe");
    reveal_strlit("tcp");
    reveal_strlit("provider");
    reveal_strlit("disconnected");
    assert("recreate-listener"@.len() == 17);
    assert("reconnect-client"@.len() == 16);
    assert("require-inherited-attachment"@.len() == 28);
    assert("discard-while-disconnected"@.len() == 26);
    assert("unix-socket"@.len() == 11);
    assert("named-pipe"@.len() == 10);
    assert("tcp"@.len() == 3);
    assert("provider"@.len() == 8);
    assert("disconnected"@.len() == 12);
    if policy_name(a) == policy_name(b) {
        assert(policy_name(a).len() == policy_name(b).len());
    }
    if identity_kind_name(c) == identity_kind_name(d) {
        assert(identity_kind_name(c).len() == identity_kind_name(d).len());
    }
}

/// A display server listens where it is told. A bare address gets the port that is given
/// beside it, an address with a port keeps its own, and a text that is no address at all is
/// refused.
pub proof fn law_display_listens_where_it_is_told(
    text: &str,
    v6: Option<SocketAddress>,
    v6_bare: Option<SocketAddress>,
    port: u16,
    v4: Option<SocketAddress>,
    bare: Option<Ipv4Address>,
    r: Result<SocketAddress, Refusal>,
)
    requires
        call_ensures(vnc_listen_address, (text, v6, v6_bare, port), r),
        call_ensures(SocketAddress::parse_v4, (text,), v4),
        call_ensures(Ipv4Address::parse, (text,), bare),
    ensures
        r is Ok <==> v4 is Some || v6 is Some || bare is Some || v6_bare is Some,
        v4 is Some ==> r->Ok_0@ == v4->0@,
        v4 is None && v6 is Some ==> r->Ok_0@ == v6->0@,
        v4 is None && v6 is None && bare is Some ==> (r->Ok_0 matches SocketAddress::V4 {
            ip,
            port: at,
        } && ip.bits == bare->0.bits && at == port),
        v4 is None && v6 is None && bare is None && v6_bare is Some ==> r->Ok_0@ == v6_bare->0@,
{
}

/// A range has the bounds that it is made with, which are in order and at the ends of pages.
pub proof fn law_ranges_are_whole_pages(start: u64, end: u64, r: Option<MemoryRange>)
    requires
        call_ensures(MemoryRange::try_new, (start, end), r),
    ensures
        r is Some <==> start <= end && start % 4096 == 0 && end % 4096 == 0,
        r is Some ==> r->0.start == start && r->0.end == end,
{
}

/// The registers of an interrupt controller lie at the end of a page, on Linux at a multiple of
/// 64 KiB, and below those of the distributor.
pub proof fn law_redistributors_are_aligned(host: HostOs, base: u64)
    requires
        call_ensures(default_gic_redistributors_base, (host,), base),
    ensures
        base % 4096 == 0,
        host is Linux ==> base % 0x1_0000 == 0,
        base < DEFAULT_GIC_DISTRIBUTOR_BASE,
        base > DEFAULT_GIC_V2M_MSI_FRAME_BASE,
{
}

/// The default boot order tries every kind of device once, optical media first and floppies last.
pub proof fn law_default_boot_order_is_complete(order: [PcatBootDevice; 4], kind: PcatBootDevice)
    requires
        call_ensures(default_pcat_boot_order, (), order),
    ensures
        order@.contains(kind),
        forall|i: int, j: int| 0 <= i < j < 4 ==> #[trigger] order@[i] != #[trigger] order@[j],
        order@[0] is Optical,
        order@[3] is Floppy,
{
    assert(order@[0] is Optical && order@[1] is HardDrive && order@[2] is Network && order@[3]
        is Floppy);
    match kind {
        PcatBootDevice::Floppy => {
            assert(order@[3] == kind);
        },
        PcatBootDevice::Optical => {
            assert(order@[0] == kind);
        },
        PcatBootDevice::HardDrive => {
            assert(order@[1] == kind);
        },
        PcatBootDevice::Network => {
            assert(order@[2] == kind);
        },
    }
}

} // verus!
