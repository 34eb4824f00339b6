//! What holds of the paravisor's disks, the machine's identity, the management transport and
//! the host's endpoints.

use vstd::prelude::*;

use crate::config::{Guid, SmbiosConfig};
use crate::controller::AddVtl0ScsiDiskParams;
use crate::refusal::Refusal;
use crate::serial::{
    canonical_microvm_console_path, check_capability_pipe, check_control_parent,
    check_control_socket, check_restore_ready_pipe, clears_path, may_remove_socket, normalized,
    EndpointPath, EntryFacts, Found, IoFailure, MicrovmConsoleSocketCleanup,
};
use crate::smbios::{
    is_merged, merge_smbios, plain_smbios, smbios_config_from_cli, SmbiosCli, SmbiosUuid,
};
use crate::transport::{
    classify, resolve_transport, Protocol, RpcTransport, TransportFeatures,
};
use crate::vtl2::{
    add_disk_answer, describes, guid_text, last_location, scsi_position, without_location,
    without_namespace, Lun, SettingsCodes, StorageController,
};

verus! {

/// The controller that a request is about is the first SCSI controller with the identifier
/// that the request names, and there is none only where no controller is such.
pub proof fn law_found_controller_is_the_named_one(
    list: Seq<StorageController>,
    id: Seq<char>,
    codes: SettingsCodes,
)
    ensures
        match scsi_position(list, id, codes) {
            Some(at) => {
                &&& 0 <= at < list.len()
                &&& list[at].instance_id@ == id && list[at].protocol == codes.scsi_protocol
                &&& forall|i: int|
                    0 <= i < at ==> (#[trigger] list[i]).instance_id@ != id || list[i].protocol
                        != codes.scsi_protocol
            },
            None => forall|i: int|
                0 <= i < list.len() ==> (#[trigger] list[i]).instance_id@ != id
                    || list[i].protocol != codes.scsi_protocol,
        },
    decreases list.len(),
{
    if list.len() > 0 {
        law_found_controller_is_the_named_one(list.drop_last(), id, codes);
        assert forall|i: int| 0 <= i < list.len() - 1 implies #[trigger] list[i]
            == list.drop_last()[i] by {}
    }
}

/// Removing what is at a location takes the disks there, and no others.
pub proof fn law_removal_takes_the_location_only(luns: Seq<Lun>, location: u32, lun: Lun)
    ensures
        without_location(luns, location).contains(lun) <==> luns.contains(lun) && lun.location
            != location,
        without_location(luns, location).len() <= luns.len(),
    decreases luns.len(),
{
    if luns.len() > 0 {
        let front = luns.drop_last();
        law_removal_takes_the_location_only(front, location, lun);
        assert(luns =~= front.push(luns.last()));
        lemma_contains_push(front, luns.last(), lun);
        lemma_contains_push(without_location(front, location), luns.last(), lun);
    }
}

proof fn lemma_contains_push<T>(s: Seq<T>, last: T, x: T)
    ensures
        s.push(last).contains(x) <==> s.contains(x) || x == last,
{
    let longer = s.push(last);
    assert(longer[s.len() as int] == last);
    if s.contains(x) {
        let i = choose|i: int| 0 <= i < s.len() && s[i] == x;
        assert(longer[i] == x);
    }
}

/// The disk is the namespace of an NVMe device.
pub open spec fn is_namespace(lun: Lun, nvme: Seq<char>, nsid: u32, codes: SettingsCodes) -> bool {
    lun.physical_devices is Some && lun.physical_devices->0.device is Some && ({
        let device = lun.physical_devices->0.device->0;
        device.device_type == codes.nvme_device && device.device_path@ == nvme
            && device.sub_device_path == nsid
    })
}

/// Removing a namespace takes the disks that it backs, and no others, and the location that is
/// told is that of a disk that was taken. Nothing is told exactly where nothing was taken.
pub proof fn law_removal_takes_the_namespace_only(
    luns: Seq<Lun>,
    nvme: Seq<char>,
    nsid: u32,
    codes: SettingsCodes,
    lun: Lun,
)
    ensures
        without_namespace(luns, nvme, nsid, codes).contains(lun) <==> luns.contains(lun)
            && !is_namespace(lun, nvme, nsid, codes),
        last_location(luns, nvme, nsid, codes) is None <==> without_namespace(
            luns,
            nvme,
            nsid,
            codes,
        ) == luns,
        without_namespace(luns, nvme, nsid, codes).len() <= luns.len(),
        last_location(luns, nvme, nsid, codes) matches Some(location) ==> exists|i: int|
            0 <= i < luns.len() && (#[trigger] luns[i]).location == location && is_namespace(
                luns[i],
                nvme,
                nsid,
                codes,
            ),
    decreases luns.len(),
{
    if luns.len() > 0 {
        let front = luns.drop_last();
        law_removal_takes_the_namespace_only(front, nvme, nsid, codes, lun);
        assert(luns =~= front.push(luns.last()));
        lemma_contains_push(front, luns.last(), lun);
        lemma_contains_push(without_namespace(front, nvme, nsid, codes), luns.last(), lun);
        if last_location(luns, nvme, nsid, codes) is Some {
            if is_namespace(luns.last(), nvme, nsid, codes) {
                assert(luns[luns.len() - 1].location == luns.last().location);
            } else {
                let i = choose|i: int|
                    0 <= i < front.len() && (#[trigger] front[i]).location == last_location(
                        front,
                        nvme,
                        nsid,
                        codes,
                    )->0 && is_namespace(front[i], nvme, nsid, codes);
                assert(luns[i] == front[i]);
            }
        }
        let kept = without_namespace(front, nvme, nsid, codes);
        let all = without_namespace(luns, nvme, nsid, codes);
        if is_namespace(luns.last(), nvme, nsid, codes) {
            assert(all.len() < luns.len());
            assert(all != luns);
        } else {
            assert(all == kept.push(luns.last()));
            if all == luns {
                assert(kept =~= all.drop_last());
                assert(kept == front);
            }
            if kept == front {
                assert(all == luns);
            }
        }
    } else {
        assert(luns =~= Seq::<Lun>::empty());
    }
}

/// A disk that was added for a namespace is found again by that namespace, at the location
/// that it was added at, and removing the namespace leaves the disks that were there before.
pub proof fn law_added_disk_is_found_by_its_namespace(
    luns: Seq<Lun>,
    lun: Lun,
    params: AddVtl0ScsiDiskParams,
    device_id: Seq<char>,
    codes: SettingsCodes,
)
    requires
        describes(lun, params, device_id, codes),
        params.device_type == codes.nvme_device,
        forall|i: int|
            0 <= i < luns.len() ==> !is_namespace(
                #[trigger] luns[i],
                guid_text(params.device_path),
                params.sub_device_path,
                codes,
            ),
    ensures
        lun.location == params.lun,
        lun.device_id@ == device_id,
        !lun.is_dvd,
        lun.vendor_id@ == "OpenVMM"@ && lun.product_id@ == "Disk"@,
        lun.product_revision_level@ == "1.0"@ && lun.serial_number@ == "0"@,
        lun.model_number@ == "1"@,
        lun.physical_devices->0.backing_type == codes.single_backing,
        lun.physical_devices->0.devices@.len() == 0,
        last_location(
            luns.push(lun),
            guid_text(params.device_path),
            params.sub_device_path,
            codes,
        ) == Some(params.lun),
        without_namespace(
            luns.push(lun),
            guid_text(params.device_path),
            params.sub_device_path,
            codes,
        ) == luns,
{
    let nvme = guid_text(params.device_path);
    assert(luns.push(lun).drop_last() =~= luns);
    law_removal_takes_the_namespace_only(luns, nvme, params.sub_device_path, codes, lun);
    assert(last_location(luns, nvme, params.sub_device_path, codes) is None);
}

/// A request for a disk is answered well only where the disk was added and the settings
/// were kept.
pub proof fn law_disk_is_there_where_the_answer_says_so(
    kept: Result<(), Refusal>,
    added: Result<(), Refusal>,
    r: Result<(), Refusal>,
)
    requires
        call_ensures(add_disk_answer, (kept, added), r),
    ensures
        r is Ok <==> kept is Ok && added is Ok,
        kept is Err ==> r is Err && r->Err_0@ == kept->Err_0@,
        kept is Ok && added is Err ==> r is Err && r->Err_0@ == added->Err_0@,
{
}

/// What an argument sets of the identity of a machine is what the machine has there.
pub proof fn law_identity_is_what_the_arguments_set(
    args: Vec<SmbiosCli>,
    fresh: Guid,
    r: Result<SmbiosConfig, Refusal>,
    i: int,
)
    requires
        call_ensures(smbios_config_from_cli, (args, fresh), r),
        r is Ok,
        0 <= i < args@.len(),
    ensures
        ({
            let arg = args@[i];
            let bios = r->Ok_0.bios;
            let system = r->Ok_0.system;
            &&& arg.bios_vendor is Some ==> bios.vendor == arg.bios_vendor
            &&& arg.bios_version is Some ==> bios.version == arg.bios_version
            &&& arg.bios_release_date is Some ==> bios.release_date == arg.bios_release_date
            &&& arg.bios_release is Some ==> bios.release == arg.bios_release
            &&& arg.system_manufacturer is Some ==> system.manufacturer
                == arg.system_manufacturer
            &&& arg.system_product is Some ==> system.product_name == arg.system_product
            &&& arg.system_version is Some ==> system.version == arg.system_version
            &&& arg.system_serial is Some ==> system.serial_number == arg.system_serial
            &&& arg.system_sku is Some ==> system.sku_number == arg.system_sku
            &&& arg.system_family is Some ==> system.family == arg.system_family
            &&& arg.system_uuid matches Some(SmbiosUuid::Fixed(guid)) ==> system.uuid == guid
            &&& arg.system_uuid matches Some(SmbiosUuid::Random) ==> system.uuid == fresh
        }),
{
    let arg = args@[i];
    let field = |c: SmbiosCli| c.bios_vendor;
    assert(field(args@[i]) == arg.bios_vendor);
    let field = |c: SmbiosCli| c.bios_version;
    assert(field(args@[i]) == arg.bios_version);
    let field = |c: SmbiosCli| c.bios_release_date;
    assert(field(args@[i]) == arg.bios_release_date);
    let field = |c: SmbiosCli| c.bios_release;
    assert(field(args@[i]) == arg.bios_release);
    let field = |c: SmbiosCli| c.system_manufacturer;
    assert(field(args@[i]) == arg.system_manufacturer);
    let field = |c: SmbiosCli| c.system_product;
    assert(field(args@[i]) == arg.system_product);
    let field = |c: SmbiosCli| c.system_version;
    assert(field(args@[i]) == arg.system_version);
    let field = |c: SmbiosCli| c.system_serial;
    assert(field(args@[i]) == arg.system_serial);
    let field = |c: SmbiosCli| c.system_sku;
    assert(field(args@[i]) == arg.system_sku);
    let field = |c: SmbiosCli| c.system_family;
    assert(field(args@[i]) == arg.system_family);
}

/// The identity of a machine without arguments is empty, with an identifier of zeroes.
pub proof fn law_identity_is_empty_without_arguments(
    args: Vec<SmbiosCli>,
    fresh: Guid,
    r: Result<SmbiosConfig, Refusal>,
)
    requires
        call_ensures(smbios_config_from_cli, (args, fresh), r),
        args@.len() == 0,
    ensures
        r is Ok,
        r->Ok_0.bios.vendor is None && r->Ok_0.bios.version is None,
        r->Ok_0.bios.release_date is None && r->Ok_0.bios.release is None,
        r->Ok_0.system.manufacturer is None && r->Ok_0.system.product_name is None,
        r->Ok_0.system.version is None && r->Ok_0.system.serial_number is None,
        r->Ok_0.system.sku_number is None && r->Ok_0.system.family is None,
        r->Ok_0.system.uuid.data1 == 0 && r->Ok_0.system.uuid.data2 == 0,
        r->Ok_0.system.uuid.data3 == 0,
        forall|i: int| 0 <= i < 8 ==> #[trigger] r->Ok_0.system.uuid.data4@[i] == 0,
{
}

/// Two arguments that set the same field are refused; one argument alone never is.
pub proof fn law_fields_are_set_once(
    args: Vec<SmbiosCli>,
    r: Result<SmbiosCli, Refusal>,
    i: int,
    j: int,
)
    requires
        call_ensures(merge_smbios, (args,), r),
        0 <= i < j < args@.len(),
    ensures
        args@[i].bios_vendor is Some && args@[j].bios_vendor is Some ==> r is Err,
        args@[i].bios_version is Some && args@[j].bios_version is Some ==> r is Err,
        args@[i].bios_release_date is Some && args@[j].bios_release_date is Some ==> r is Err,
        args@[i].bios_release is Some && args@[j].bios_release is Some ==> r is Err,
        args@[i].system_manufacturer is Some && args@[j].system_manufacturer is Some ==> r is Err,
        args@[i].system_product is Some && args@[j].system_product is Some ==> r is Err,
        args@[i].system_version is Some && args@[j].system_version is Some ==> r is Err,
        args@[i].system_serial is Some && args@[j].system_serial is Some ==> r is Err,
        args@[i].system_sku is Some && args@[j].system_sku is Some ==> r is Err,
        args@[i].system_family is Some && args@[j].system_family is Some ==> r is Err,
        args@[i].system_uuid is Some && args@[j].system_uuid is Some ==> r is Err,
{
    let (a, b) = (args@[i], args@[j]);
}

/// One argument alone is taken as it is.
pub proof fn law_one_argument_is_taken(args: Vec<SmbiosCli>, r: Result<SmbiosCli, Refusal>)
    requires
        call_ensures(merge_smbios, (args,), r),
        args@.len() == 1,
    ensures
        r is Ok,
        r->Ok_0 == args@[0],
{
    law_merged_arguments_keep_their_fields(args, r, 0);
    lemma_merged_from_one(r->Ok_0, args@);
}

proof fn lemma_merged_from_one(merged: SmbiosCli, args: Seq<SmbiosCli>)
    requires
        is_merged(merged, args),
        args.len() == 1,
    ensures
        args[0].bios_vendor is None ==> merged.bios_vendor is None,
        args[0].bios_version is None ==> merged.bios_version is None,
        args[0].bios_release_date is None ==> merged.bios_release_date is None,
        args[0].bios_release is None ==> merged.bios_release is None,
        args[0].system_manufacturer is None ==> merged.system_manufacturer is None,
        args[0].system_product is None ==> merged.system_product is None,
        args[0].system_version is None ==> merged.system_version is None,
        args[0].system_serial is None ==> merged.system_serial is None,
        args[0].system_sku is None ==> merged.system_sku is None,
        args[0].system_family is None ==> merged.system_family is None,
        args[0].system_uuid is None ==> merged.system_uuid is None,
{
}

/// What an argument sets is what the merged arguments set.
pub proof fn law_merged_arguments_keep_their_fields(
    args: Vec<SmbiosCli>,
    r: Result<SmbiosCli, Refusal>,
    i: int,
)
    requires
        call_ensures(merge_smbios, (args,), r),
        r is Ok,
        0 <= i < args@.len(),
    ensures
        ({
            let arg = args@[i];
            let merged = r->Ok_0;
            &&& arg.bios_vendor is Some ==> merged.bios_vendor == arg.bios_vendor
            &&& arg.bios_version is Some ==> merged.bios_version == arg.bios_version
            &&& arg.bios_release_date is Some ==> merged.bios_release_date
                == arg.bios_release_date
            &&& arg.bios_release is Some ==> merged.bios_release == arg.bios_release
            &&& arg.system_manufacturer is Some ==> merged.system_manufacturer
                == arg.system_manufacturer
            &&& arg.system_product is Some ==> merged.system_product == arg.system_product
            &&& arg.system_version is Some ==> merged.system_version == arg.system_version
            &&& arg.system_serial is Some ==> merged.system_serial == arg.system_serial
            &&& arg.system_sku is Some ==> merged.system_sku == arg.system_sku
            &&& arg.system_family is Some ==> merged.system_family == arg.system_family
            &&& arg.system_uuid is Some ==> merged.system_uuid == arg.system_uuid
        }),
{
    let arg = args@[i];
    let field = |c: SmbiosCli| c.bios_vendor;
    assert(field(args@[i]) == arg.bios_vendor);
}

/// A plain identity is that of its machine, and nothing else is set in it.
pub proof fn law_plain_identity_is_the_machines(uuid: Guid, r: SmbiosConfig)
    requires
        call_ensures(plain_smbios, (uuid,), r),
    ensures
        r.system.uuid == uuid,
        r.bios.vendor is None && r.bios.version is None && r.bios.release_date is None,
        r.system.serial_number is None && r.system.manufacturer is None,
        r.system.product_name is None && r.system.sku_number is None && r.system.family is None,
{
}

/// Each protocol is known by its own first byte, is served only by a build that speaks it,
/// and not where another one was asked for.
pub proof fn law_protocols_are_known_by_their_first_byte(
    first_byte: u8,
    transport: RpcTransport,
    features: TransportFeatures,
    r: Result<Protocol, Refusal>,
)
    requires
        call_ensures(classify, (first_byte, transport, features), r),
    ensures
        r is Ok && r->Ok_0 is Ttrpc <==> first_byte == 0 && features.ttrpc && !(transport is Grpc),
        r is Ok && r->Ok_0 is Grpc <==> first_byte == 'P' as u8 && features.grpc && !(
        transport is Ttrpc),
        r is Ok && r->Ok_0 is FdPassing <==> first_byte == 0xfd && features.fd_passing,
{
}

/// A transport that is asked for is the one that is served, where the build speaks it.
pub proof fn law_asked_transport_is_served(
    transport: RpcTransport,
    features: TransportFeatures,
    r: Result<RpcTransport, Refusal>,
)
    requires
        call_ensures(resolve_transport, (transport, features), r),
    ensures
        r is Ok ==> r->Ok_0 == transport,
        transport is Auto ==> r is Ok,
        transport is Ttrpc ==> (r is Ok <==> features.ttrpc),
        transport is Grpc ==> (r is Ok <==> features.grpc),
{
}

/// A control endpoint lies in a directory of its user, which the user may use in full and
/// which nobody else may reach.
pub proof fn law_control_directory_is_private(
    parent: Option<&EntryFacts>,
    user: u32,
    r: Result<(), IoFailure>,
)
    requires
        call_ensures(check_control_parent, (parent, user), r),
        r is Ok,
    ensures
        parent is Some,
        parent->0.kind is Directory,
        parent->0.uid == user,
        parent->0.mode & 0o077 == 0,
        parent->0.mode & 0o700 == 0o700,
{
    let mode = parent->0.mode;
    assert(mode & 0xfff == 0x1c0 ==> mode & 0o077 == 0 && mode & 0o700 == 0o700) by (bit_vector);
}

/// A control socket is the one that was bound, of the same owner, and nobody else may use it.
pub proof fn law_control_socket_is_private(
    socket: &EntryFacts,
    bound: &EntryFacts,
    owner: u32,
    r: Result<(), IoFailure>,
)
    requires
        call_ensures(check_control_socket, (socket, bound, owner), r),
        r is Ok,
    ensures
        socket.kind is Socket,
        socket.uid == owner,
        socket.device == bound.device && socket.inode == bound.inode,
        socket.mode & 0o077 == 0,
        socket.mode & 0o600 == 0o600,
{
    let mode = socket.mode;
    assert(mode & 0xfff == 0x180 ==> mode & 0o077 == 0 && mode & 0o600 == 0o600) by (bit_vector);
}

/// What is removed at the path of a socket is the very socket that was bound there.
pub proof fn law_only_the_bound_socket_is_removed(
    current: Option<&EntryFacts>,
    bound: &EntryFacts,
    b: bool,
)
    requires
        call_ensures(may_remove_socket, (current, bound), b),
    ensures
        b ==> current is Some && current->0.kind is Socket && current->0.device == bound.device
            && current->0.inode == bound.inode,
        current == Some(bound) && bound.kind is Socket ==> b,
{
}

/// What stands in the way of a new socket goes only where it is a socket.
pub proof fn law_only_sockets_are_cleared(entry: Option<&EntryFacts>, b: bool)
    requires
        call_ensures(clears_path, (entry,), b),
    ensures
        b <==> entry is Some && entry->0.kind is Socket,
{
}

/// A capability comes through a pipe, and through nothing else.
pub proof fn law_capability_comes_through_a_pipe(entry: &EntryFacts, r: Result<(), IoFailure>)
    requires
        call_ensures(check_capability_pipe, (entry,), r),
    ensures
        r is Ok <==> entry.kind is Fifo,
{
}

/// A console socket that was remembered is removed while it is in its place, and nothing
/// else is: what took its place is left alone and told.
pub proof fn law_remembered_console_socket_is_removed(
    path: String,
    entry: &Result<EntryFacts, Refusal>,
    cleanup: Result<MicrovmConsoleSocketCleanup, Refusal>,
    found: &Found,
    r: Result<bool, Refusal>,
)
    requires
        call_ensures(MicrovmConsoleSocketCleanup::new, (path, entry), cleanup),
        cleanup is Ok,
        call_ensures(MicrovmConsoleSocketCleanup::remove_if_owned, (&cleanup->Ok_0, found), r),
    ensures
        entry is Ok && entry->Ok_0.kind is Socket,
        cleanup->Ok_0.path@ == path@,
        found matches Found::Entry(facts) ==> {
            &&& facts == entry->Ok_0 ==> r is Ok && r->Ok_0
            &&& facts.device != entry->Ok_0.device ==> r is Err
            &&& facts.inode != entry->Ok_0.inode ==> r is Err
            &&& !(facts.kind is Socket) ==> r is Err
        },
        found is Missing ==> r is Ok && !r->Ok_0,
        found is Failed ==> r is Err,
{
}

/// A console endpoint is the named entry of its directory, and no link.
pub proof fn law_console_path_is_in_its_directory(
    path: &EndpointPath,
    r: Result<String, Refusal>,
)
    requires
        call_ensures(canonical_microvm_console_path, (path,), r),
    ensures
        r is Ok <==> path.file_name is Some && path.parent is Some && path.parent->0 is Ok
            && !path.is_symlink,
        r is Ok ==> {
            let parent = path.parent->0->Ok_0@;
            let name = path.file_name->0@;
            &&& parent.is_prefix_of(r->Ok_0@)
            &&& name.is_suffix_of(r->Ok_0@)
            &&& r->Ok_0@.len() <= parent.len() + 1 + name.len()
            &&& r->Ok_0@[r->Ok_0@.len() - name.len() - 1] == '/'
        },
{
    reveal_strlit("/");
    if r is Ok {
        let parent = path.parent->0->Ok_0@;
        let name = path.file_name->0@;
        let whole = r->Ok_0@;
        assert(parent =~= whole.subrange(0, parent.len() as int));
        assert(name =~= whole.subrange(whole.len() - name.len(), whole.len() as int));
        if whole == parent + name {
            assert(parent.skip(parent.len() - 1)[0] == parent[parent.len() - 1]);
        }
    }
}

/// A readiness path that is taken begins, but for the direction of its slashes, with
/// the directory of pipes, and names something in it.
pub proof fn law_readiness_path_names_a_pipe(path: &str, r: Result<(), IoFailure>)
    requires
        call_ensures(check_restore_ready_pipe, (path,), r),
        r is Ok,
    ensures
        path@.len() > 9,
        path@[0] == '/' || path@[0] == '\\',
        path@[1] == '/' || path@[1] == '\\',
        path@[2] == '.',
        path@[3] == '/' || path@[3] == '\\',
        path@.subrange(4, 8) == "pipe"@,
        path@[8] == '/' || path@[8] == '\\',
{
    reveal_strlit("//./pipe/");
    reveal_strlit("pipe");
    let norm = normalized(path@);
    let head = norm.take(9);
    assert(forall|i: int| 0 <= i < 9 ==> #[trigger] head[i] == norm[i]);
    assert(head[0] == '/' && head[1] == '/' && head[2] == '.' && head[3] == '/');
    assert(head[4] == 'p' && head[5] == 'i' && head[6] == 'p' && head[7] == 'e' && head[8] == '/');
    assert(path@.subrange(4, 8) =~= "pipe"@);
}

} // verus!
