//! Changes to the storage settings of a paravisor.

use vstd::prelude::*;

use crate::config::Guid;
use crate::controller::{
    AddVtl0ScsiDiskParams, RemoveVtl0ScsiDiskByNvmeNsidParams, RemoveVtl0ScsiDiskParams,
};
use crate::numeral::{fixed_hex, push_fixed_hex};
use crate::refusal::{refusal_of, refuse_quoting, Refusal};
use crate::text::same_text;

verus! {

/// The text of the octets of an identifier from one index to another.
pub open spec fn octets_text(octets: Seq<u8>) -> Seq<char>
    decreases octets.len(),
{
    if octets.len() == 0 {
        Seq::empty()
    } else {
        octets_text(octets.drop_last()) + fixed_hex(octets.last() as nat, 2)
    }
}

/// The text of an identifier, in five groups of lower-case digits.
pub open spec fn guid_text(g: Guid) -> Seq<char> {
    fixed_hex(g.data1 as nat, 8) + seq!['-'] + fixed_hex(g.data2 as nat, 4) + seq!['-'] + fixed_hex(
        g.data3 as nat,
        4,
    ) + seq!['-'] + octets_text(g.data4@.take(2)) + seq!['-'] + octets_text(g.data4@.skip(2))
}

fn push_octets(out: &mut String, octets: &[u8; 8], from: usize, to: usize)
    requires
        from <= to <= 8,
    ensures
        final(out)@ == old(out)@ + octets_text(octets@.subrange(from as int, to as int)),
{
    let mut i: usize = from;
    assert(out@ =~= old(out)@ + octets_text(octets@.subrange(from as int, from as int)));
    while i < to
        invariant
            from <= i <= to <= 8,
            out@ == old(out)@ + octets_text(octets@.subrange(from as int, i as int)),
        decreases to - i,
    {
        push_fixed_hex(out, octets[i] as u64, 2);
        proof {
            let upto = octets@.subrange(from as int, i + 1);
            assert(upto.drop_last() =~= octets@.subrange(from as int, i as int));
            assert(upto.last() == octets@[i as int]);
            assert(out@ =~= old(out)@ + octets_text(upto));
        }
        i += 1;
    }
}

impl Guid {
    /// The text of the identifier.
    pub fn to_text(&self) -> (s: String)
        ensures
            s@ == guid_text(*self),
    {
        let mut s = String::new();
        push_fixed_hex(&mut s, self.data1 as u64, 8);
        s.push('-');
        push_fixed_hex(&mut s, self.data2 as u64, 4);
        s.push('-');
        push_fixed_hex(&mut s, self.data3 as u64, 4);
        s.push('-');
        push_octets(&mut s, &self.data4, 0, 2);
        s.push('-');
        push_octets(&mut s, &self.data4, 2, 8);
        proof {
            assert(self.data4@.subrange(0, 2) =~= self.data4@.take(2));
            assert(self.data4@.subrange(2, 8) =~= self.data4@.skip(2));
            assert(s@ =~= guid_text(*self));
        }
        s
    }
}

/// The device behind a disk.
#[derive(Debug)]
pub struct PhysicalDevice {
    pub device_type: i32,
    pub device_path: String,
    pub sub_device_path: u32,
}

/// The devices behind a disk.
#[derive(Debug)]
pub struct PhysicalDevices {
    pub backing_type: i32,
    pub device: Option<PhysicalDevice>,
    pub devices: Vec<PhysicalDevice>,
}

/// A disk on a storage controller.
#[derive(Debug)]
pub struct Lun {
    pub location: u32,
    pub device_id: String,
    pub vendor_id: String,
    pub product_id: String,
    pub product_revision_level: String,
    pub serial_number: String,
    pub model_number: String,
    pub physical_devices: Option<PhysicalDevices>,
    pub is_dvd: bool,
}

/// A storage controller that the paravisor offers.
#[derive(Debug)]
pub struct StorageController {
    pub instance_id: String,
    pub protocol: i32,
    pub luns: Vec<Lun>,
}

/// The settings of a paravisor that can change while it runs.
#[derive(Debug)]
pub struct Vtl2DynamicSettings {
    pub storage_controllers: Vec<StorageController>,
}

/// The settings of a paravisor.
#[derive(Debug)]
pub struct Vtl2Settings {
    pub dynamic: Option<Vtl2DynamicSettings>,
}

/// The numbers that the settings' encoding gives to the names used here.
#[derive(Clone, Copy, Debug, PartialEq, Eq, Structural)]
pub struct SettingsCodes {
    pub scsi_protocol: i32,
    pub nvme_device: i32,
    pub single_backing: i32,
}

/// The controller that a request means.
pub open spec fn is_scsi_controller(
    c: StorageController,
    instance_id: Seq<char>,
    codes: SettingsCodes,
) -> bool {
    c.instance_id@ == instance_id && c.protocol == codes.scsi_protocol
}

/// The position of the first controller that a request means.
pub open spec fn scsi_position(
    list: Seq<StorageController>,
    instance_id: Seq<char>,
    codes: SettingsCodes,
) -> Option<int>
    decreases list.len(),
{
    if list.len() == 0 {
        None
    } else {
        match scsi_position(list.drop_last(), instance_id, codes) {
            Some(i) => Some(i),
            None => if is_scsi_controller(list.last(), instance_id, codes) {
                Some(list.len() - 1)
            } else {
                None
            },
        }
    }
}

proof fn lemma_scsi_position(
    list: Seq<StorageController>,
    k: int,
    instance_id: Seq<char>,
    codes: SettingsCodes,
)
    requires
        0 <= k <= list.len(),
        scsi_position(list.take(k), instance_id, codes) is Some,
    ensures
        scsi_position(list, instance_id, codes) == scsi_position(
            list.take(k),
            instance_id,
            codes,
        ),
    decreases list.len(),
{
    if k == list.len() {
        assert(list.take(k) =~= list);
    } else {
        assert(list.drop_last().take(k) =~= list.take(k));
        lemma_scsi_position(list.drop_last(), k, instance_id, codes);
    }
}

fn find_scsi(list: &Vec<StorageController>, instance_id: &str, codes: SettingsCodes) -> (r: Option<
    usize,
>)
    ensures
        match r {
            Some(i) => i < list@.len() && scsi_position(list@, instance_id@, codes) == Some(
                i as int,
            ),
            None => scsi_position(list@, instance_id@, codes) is None,
        },
{
    let mut i: usize = 0;
    while i < list.len()
        invariant
            i <= list@.len(),
            scsi_position(list@.take(i as int), instance_id@, codes) is None,
        decreases list@.len() - i,
    {
        proof {
            assert(list@.take(i + 1).drop_last() =~= list@.take(i as int));
            assert(list@.take(i + 1).last() == list@[i as int]);
        }
        if same_text(list[i].instance_id.as_str(), instance_id) && list[i].protocol
            == codes.scsi_protocol {
            proof {
                lemma_scsi_position(list@, i + 1, instance_id@, codes);
            }
            return Some(i);
        }
        i += 1;
    }
    assert(list@.take(i as int) =~= list@);
    None
}

/// The disk that a request describes.
pub open spec fn describes(
    lun: Lun,
    params: AddVtl0ScsiDiskParams,
    device_id: Seq<char>,
    codes: SettingsCodes,
) -> bool {
    &&& lun.location == params.lun
    &&& lun.device_id@ == device_id
    &&& lun.vendor_id@ == "OpenVMM"@
    &&& lun.product_id@ == "Disk"@
    &&& lun.product_revision_level@ == "1.0"@
    &&& lun.serial_number@ == "0"@
    &&& lun.model_number@ == "1"@
    &&& !lun.is_dvd
    &&& lun.physical_devices matches Some(devices)
    &&& devices.backing_type == codes.single_backing
    &&& devices.devices@.len() == 0
    &&& devices.device matches Some(device)
    &&& device.device_type == params.device_type
    &&& device.device_path@ == guid_text(params.device_path)
    &&& device.sub_device_path == params.sub_device_path
}

/// The settings with one controller's disks replaced.
pub open spec fn with_luns(
    list: Seq<StorageController>,
    at: int,
    after: Seq<StorageController>,
    luns: Seq<Lun>,
) -> bool {
    &&& after.len() == list.len()
    &&& forall|i: int|
        0 <= i < list.len() && i != at ==> #[trigger] after[i] == list[i]
    &&& after[at].instance_id == list[at].instance_id
    &&& after[at].protocol == list[at].protocol
    &&& after[at].luns@ == luns
}

/// The controllers of some settings.
pub open spec fn controllers(settings: Vtl2Settings) -> Seq<StorageController> {
    match settings.dynamic {
        Some(dynamic) => dynamic.storage_controllers@,
        None => Seq::empty(),
    }
}

/// Adds a disk to the controller that a request names. Settings without dynamic
/// part get an empty one; settings without the controller are otherwise left
/// alone and the request is refused.
pub fn add_vtl0_scsi_disk(
    settings: &mut Vtl2Settings,
    params: &AddVtl0ScsiDiskParams,
    device_id: String,
    codes: SettingsCodes,
) -> (r: Result<(), Refusal>)
    ensures
        final(settings).dynamic is Some,
        ({
            let before = controllers(*old(settings));
            let after = controllers(*final(settings));
            match scsi_position(before, guid_text(params.controller_guid), codes) {
                None => after == before && refusal_of(r) == Some(
                    "SCSI controller "@ + guid_text(params.controller_guid) + " not found"@,
                ),
                Some(at) => {
                    &&& r is Ok
                    &&& 0 <= at < before.len()
                    &&& after[at].luns@.len() == before[at].luns@.len() + 1
                    &&& with_luns(
                        before,
                        at,
                        after,
                        before[at].luns@.push(after[at].luns@.last()),
                    )
                    &&& describes(after[at].luns@.last(), *params, device_id@, codes)
                },
            }
        }),
{
    if settings.dynamic.is_none() {
        settings.dynamic = Some(Vtl2DynamicSettings { storage_controllers: Vec::new() });
        assert(controllers(*settings) =~= controllers(*old(settings)));
    }
    let id = params.controller_guid.to_text();
    match &mut settings.dynamic {
        Some(dynamic) => {
            let at: usize = match find_scsi(&dynamic.storage_controllers, id.as_str(), codes) {
                Some(at) => at,
                None => {
                    return Err(refuse_quoting("SCSI controller ", id.as_str(), " not found"));
                },
            };
            let device = PhysicalDevice {
                device_type: params.device_type,
                device_path: params.device_path.to_text(),
                sub_device_path: params.sub_device_path,
            };
            let lun = Lun {
                location: params.lun,
                device_id,
                vendor_id: "OpenVMM".to_owned(),
                product_id: "Disk".to_owned(),
                product_revision_level: "1.0".to_owned(),
                serial_number: "0".to_owned(),
                model_number: "1".to_owned(),
                physical_devices: Some(
                    PhysicalDevices {
                        backing_type: codes.single_backing,
                        device: Some(device),
                        devices: Vec::new(),
                    },
                ),
                is_dvd: false,
            };
            dynamic.storage_controllers[at].luns.push(lun);
            Ok(())
        },
        None => Ok(()),
    }
}

/// Keeps edited settings once the guest emulation device accepted them. Settings
/// that it did not accept change nothing, and its refusal is the answer.
pub fn keep_settings(
    current: &mut Option<Vtl2Settings>,
    edited: Vtl2Settings,
    accepted: Result<(), Refusal>,
) -> (r: Result<(), Refusal>)
    ensures
        match accepted {
            Ok(()) => r is Ok && *final(current) == Some(edited),
            Err(e) => refusal_of(r) == Some(e@) && *final(current) == *old(current),
        },
{
    match accepted {
        Ok(()) => {
            *current = Some(edited);
            Ok(())
        },
        Err(e) => Err(e),
    }
}

/// The answer to a request for a disk: settings that were not kept answer first,
/// then a controller that was not found.
pub fn add_disk_answer(kept: Result<(), Refusal>, added: Result<(), Refusal>) -> (r: Result<
    (),
    Refusal,
>)
    ensures
        refusal_of(r) == (match kept {
            Err(e) => Some(e@),
            Ok(()) => refusal_of(added),
        }),
{
    match kept {
        Err(e) => Err(e),
        Ok(()) => added,
    }
}

/// The disks that are not at a location.
pub open spec fn without_location(luns: Seq<Lun>, lun: u32) -> Seq<Lun>
    decreases luns.len(),
{
    if luns.len() == 0 {
        Seq::empty()
    } else if luns.last().location == lun {
        without_location(luns.drop_last(), lun)
    } else {
        without_location(luns.drop_last(), lun).push(luns.last())
    }
}

fn drop_location(luns: &mut Vec<Lun>, lun: u32)
    ensures
        final(luns)@ == without_location(old(luns)@, lun),
{
    let ghost all = luns@;
    let ghost mut seen: int = 0;
    let mut i: usize = 0;
    assert(all.skip(0) =~= all);
    assert(luns@ =~= without_location(all.take(0), lun) + all.skip(0));
    while i < luns.len()
        invariant
            0 <= seen <= all.len(),
            all == old(luns)@,
            i == without_location(all.take(seen), lun).len(),
            luns@ == without_location(all.take(seen), lun) + all.skip(seen),
        decreases all.len() - seen,
    {
        proof {
            assert(luns@[i as int] == all.skip(seen)[0]);
            assert(all.take(seen + 1).drop_last() =~= all.take(seen));
            assert(all.take(seen + 1).last() == all[seen]);
        }
        if luns[i].location == lun {
            let _removed = luns.remove(i);
            assert(luns@ =~= without_location(all.take(seen + 1), lun) + all.skip(seen + 1));
        } else {
            assert(luns@ =~= without_location(all.take(seen + 1), lun) + all.skip(seen + 1));
            i += 1;
        }
        proof {
            seen = seen + 1;
        }
    }
    proof {
        assert(all.skip(seen).len() == 0);
        assert(all.take(seen) =~= all);
        assert(luns@ =~= without_location(all, lun));
    }
}

/// Removes the disk at a location of the controller that a request names.
/// Settings without that controller are left alone.
pub fn remove_vtl0_scsi_disk(
    settings: &mut Vtl2Settings,
    params: &RemoveVtl0ScsiDiskParams,
    codes: SettingsCodes,
)
    ensures
        ({
            let before = controllers(*old(settings));
            let after = controllers(*final(settings));
            match scsi_position(before, guid_text(params.controller_guid), codes) {
                None => *final(settings) == *old(settings),
                Some(at) => 0 <= at < before.len() && with_luns(
                    before,
                    at,
                    after,
                    without_location(before[at].luns@, params.lun),
                ),
            }
        }),
{
    let id = params.controller_guid.to_text();
    match &mut settings.dynamic {
        Some(dynamic) => {
            match find_scsi(&dynamic.storage_controllers, id.as_str(), codes) {
                Some(at) => {
                    drop_location(&mut dynamic.storage_controllers[at].luns, params.lun);
                },
                None => {},
            }
        },
        None => {},
    }
}

/// The disk is backed by a namespace of an NVMe controller.
pub open spec fn backed_by(lun: Lun, nvme: Seq<char>, nsid: u32, codes: SettingsCodes) -> bool {
    &&& lun.physical_devices matches Some(devices)
    &&& devices.device matches Some(device)
    &&& device.device_type == codes.nvme_device
    &&& device.device_path@ == nvme
    &&& device.sub_device_path == nsid
}

/// The disks that are not backed by a namespace.
pub open spec fn without_namespace(
    luns: Seq<Lun>,
    nvme: Seq<char>,
    nsid: u32,
    codes: SettingsCodes,
) -> Seq<Lun>
    decreases luns.len(),
{
    if luns.len() == 0 {
        Seq::empty()
    } else if backed_by(luns.last(), nvme, nsid, codes) {
        without_namespace(luns.drop_last(), nvme, nsid, codes)
    } else {
        without_namespace(luns.drop_last(), nvme, nsid, codes).push(luns.last())
    }
}

/// The location of the last disk that is backed by a namespace.
pub open spec fn last_location(
    luns: Seq<Lun>,
    nvme: Seq<char>,
    nsid: u32,
    codes: SettingsCodes,
) -> Option<u32>
    decreases luns.len(),
{
    if luns.len() == 0 {
        None
    } else if backed_by(luns.last(), nvme, nsid, codes) {
        Some(luns.last().location)
    } else {
        last_location(luns.drop_last(), nvme, nsid, codes)
    }
}

fn is_backed_by(lun: &Lun, nvme: &str, nsid: u32, codes: SettingsCodes) -> (b: bool)
    ensures
        b == backed_by(*lun, nvme@, nsid, codes),
{
    match &lun.physical_devices {
        Some(devices) => match &devices.device {
            Some(device) => device.device_type == codes.nvme_device && same_text(
                device.device_path.as_str(),
                nvme,
            ) && device.sub_device_path == nsid,
            None => false,
        },
        None => false,
    }
}

fn drop_namespace(luns: &mut Vec<Lun>, nvme: &str, nsid: u32, codes: SettingsCodes) -> (r: Option<
    u32,
>)
    ensures
        final(luns)@ == without_namespace(old(luns)@, nvme@, nsid, codes),
        r == last_location(old(luns)@, nvme@, nsid, codes),
{
    let ghost all = luns@;
    let ghost mut seen: int = 0;
    let mut found: Option<u32> = None;
    let mut i: usize = 0;
    assert(all.skip(0) =~= all);
    assert(luns@ =~= without_namespace(all.take(0), nvme@, nsid, codes) + all.skip(0));
    while i < luns.len()
        invariant
            0 <= seen <= all.len(),
            all == old(luns)@,
            i == without_namespace(all.take(seen), nvme@, nsid, codes).len(),
            luns@ == without_namespace(all.take(seen), nvme@, nsid, codes) + all.skip(seen),
            found == last_location(all.take(seen), nvme@, nsid, codes),
        decreases all.len() - seen,
    {
        proof {
            assert(luns@[i as int] == all.skip(seen)[0]);
            assert(all.take(seen + 1).drop_last() =~= all.take(seen));
            assert(all.take(seen + 1).last() == all[seen]);
        }
        if is_backed_by(&luns[i], nvme, nsid, codes) {
            found = Some(luns[i].location);
            let _removed = luns.remove(i);
            assert(luns@ =~= without_namespace(all.take(seen + 1), nvme@, nsid, codes) + all.skip(
                seen + 1,
            ));
        } else {
            assert(luns@ =~= without_namespace(all.take(seen + 1), nvme@, nsid, codes) + all.skip(
                seen + 1,
            ));
            i += 1;
        }
        proof {
            seen = seen + 1;
        }
    }
    proof {
        assert(all.skip(seen).len() == 0);
        assert(all.take(seen) =~= all);
        assert(luns@ =~= without_namespace(all, nvme@, nsid, codes));
    }
    found
}

/// Removes the disks of a namespace from the controller that a request names,
/// and says where the last of them was.
pub fn remove_vtl0_scsi_disk_by_nvme_nsid(
    settings: &mut Vtl2Settings,
    params: &RemoveVtl0ScsiDiskByNvmeNsidParams,
    codes: SettingsCodes,
) -> (r: Option<u32>)
    ensures
        ({
            let before = controllers(*old(settings));
            let after = controllers(*final(settings));
            let nvme = guid_text(params.nvme_controller_guid);
            match scsi_position(before, guid_text(params.controller_guid), codes) {
                None => *final(settings) == *old(settings) && r is None,
                Some(at) => {
                    &&& 0 <= at < before.len()
                    &&& with_luns(
                        before,
                        at,
                        after,
                        without_namespace(before[at].luns@, nvme, params.nsid, codes),
                    )
                    &&& r == last_location(before[at].luns@, nvme, params.nsid, codes)
                },
            }
        }),
{
    let id = params.controller_guid.to_text();
    let nvme = params.nvme_controller_guid.to_text();
    match &mut settings.dynamic {
        Some(dynamic) => {
            match find_scsi(&dynamic.storage_controllers, id.as_str(), codes) {
                Some(at) => drop_namespace(
                    &mut dynamic.storage_controllers[at].luns,
                    nvme.as_str(),
                    params.nsid,
                    codes,
                ),
                None => None,
            }
        },
        None => None,
    }
}

/// Adding a disk at a free location and removing it again leaves the disks of
/// the controller as they were.
pub proof fn law_remove_undoes_add(luns: Seq<Lun>, lun: Lun)
    requires
        forall|i: int| 0 <= i < luns.len() ==> (#[trigger] luns[i]).location != lun.location,
    ensures
        without_location(luns.push(lun), lun.location) == luns,
{
    assert(luns.push(lun).drop_last() =~= luns);
    lemma_without_absent(luns, lun.location);
}

proof fn lemma_without_absent(luns: Seq<Lun>, location: u32)
    requires
        forall|i: int| 0 <= i < luns.len() ==> (#[trigger] luns[i]).location != location,
    ensures
        without_location(luns, location) == luns,
    decreases luns.len(),
{
    if luns.len() > 0 {
        assert(luns[luns.len() - 1].location != location);
        assert forall|i: int| 0 <= i < luns.drop_last().len() implies (
        #[trigger] luns.drop_last()[i]).location != location by {
            assert(luns.drop_last()[i] == luns[i]);
        }
        lemma_without_absent(luns.drop_last(), location);
        assert(luns =~= luns.drop_last().push(luns.last()));
    }
}

/// After a removal no disk is left at the location.
pub proof fn law_removed_location_is_free(luns: Seq<Lun>, location: u32)
    ensures
        forall|i: int|
            0 <= i < without_location(luns, location).len() ==> (#[trigger] without_location(
                luns,
                location,
            )[i]).location != location,
    decreases luns.len(),
{
    if luns.len() > 0 {
        law_removed_location_is_free(luns.drop_last(), location);
    }
}

} // verus!
