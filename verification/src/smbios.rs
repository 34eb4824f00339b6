//! The SMBIOS identity that options describe.

use vstd::prelude::*;

use crate::config::{Guid, SmbiosBiosOverrides, SmbiosConfig, SmbiosSystemOverrides};
use crate::refusal::{refusal_of, refuse, Refusal};
use crate::text::copy_optional;

verus! {

/// The system identifier that options ask for.
#[derive(Clone, Copy, Debug)]
pub enum SmbiosUuid {
    /// A fresh identifier for each machine.
    Random,
    Fixed(Guid),
}

/// What one SMBIOS argument sets, or several that are merged.
#[derive(Debug)]
pub struct SmbiosCli {
    pub bios_vendor: Option<String>,
    pub bios_version: Option<String>,
    pub bios_release_date: Option<String>,
    pub bios_release: Option<(u8, u8)>,
    pub system_manufacturer: Option<String>,
    pub system_product: Option<String>,
    pub system_version: Option<String>,
    pub system_serial: Option<String>,
    pub system_sku: Option<String>,
    pub system_family: Option<String>,
    pub system_uuid: Option<SmbiosUuid>,
}

/// The all-zero identifier.
pub open spec fn is_zero_guid(guid: Guid) -> bool {
    &&& guid.data1 == 0 && guid.data2 == 0 && guid.data3 == 0
    &&& guid.data4@ == seq![0u8, 0, 0, 0, 0, 0, 0, 0]
}

pub fn zero_guid() -> (guid: Guid)
    ensures
        is_zero_guid(guid),
{
    let guid = Guid { data1: 0, data2: 0, data3: 0, data4: [0u8; 8] };
    assert(guid.data4@ =~= seq![0u8, 0, 0, 0, 0, 0, 0, 0]);
    guid
}

/// One argument and another set the same field.
pub open spec fn fields_clash(a: SmbiosCli, b: SmbiosCli) -> bool {
    ||| a.bios_vendor is Some && b.bios_vendor is Some
    ||| a.bios_version is Some && b.bios_version is Some
    ||| a.bios_release_date is Some && b.bios_release_date is Some
    ||| a.bios_release is Some && b.bios_release is Some
    ||| a.system_manufacturer is Some && b.system_manufacturer is Some
    ||| a.system_product is Some && b.system_product is Some
    ||| a.system_version is Some && b.system_version is Some
    ||| a.system_serial is Some && b.system_serial is Some
    ||| a.system_sku is Some && b.system_sku is Some
    ||| a.system_family is Some && b.system_family is Some
    ||| a.system_uuid is Some && b.system_uuid is Some
}

/// Some field is set by two arguments.
pub open spec fn set_twice(args: Seq<SmbiosCli>) -> bool {
    exists|i: int, j: int|
        0 <= i < j < args.len() && fields_clash(#[trigger] args[i], #[trigger] args[j])
}

/// The value of a field is the one that the arguments set: every argument that sets
/// it sets this value, and a value was set by one of them.
pub open spec fn is_set_by<T>(
    value: Option<T>,
    args: Seq<SmbiosCli>,
    field: spec_fn(SmbiosCli) -> Option<T>,
) -> bool {
    &&& forall|i: int|
        0 <= i < args.len() && field(#[trigger] args[i]) is Some ==> value == field(args[i])
    &&& value is Some ==> exists|i: int|
        0 <= i < args.len() && value == field(#[trigger] args[i])
}

/// Each field is the one that the arguments set.
pub open spec fn is_merged(merged: SmbiosCli, args: Seq<SmbiosCli>) -> bool {
    &&& is_set_by(merged.bios_vendor, args, |c: SmbiosCli| c.bios_vendor)
    &&& is_set_by(merged.bios_version, args, |c: SmbiosCli| c.bios_version)
    &&& is_set_by(merged.bios_release_date, args, |c: SmbiosCli| c.bios_release_date)
    &&& is_set_by(merged.bios_release, args, |c: SmbiosCli| c.bios_release)
    &&& is_set_by(merged.system_manufacturer, args, |c: SmbiosCli| c.system_manufacturer)
    &&& is_set_by(merged.system_product, args, |c: SmbiosCli| c.system_product)
    &&& is_set_by(merged.system_version, args, |c: SmbiosCli| c.system_version)
    &&& is_set_by(merged.system_serial, args, |c: SmbiosCli| c.system_serial)
    &&& is_set_by(merged.system_sku, args, |c: SmbiosCli| c.system_sku)
    &&& is_set_by(merged.system_family, args, |c: SmbiosCli| c.system_family)
    &&& is_set_by(merged.system_uuid, args, |c: SmbiosCli| c.system_uuid)
}

/// Why SMBIOS arguments are refused, if they are.
pub open spec fn smbios_refusal(args: Seq<SmbiosCli>) -> Option<Seq<char>> {
    if set_twice(args) {
        Some("an SMBIOS field is set twice"@)
    } else {
        None
    }
}

/// The first value, or else the second.
pub open spec fn either<T>(a: Option<T>, b: Option<T>) -> Option<T> {
    if a is Some {
        a
    } else {
        b
    }
}

fn first_set<T>(a: Option<T>, b: Option<T>) -> (r: Option<T>)
    ensures
        r == either(a, b),
{
    match a {
        Some(a) => Some(a),
        None => b,
    }
}

fn clash(a: &SmbiosCli, b: &SmbiosCli) -> (r: bool)
    ensures
        r == fields_clash(*a, *b),
{
    (a.bios_vendor.is_some() && b.bios_vendor.is_some())
        || (a.bios_version.is_some() && b.bios_version.is_some())
        || (a.bios_release_date.is_some() && b.bios_release_date.is_some())
        || (a.bios_release.is_some() && b.bios_release.is_some())
        || (a.system_manufacturer.is_some() && b.system_manufacturer.is_some())
        || (a.system_product.is_some() && b.system_product.is_some())
        || (a.system_version.is_some() && b.system_version.is_some())
        || (a.system_serial.is_some() && b.system_serial.is_some())
        || (a.system_sku.is_some() && b.system_sku.is_some())
        || (a.system_family.is_some() && b.system_family.is_some())
        || (a.system_uuid.is_some() && b.system_uuid.is_some())
}

/// Another argument that sets a field no other sets, or leaves it alone.
proof fn lemma_field_joins<T>(
    value: Option<T>,
    arg: SmbiosCli,
    rest: Seq<SmbiosCli>,
    field: spec_fn(SmbiosCli) -> Option<T>,
)
    requires
        is_set_by(value, rest, field),
        !(value is Some && field(arg) is Some),
    ensures
        is_set_by(either(value, field(arg)), seq![arg] + rest, field),
{
    let all = seq![arg] + rest;
    let joined = either(value, field(arg));
    assert forall|i: int| 0 <= i < all.len() && field(#[trigger] all[i]) is Some implies joined
        == field(all[i]) by {
        if i > 0 {
            assert(all[i] == rest[i - 1]);
        }
    }
    if value is Some {
        let i = choose|i: int| 0 <= i < rest.len() && value == field(#[trigger] rest[i]);
        assert(all[i + 1] == rest[i]);
    } else if field(arg) is Some {
        assert(all[0] == arg);
    }
}

/// Merges SMBIOS arguments. A field may be set by one of them only.
pub fn merge_smbios(args: Vec<SmbiosCli>) -> (r: Result<SmbiosCli, Refusal>)
    ensures
        refusal_of(r) == smbios_refusal(args@),
        r is Ok ==> is_merged(r->Ok_0, args@),
{
    let ghost all = args@;
    let mut pending = args;
    let mut merged = SmbiosCli {
        bios_vendor: None,
        bios_version: None,
        bios_release_date: None,
        bios_release: None,
        system_manufacturer: None,
        system_product: None,
        system_version: None,
        system_serial: None,
        system_sku: None,
        system_family: None,
        system_uuid: None,
    };
    while pending.len() > 0
        invariant
            pending@.len() <= all.len(),
            pending@ == all.take(pending@.len() as int),
            all == args@,
            !set_twice(all.skip(pending@.len() as int)),
            is_merged(merged, all.skip(pending@.len() as int)),
        decreases pending@.len(),
    {
        let ghost n = pending@.len() as int;
        let ghost rest = all.skip(n);
        if let Some(arg) = pending.pop() {
            proof {
                assert(arg == all[n - 1]);
                assert(seq![arg] + rest =~= all.skip(n - 1));
            }
            if clash(&merged, &arg) {
                proof {
                    lemma_clash(merged, arg, rest);
                    let k = choose|k: int|
                        0 <= k < rest.len() && fields_clash(#[trigger] rest[k], arg);
                    assert(rest[k] == all[n + k]);
                    assert(fields_clash(all[n - 1], all[n + k]));
                }
                return Err(refuse("an SMBIOS field is set twice"));
            }
            proof {
                lemma_field_joins(merged.bios_vendor, arg, rest, |c: SmbiosCli| c.bios_vendor);
                lemma_field_joins(merged.bios_version, arg, rest, |c: SmbiosCli| c.bios_version);
                lemma_field_joins(merged.bios_release_date, arg, rest, |c: SmbiosCli| c.bios_release_date);
                lemma_field_joins(merged.bios_release, arg, rest, |c: SmbiosCli| c.bios_release);
                lemma_field_joins(merged.system_manufacturer, arg, rest, |c: SmbiosCli| c.system_manufacturer);
                lemma_field_joins(merged.system_product, arg, rest, |c: SmbiosCli| c.system_product);
                lemma_field_joins(merged.system_version, arg, rest, |c: SmbiosCli| c.system_version);
                lemma_field_joins(merged.system_serial, arg, rest, |c: SmbiosCli| c.system_serial);
                lemma_field_joins(merged.system_sku, arg, rest, |c: SmbiosCli| c.system_sku);
                lemma_field_joins(merged.system_family, arg, rest, |c: SmbiosCli| c.system_family);
                lemma_field_joins(merged.system_uuid, arg, rest, |c: SmbiosCli| c.system_uuid);
                lemma_clash(merged, arg, rest);
                lemma_no_clash(arg, rest);
            }
            merged = SmbiosCli {
                bios_vendor: first_set(merged.bios_vendor, arg.bios_vendor),
                bios_version: first_set(merged.bios_version, arg.bios_version),
                bios_release_date: first_set(merged.bios_release_date, arg.bios_release_date),
                bios_release: first_set(merged.bios_release, arg.bios_release),
                system_manufacturer: first_set(merged.system_manufacturer, arg.system_manufacturer),
                system_product: first_set(merged.system_product, arg.system_product),
                system_version: first_set(merged.system_version, arg.system_version),
                system_serial: first_set(merged.system_serial, arg.system_serial),
                system_sku: first_set(merged.system_sku, arg.system_sku),
                system_family: first_set(merged.system_family, arg.system_family),
                system_uuid: first_set(merged.system_uuid, arg.system_uuid),
            };
        }
    }
    assert(all.skip(0) =~= all);
    Ok(merged)
}

/// What is merged sets a field that an argument sets exactly where one of the
/// merged arguments does.
proof fn lemma_clash(merged: SmbiosCli, arg: SmbiosCli, rest: Seq<SmbiosCli>)
    requires
        is_merged(merged, rest),
    ensures
        fields_clash(merged, arg) <==> exists|k: int|
            0 <= k < rest.len() && fields_clash(#[trigger] rest[k], arg),
{
}

/// An argument that shares no field with the others does not make one set twice.
proof fn lemma_no_clash(arg: SmbiosCli, rest: Seq<SmbiosCli>)
    requires
        !set_twice(rest),
        forall|k: int| 0 <= k < rest.len() ==> !fields_clash(#[trigger] rest[k], arg),
    ensures
        !set_twice(seq![arg] + rest),
{
    let all = seq![arg] + rest;
    assert forall|i: int, j: int| 0 <= i < j < all.len() implies !fields_clash(
        #[trigger] all[i],
        #[trigger] all[j],
    ) by {
        assert(all[j] == rest[j - 1]);
        if i > 0 {
            assert(all[i] == rest[i - 1]);
        }
    }
}

/// The identity holds what the arguments set, with a fresh identifier at hand. The
/// system identifier is all zeroes unless they set it.
pub open spec fn is_smbios_config(
    config: SmbiosConfig,
    args: Seq<SmbiosCli>,
    fresh: Guid,
) -> bool {
    &&& is_set_by(config.bios.vendor, args, |c: SmbiosCli| c.bios_vendor)
    &&& is_set_by(config.bios.version, args, |c: SmbiosCli| c.bios_version)
    &&& is_set_by(config.bios.release_date, args, |c: SmbiosCli| c.bios_release_date)
    &&& is_set_by(config.bios.release, args, |c: SmbiosCli| c.bios_release)
    &&& is_set_by(config.system.manufacturer, args, |c: SmbiosCli| c.system_manufacturer)
    &&& is_set_by(config.system.product_name, args, |c: SmbiosCli| c.system_product)
    &&& is_set_by(config.system.version, args, |c: SmbiosCli| c.system_version)
    &&& is_set_by(config.system.serial_number, args, |c: SmbiosCli| c.system_serial)
    &&& is_set_by(config.system.sku_number, args, |c: SmbiosCli| c.system_sku)
    &&& is_set_by(config.system.family, args, |c: SmbiosCli| c.system_family)
    &&& forall|i: int|
        0 <= i < args.len() && (#[trigger] args[i]).system_uuid is Some ==> config.system.uuid == (
        match args[i].system_uuid->0 {
            SmbiosUuid::Random => fresh,
            SmbiosUuid::Fixed(guid) => guid,
        })
    &&& (forall|i: int| 0 <= i < args.len() ==> (#[trigger] args[i]).system_uuid is None)
        ==> is_zero_guid(config.system.uuid)
}

/// Builds the SMBIOS identity that the arguments describe, merged. A field that is
/// set twice is refused.
pub fn smbios_config_from_cli(args: Vec<SmbiosCli>, fresh: Guid) -> (r: Result<
    SmbiosConfig,
    Refusal,
>)
    ensures
        refusal_of(r) == smbios_refusal(args@),
        r is Ok ==> is_smbios_config(r->Ok_0, args@, fresh),
{
    let cli = match merge_smbios(args) {
        Ok(cli) => cli,
        Err(e) => return Err(e),
    };
    let uuid = match cli.system_uuid {
        None => zero_guid(),
        Some(SmbiosUuid::Random) => fresh,
        Some(SmbiosUuid::Fixed(guid)) => guid,
    };
    Ok(
        SmbiosConfig {
            bios: SmbiosBiosOverrides {
                vendor: cli.bios_vendor,
                version: cli.bios_version,
                release_date: cli.bios_release_date,
                release: cli.bios_release,
            },
            system: SmbiosSystemOverrides {
                manufacturer: cli.system_manufacturer,
                product_name: cli.system_product,
                version: cli.system_version,
                serial_number: cli.system_serial,
                sku_number: cli.system_sku,
                family: cli.system_family,
                uuid,
            },
        },
    )
}

/// A copy of an identity.
pub fn copy_smbios(config: &SmbiosConfig) -> (r: SmbiosConfig)
    ensures
        r == *config,
{
    SmbiosConfig {
        bios: SmbiosBiosOverrides {
            vendor: copy_optional(&config.bios.vendor),
            version: copy_optional(&config.bios.version),
            release_date: copy_optional(&config.bios.release_date),
            release: config.bios.release,
        },
        system: SmbiosSystemOverrides {
            manufacturer: copy_optional(&config.system.manufacturer),
            product_name: copy_optional(&config.system.product_name),
            version: copy_optional(&config.system.version),
            serial_number: copy_optional(&config.system.serial_number),
            sku_number: copy_optional(&config.system.sku_number),
            family: copy_optional(&config.system.family),
            uuid: config.system.uuid,
        },
    }
}

/// No override but the identifier of the machine.
pub open spec fn is_plain_smbios(config: SmbiosConfig, uuid: Guid) -> bool {
    &&& config.bios.vendor is None && config.bios.version is None
    &&& config.bios.release_date is None && config.bios.release is None
    &&& config.system.manufacturer is None && config.system.product_name is None
    &&& config.system.version is None && config.system.serial_number is None
    &&& config.system.sku_number is None && config.system.family is None
    &&& config.system.uuid == uuid
}

/// The identity without overrides, for a machine with this identifier.
pub fn plain_smbios(uuid: Guid) -> (config: SmbiosConfig)
    ensures
        is_plain_smbios(config, uuid),
{
    SmbiosConfig {
        bios: SmbiosBiosOverrides {
            vendor: None,
            version: None,
            release_date: None,
            release: None,
        },
        system: SmbiosSystemOverrides {
            manufacturer: None,
            product_name: None,
            version: None,
            serial_number: None,
            sku_number: None,
            family: None,
            uuid,
        },
    }
}

} // verus!
