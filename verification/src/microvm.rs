//! The microVM machine contract: its command line, its fixed device slots, and
//! the validation of a whole machine configuration against it.

use vstd::prelude::*;

use crate::config::{Config, DeviceResource, HostOs, LoadMode, VirtioBus};
use crate::numeral::{decimal, prefixed_hex, push_decimal, push_prefixed_hex};
use crate::refusal::{refusal_of, refuse, refuse_quoting, text_view, Refusal};
use crate::text::{
    byte_len, contains_char, has_prefix, list_has_prefix, list_starts_with, push_text, same_text,
    same_texts, select_prefix, split_words, starts_with, string_views, text_byte_len, with_prefix,
    words,
};

verus! {

/// Fixed microVM virtio-net interrupt on KVM and MSHV.
pub const MICROVM_VIRTIO_NET_KVM_IRQ: u32 = 10;

/// Fixed microVM virtio-net interrupt on WHP.
pub const MICROVM_VIRTIO_NET_WHP_IRQ: u32 = 5;

/// Portable microVM network feature mask: the device address and the modern
/// device interface.
pub const MICROVM_VIRTIO_NET_FEATURES: u64 = 0x1_0000_0020;

/// The initial microVM guest ABI version.
pub const MICROVM_ABI_VERSION_1: u32 = 1;

/// ABI-v1 command line owned by the microVM profile.
pub const MICROVM_BASE_COMMAND_LINE: &'static str = "earlycon=xe9 console=hvc0 reboot=t panic=-1";

/// Command line when the microVM virtio console is present.
pub const MICROVM_CONSOLE_COMMAND_LINE: &'static str =
    "earlycon=xe9 console=hvc1 reboot=t panic=-1";

/// Fixed microVM console interrupt.
pub const MICROVM_VIRTIO_CONSOLE_IRQ: u32 = 7;

/// Bounded reconnect timeout for a microVM console client.
pub const MICROVM_CONSOLE_RECONNECT_TIMEOUT_MS: u64 = 5_000;

/// Maximum ABI-v1 command-line size, including its trailing NUL.
pub const MICROVM_COMMAND_LINE_MAX_SIZE: usize = 65536;

/// Fixed ABI-v1 virtio-blk MMIO base.
pub const MICROVM_VIRTIO_BLK_MMIO_BASE: u64 = 0xd000_3000;

/// Reserved ABI-v1 virtio-net MMIO base.
pub const MICROVM_VIRTIO_NET_MMIO_BASE: u64 = 0xd000_0000;

/// Reserved ABI-v1 virtio-fs MMIO base.
pub const MICROVM_VIRTIO_FS_MMIO_BASE: u64 = 0xd000_1000;

/// Reserved ABI-v1 virtio-console MMIO base.
pub const MICROVM_VIRTIO_CONSOLE_MMIO_BASE: u64 = 0xd000_2000;

/// Fixed ABI-v1 virtio transport window length.
pub const MICROVM_VIRTIO_MMIO_LEN: u64 = 0x1000;

/// Fixed ABI-v1 virtio-blk interrupt.
pub const MICROVM_VIRTIO_BLK_IRQ: u32 = 4;

/// ABI-v1 virtio MMIO reservations in stable device order.
pub open spec fn mmio_bases() -> Seq<u64> {
    seq![
        MICROVM_VIRTIO_NET_MMIO_BASE,
        MICROVM_VIRTIO_FS_MMIO_BASE,
        MICROVM_VIRTIO_CONSOLE_MMIO_BASE,
        MICROVM_VIRTIO_BLK_MMIO_BASE,
    ]
}

/// ABI-v1 virtio MMIO reservations in stable device order.
pub fn microvm_virtio_mmio_bases() -> (bases: [u64; 4])
    ensures
        bases@ == mmio_bases(),
{
    let bases: [u64; 4] = [
        MICROVM_VIRTIO_NET_MMIO_BASE,
        MICROVM_VIRTIO_FS_MMIO_BASE,
        MICROVM_VIRTIO_CONSOLE_MMIO_BASE,
        MICROVM_VIRTIO_BLK_MMIO_BASE,
    ];
    assert(bases@ =~= mmio_bases());
    bases
}

/// The pinned virtio-net interrupt of a backend, or the text of the refusal.
pub open spec fn net_irq(hypervisor: Option<Seq<char>>, host: HostOs) -> Result<nat, Seq<char>> {
    match hypervisor {
        Some(id) => if id == "kvm"@ || id == "mshv"@ {
            Ok(MICROVM_VIRTIO_NET_KVM_IRQ as nat)
        } else if id == "whp"@ {
            Ok(MICROVM_VIRTIO_NET_WHP_IRQ as nat)
        } else {
            Err("microVM virtio-net does not support hypervisor '"@ + id + "'"@)
        },
        None => match host {
            HostOs::Linux => Ok(MICROVM_VIRTIO_NET_KVM_IRQ as nat),
            HostOs::Windows => Ok(MICROVM_VIRTIO_NET_WHP_IRQ as nat),
            _ => Err("microVM virtio-net requires an explicit KVM, MSHV, or WHP hypervisor"@),
        },
    }
}

/// Returns the pinned virtio-net IRQ for the selected microVM backend. Where no
/// backend is named, the host's own one is meant.
pub fn microvm_virtio_net_irq(hypervisor_id: Option<&str>, host: HostOs) -> (r: Result<
    u32,
    Refusal,
>)
    ensures
        match r {
            Ok(irq) => net_irq(text_view(hypervisor_id), host) == Ok::<nat, Seq<char>>(irq as nat),
            Err(e) => net_irq(text_view(hypervisor_id), host) == Err::<nat, Seq<char>>(e@),
        },
{
    match hypervisor_id {
        Some(id) => {
            if same_text(id, "kvm") || same_text(id, "mshv") {
                Ok(MICROVM_VIRTIO_NET_KVM_IRQ)
            } else if same_text(id, "whp") {
                Ok(MICROVM_VIRTIO_NET_WHP_IRQ)
            } else {
                Err(refuse_quoting("microVM virtio-net does not support hypervisor '", id, "'"))
            }
        },
        None => match host {
            HostOs::Linux => Ok(MICROVM_VIRTIO_NET_KVM_IRQ),
            HostOs::Windows => Ok(MICROVM_VIRTIO_NET_WHP_IRQ),
            _ => Err(
                refuse("microVM virtio-net requires an explicit KVM, MSHV, or WHP hypervisor"),
            ),
        },
    }
}

/// A list of reservations fits the fixed aperture and does not overlap.
pub open spec fn reservations_fit(bases: Seq<u64>, len: nat) -> bool {
    forall|i: int|
        0 <= i < bases.len() ==> {
            &&& 0xc000_0000 <= #[trigger] bases[i]
            &&& bases[i] + len <= 0x1_0000_0000
            &&& i + 1 < bases.len() ==> bases[i] + len <= bases[i + 1]
        }
}

/// The first refusal among the reservations from index `from` on.
pub open spec fn reservation_refusal(bases: Seq<u64>, len: nat, from: int) -> Option<Seq<char>>
    decreases bases.len() - from,
{
    if from < 0 || from >= bases.len() {
        None
    } else if bases[from] + len > u64::MAX {
        Some("microVM virtio MMIO reservation overflows"@)
    } else if bases[from] < 0xc000_0000 || bases[from] + len > 0x1_0000_0000 {
        Some(
            "microVM virtio MMIO reservation "@ + decimal(from as nat)
                + " is outside the fixed aperture"@,
        )
    } else if from + 1 < bases.len() && bases[from] + len > bases[from + 1] {
        Some("microVM virtio MMIO reservations overlap"@)
    } else {
        reservation_refusal(bases, len, from + 1)
    }
}

/// Holds a list of reservations against the fixed aperture, in order.
pub fn validate_reservations(bases: &[u64], len: u64) -> (r: Result<(), Refusal>)
    ensures
        r is Ok <==> reservations_fit(bases@, len as nat),
        refusal_of(r) == reservation_refusal(bases@, len as nat, 0),
{
    let mut i: usize = 0;
    while i < bases.len()
        invariant
            i <= bases@.len(),
            reservation_refusal(bases@, len as nat, 0) == reservation_refusal(
                bases@,
                len as nat,
                i as int,
            ),
            forall|k: int|
                0 <= k < i ==> {
                    &&& 0xc000_0000 <= #[trigger] bases@[k]
                    &&& bases@[k] + len <= 0x1_0000_0000
                    &&& k + 1 < bases@.len() ==> bases@[k] + len <= bases@[k + 1]
                },
        decreases bases@.len() - i,
    {
        let base: u64 = bases[i];
        let end: u64 = match base.checked_add(len) {
            Some(end) => end,
            None => return Err(refuse("microVM virtio MMIO reservation overflows")),
        };
        if base < 0xc000_0000 || end > 0x1_0000_0000 {
            let mut index = String::new();
            push_decimal(&mut index, i as u128);
            assert(index@ =~= decimal(i as nat));
            return Err(
                refuse_quoting(
                    "microVM virtio MMIO reservation ",
                    index.as_str(),
                    " is outside the fixed aperture",
                ),
            );
        }
        if i + 1 < bases.len() && end > bases[i + 1] {
            return Err(refuse("microVM virtio MMIO reservations overlap"));
        }
        i += 1;
    }
    Ok(())
}

/// Validates the fixed reservations. They always hold.
pub fn validate_microvm_virtio_reservations() -> (r: Result<(), Refusal>)
    ensures
        r is Ok,
{
    proof {
        law_reservations_fit();
    }
    let bases = microvm_virtio_mmio_bases();
    validate_reservations(bases.as_slice(), MICROVM_VIRTIO_MMIO_LEN)
}

/// The fixed virtio windows are disjoint, in order, and inside the aperture.
pub proof fn law_reservations_fit()
    ensures
        reservations_fit(mmio_bases(), MICROVM_VIRTIO_MMIO_LEN as nat),
        forall|i: int, j: int|
            0 <= i < j < 4 ==> #[trigger] mmio_bases()[i] + MICROVM_VIRTIO_MMIO_LEN
                <= #[trigger] mmio_bases()[j],
{
}

/// The kernel token that announces a virtio device.
pub open spec fn discovery_token(base: nat, irq: nat) -> Seq<char> {
    "virtio_mmio.device="@ + prefixed_hex(MICROVM_VIRTIO_MMIO_LEN as nat) + "@"@ + prefixed_hex(
        base,
    ) + ":"@ + decimal(irq)
}

fn make_discovery_token(base: u64, irq: u32) -> (s: String)
    ensures
        s@ == discovery_token(base as nat, irq as nat),
{
    let mut s = String::new();
    push_text(&mut s, "virtio_mmio.device=");
    push_prefixed_hex(&mut s, MICROVM_VIRTIO_MMIO_LEN as u128);
    push_text(&mut s, "@");
    push_prefixed_hex(&mut s, base as u128);
    push_text(&mut s, ":");
    push_decimal(&mut s, irq as u128);
    assert(s@ =~= discovery_token(base as nat, irq as nat));
    s
}

/// The command line with the fixed virtio-blk token behind it.
pub open spec fn blk_discovered(cmdline: Seq<char>) -> Seq<char> {
    cmdline + seq![' '] + discovery_token(
        MICROVM_VIRTIO_BLK_MMIO_BASE as nat,
        MICROVM_VIRTIO_BLK_IRQ as nat,
    )
}

/// Appends the fixed ABI-v1 virtio-blk discovery token. A command line that
/// already announces a device is refused and left alone; one that grows too long
/// is refused with the token on it.
pub fn append_microvm_virtio_blk_discovery(cmdline: &mut String) -> (r: Result<(), Refusal>)
    ensures
        ({
            let announced = with_prefix(words(old(cmdline)@), "virtio_mmio.device="@).len() > 0;
            let fits = byte_len(blk_discovered(old(cmdline)@)) < MICROVM_COMMAND_LINE_MAX_SIZE;
            &&& final(cmdline)@ == if announced {
                old(cmdline)@
            } else {
                blk_discovered(old(cmdline)@)
            }
            &&& refusal_of(r) == if announced {
                Some("microVM command line already contains virtio-mmio discovery"@)
            } else if !fits {
                Some(
                    "microVM kernel command line exceeds the 64-KiB ABI limit after device discovery"@,
                )
            } else {
                None
            }
        }),
{
    let tokens = split_words(cmdline.as_str());
    let announced = select_prefix(&tokens, "virtio_mmio.device=");
    assert(string_views(announced@).len() == announced@.len());
    if announced.len() > 0 {
        return Err(refuse("microVM command line already contains virtio-mmio discovery"));
    }
    cmdline.push(' ');
    let token = make_discovery_token(MICROVM_VIRTIO_BLK_MMIO_BASE, MICROVM_VIRTIO_BLK_IRQ);
    push_text(cmdline, token.as_str());
    assert(cmdline@ =~= blk_discovered(old(cmdline)@));
    if text_byte_len(cmdline.as_str()) >= MICROVM_COMMAND_LINE_MAX_SIZE {
        return Err(
            refuse(
                "microVM kernel command line exceeds the 64-KiB ABI limit after device discovery",
            ),
        );
    }
    Ok(())
}

/// The fixed window and interrupt of a virtio device kind, or the text of the
/// refusal.
pub open spec fn device_slot(
    id: Seq<char>,
    hypervisor: Option<Seq<char>>,
    host: HostOs,
) -> Result<(nat, nat), Seq<char>> {
    if id == "virtio-net"@ {
        match net_irq(hypervisor, host) {
            Ok(irq) => Ok((MICROVM_VIRTIO_NET_MMIO_BASE as nat, irq)),
            Err(text) => Err(text),
        }
    } else if id == "virtio-console"@ {
        Ok((MICROVM_VIRTIO_CONSOLE_MMIO_BASE as nat, MICROVM_VIRTIO_CONSOLE_IRQ as nat))
    } else if id == "virtio-blk"@ {
        Ok((MICROVM_VIRTIO_BLK_MMIO_BASE as nat, MICROVM_VIRTIO_BLK_IRQ as nat))
    } else {
        Err("unsupported microVM virtio device '"@ + id + "'"@)
    }
}

fn find_device_slot(id: &str, hypervisor_id: Option<&str>, host: HostOs) -> (r: Result<
    (u64, u32),
    Refusal,
>)
    ensures
        match r {
            Ok(slot) => device_slot(id@, text_view(hypervisor_id), host) == Ok::<
                (nat, nat),
                Seq<char>,
            >((slot.0 as nat, slot.1 as nat)),
            Err(e) => device_slot(id@, text_view(hypervisor_id), host) == Err::<
                (nat, nat),
                Seq<char>,
            >(e@),
        },
{
    if same_text(id, "virtio-net") {
        match microvm_virtio_net_irq(hypervisor_id, host) {
            Ok(irq) => Ok((MICROVM_VIRTIO_NET_MMIO_BASE, irq)),
            Err(e) => Err(e),
        }
    } else if same_text(id, "virtio-console") {
        Ok((MICROVM_VIRTIO_CONSOLE_MMIO_BASE, MICROVM_VIRTIO_CONSOLE_IRQ))
    } else if same_text(id, "virtio-blk") {
        Ok((MICROVM_VIRTIO_BLK_MMIO_BASE, MICROVM_VIRTIO_BLK_IRQ))
    } else {
        Err(refuse_quoting("unsupported microVM virtio device '", id, "'"))
    }
}

/// The kinds of a list of devices.
pub open spec fn device_ids(devices: Seq<(VirtioBus, DeviceResource)>) -> Seq<Seq<char>> {
    devices.map_values(|d: (VirtioBus, DeviceResource)| d.1.id@)
}

/// The first refusal among the slots of a list of devices.
pub open spec fn slot_refusal(
    ids: Seq<Seq<char>>,
    hypervisor: Option<Seq<char>>,
    host: HostOs,
) -> Option<Seq<char>>
    decreases ids.len(),
{
    if ids.len() == 0 {
        None
    } else {
        match slot_refusal(ids.drop_last(), hypervisor, host) {
            Some(text) => Some(text),
            None => match device_slot(ids.last(), hypervisor, host) {
                Ok(_) => None,
                Err(text) => Some(text),
            },
        }
    }
}

/// The discovery tokens of the devices before the first one without a slot.
pub open spec fn discovery_tokens(
    ids: Seq<Seq<char>>,
    hypervisor: Option<Seq<char>>,
    host: HostOs,
) -> Seq<Seq<char>>
    decreases ids.len(),
{
    if ids.len() == 0 {
        Seq::empty()
    } else {
        let front = discovery_tokens(ids.drop_last(), hypervisor, host);
        if slot_refusal(ids, hypervisor, host) is Some {
            front
        } else {
            let slot = device_slot(ids.last(), hypervisor, host)->Ok_0;
            front.push(discovery_token(slot.0, slot.1))
        }
    }
}

/// A list of tokens, each behind a blank.
pub open spec fn blank_joined(tokens: Seq<Seq<char>>) -> Seq<char>
    decreases tokens.len(),
{
    if tokens.len() == 0 {
        Seq::empty()
    } else {
        blank_joined(tokens.drop_last()) + seq![' '] + tokens.last()
    }
}

/// The tokens of the devices up to an early refusal are the tokens of all.
proof fn lemma_refusal_persists(
    ids: Seq<Seq<char>>,
    k: int,
    hypervisor: Option<Seq<char>>,
    host: HostOs,
)
    requires
        0 <= k <= ids.len(),
        slot_refusal(ids.take(k), hypervisor, host) is Some,
    ensures
        slot_refusal(ids, hypervisor, host) == slot_refusal(ids.take(k), hypervisor, host),
        discovery_tokens(ids, hypervisor, host) == discovery_tokens(ids.take(k), hypervisor, host),
    decreases ids.len(),
{
    if k == ids.len() {
        assert(ids.take(k) =~= ids);
    } else {
        assert(ids.drop_last().take(k) =~= ids.take(k));
        lemma_refusal_persists(ids.drop_last(), k, hypervisor, host);
    }
}

/// Makes the discovery tokens of a list of devices.
fn make_discovery_tokens(
    devices: &Vec<(VirtioBus, DeviceResource)>,
    hypervisor_id: Option<&str>,
    host: HostOs,
) -> (r: (Vec<String>, Option<Refusal>))
    ensures
        string_views(r.0@) == discovery_tokens(
            device_ids(devices@),
            text_view(hypervisor_id),
            host,
        ),
        match r.1 {
            Some(e) => slot_refusal(device_ids(devices@), text_view(hypervisor_id), host) == Some(
                e@,
            ),
            None => slot_refusal(device_ids(devices@), text_view(hypervisor_id), host) is None,
        },
{
    let ghost ids = device_ids(devices@);
    let ghost hv = text_view(hypervisor_id);
    let mut out: Vec<String> = Vec::new();
    let mut i: usize = 0;
    assert(string_views(out@) =~= discovery_tokens(ids.take(0), hv, host));
    while i < devices.len()
        invariant
            i <= devices@.len(),
            ids == device_ids(devices@),
            hv == text_view(hypervisor_id),
            slot_refusal(ids.take(i as int), hv, host) is None,
            string_views(out@) == discovery_tokens(ids.take(i as int), hv, host),
        decreases devices@.len() - i,
    {
        let ghost upto = ids.take(i + 1);
        proof {
            assert(upto.drop_last() =~= ids.take(i as int));
            assert(upto.last() == devices@[i as int].1.id@);
        }
        match find_device_slot(devices[i].1.id.as_str(), hypervisor_id, host) {
            Ok(slot) => {
                let token = make_discovery_token(slot.0, slot.1);
                let ghost before = string_views(out@);
                let ghost text = token@;
                out.push(token);
                assert(string_views(out@) =~= before.push(text));
            },
            Err(e) => {
                proof {
                    lemma_refusal_persists(ids, i + 1, hv, host);
                }
                return (out, Some(e));
            },
        }
        i += 1;
    }
    assert(ids.take(i as int) =~= ids);
    (out, None)
}

/// The command line of a load mode that has one for direct PVH boot.
pub open spec fn pvh_command_line(mode: LoadMode) -> Option<Seq<char>> {
    match mode {
        LoadMode::Pvh { cmdline, .. } => Some(cmdline@),
        _ => None,
    }
}

/// The base command line of a machine, by whether it has a virtio console.
pub open spec fn base_command_line(console: bool) -> Seq<char> {
    if console {
        MICROVM_CONSOLE_COMMAND_LINE@
    } else {
        MICROVM_BASE_COMMAND_LINE@
    }
}

/// Why a microVM command line is refused, if it is.
pub open spec fn command_line_refusal(
    cmdline: Option<Seq<char>>,
    ids: Seq<Seq<char>>,
    hypervisor: Option<Seq<char>>,
    host: HostOs,
) -> Option<Seq<char>> {
    match cmdline {
        None => Some("microVM ABI version 1 requires PVH load mode"@),
        Some(line) => {
            let ws = words(line);
            if line.contains('\0') {
                Some("microVM command line contains an embedded NUL"@)
            } else if byte_len(line) >= MICROVM_COMMAND_LINE_MAX_SIZE {
                Some("microVM command line exceeds the 64-KiB ABI limit"@)
            } else if !list_has_prefix(
                ws,
                words(base_command_line(ids.contains("virtio-console"@))),
            ) {
                Some("microVM command line does not begin with the ABI-v1 base tokens"@)
            } else if with_prefix(ws, "earlycon="@).len() != 1 {
                Some("microVM command line has an invalid number of earlycon= tokens"@)
            } else if with_prefix(ws, "console="@).len() != 1 {
                Some("microVM command line has an invalid number of console= tokens"@)
            } else if with_prefix(ws, "virtio_mmio.device="@).len() != ids.len() {
                Some("microVM command line has an invalid number of virtio_mmio.device= tokens"@)
            } else if slot_refusal(ids, hypervisor, host) is Some {
                slot_refusal(ids, hypervisor, host)
            } else if with_prefix(ws, "virtio_mmio.device="@) != discovery_tokens(
                ids,
                hypervisor,
                host,
            ) {
                Some("microVM virtio discovery is not canonical"@)
            } else {
                None
            }
        },
    }
}

fn has_device(devices: &Vec<(VirtioBus, DeviceResource)>, id: &str) -> (b: bool)
    ensures
        b == device_ids(devices@).contains(id@),
{
    let ghost ids = device_ids(devices@);
    let mut i: usize = 0;
    while i < devices.len()
        invariant
            i <= devices@.len(),
            ids == device_ids(devices@),
            forall|k: int| 0 <= k < i ==> #[trigger] ids[k] != id@,
        decreases devices@.len() - i,
    {
        if same_text(devices[i].1.id.as_str(), id) {
            assert(ids[i as int] == id@);
            return true;
        }
        i += 1;
    }
    false
}

/// Validates the command line of a microVM.
pub fn validate_microvm_command_line(
    config: &Config,
    hypervisor_id: Option<&str>,
    host: HostOs,
) -> (r: Result<(), Refusal>)
    ensures
        refusal_of(r) == command_line_refusal(
            pvh_command_line(config.load_mode),
            device_ids(config.virtio_devices@),
            text_view(hypervisor_id),
            host,
        ),
{
    let cmdline = match &config.load_mode {
        LoadMode::Pvh { cmdline, .. } => cmdline,
        _ => return Err(refuse("microVM ABI version 1 requires PVH load mode")),
    };
    if contains_char(cmdline.as_str(), '\0') {
        return Err(refuse("microVM command line contains an embedded NUL"));
    }
    if text_byte_len(cmdline.as_str()) >= MICROVM_COMMAND_LINE_MAX_SIZE {
        return Err(refuse("microVM command line exceeds the 64-KiB ABI limit"));
    }
    let tokens = split_words(cmdline.as_str());
    let base = if has_device(&config.virtio_devices, "virtio-console") {
        MICROVM_CONSOLE_COMMAND_LINE
    } else {
        MICROVM_BASE_COMMAND_LINE
    };
    let base_tokens = split_words(base);
    if !list_starts_with(&tokens, &base_tokens) {
        return Err(refuse("microVM command line does not begin with the ABI-v1 base tokens"));
    }
    let earlycon = select_prefix(&tokens, "earlycon=");
    assert(string_views(earlycon@).len() == earlycon@.len());
    if earlycon.len() != 1 {
        return Err(
            refuse("microVM command line has an invalid number of earlycon= tokens"),
        );
    }
    let console = select_prefix(&tokens, "console=");
    assert(string_views(console@).len() == console@.len());
    if console.len() != 1 {
        return Err(refuse("microVM command line has an invalid number of console= tokens"));
    }
    let actual = select_prefix(&tokens, "virtio_mmio.device=");
    assert(string_views(actual@).len() == actual@.len());
    if actual.len() != config.virtio_devices.len() {
        return Err(
            refuse("microVM command line has an invalid number of virtio_mmio.device= tokens"),
        );
    }
    let (expected, refused) = make_discovery_tokens(&config.virtio_devices, hypervisor_id, host);
    if let Some(e) = refused {
        return Err(e);
    }
    if !same_texts(&actual, &expected) {
        return Err(refuse("microVM virtio discovery is not canonical"));
    }
    Ok(())
}

/// The token is one that only the machine profile may place.
pub open spec fn is_reserved_token(token: Seq<char>) -> bool {
    ||| has_prefix(token, "earlycon="@)
    ||| has_prefix(token, "console="@)
    ||| has_prefix(token, "virtio_mmio.device="@)
    ||| has_prefix(token, "virtnet_ip="@)
    ||| has_prefix(token, "virtnet_mask="@)
    ||| has_prefix(token, "virtnet_gw="@)
    ||| has_prefix(token, "virtnet_dns="@)
}

pub open spec fn has_reserved_token(arg: Seq<char>) -> bool {
    exists|i: int| 0 <= i < words(arg).len() && is_reserved_token(#[trigger] words(arg)[i])
}

/// The first refusal among the arguments of the user.
pub open spec fn user_args_refusal(args: Seq<Seq<char>>) -> Option<Seq<char>>
    decreases args.len(),
{
    if args.len() == 0 {
        None
    } else if user_args_refusal(args.drop_last()) is Some {
        user_args_refusal(args.drop_last())
    } else if args.last().contains('\0') {
        Some("microVM kernel command line contains an embedded NUL"@)
    } else if has_reserved_token(args.last()) {
        Some(
            "microVM kernel command line cannot override earlycon, console, or virtio-mmio discovery"@,
        )
    } else {
        None
    }
}

/// The nonempty members of a list.
pub open spec fn nonempty(args: Seq<Seq<char>>) -> Seq<Seq<char>>
    decreases args.len(),
{
    if args.len() == 0 {
        Seq::empty()
    } else if args.last().len() == 0 {
        nonempty(args.drop_last())
    } else {
        nonempty(args.drop_last()).push(args.last())
    }
}

/// The profile's tokens, by whether the machine has a virtio console, and then
/// the nonempty arguments of the user.
pub open spec fn command_line_on(console: bool, args: Seq<Seq<char>>) -> Seq<char> {
    base_command_line(console) + blank_joined(nonempty(args))
}

/// The profile's tokens and then the nonempty arguments of the user.
pub open spec fn built_command_line(args: Seq<Seq<char>>) -> Seq<char> {
    command_line_on(false, args)
}

fn reserved_in(arg: &str) -> (b: bool)
    ensures
        b == has_reserved_token(arg@),
{
    let tokens = split_words(arg);
    let mut i: usize = 0;
    while i < tokens.len()
        invariant
            i <= tokens@.len(),
            string_views(tokens@) == words(arg@),
            forall|k: int| 0 <= k < i ==> !is_reserved_token(#[trigger] words(arg@)[k]),
        decreases tokens@.len() - i,
    {
        let token = tokens[i].as_str();
        assert(token@ == words(arg@)[i as int]);
        if starts_with(token, "earlycon=") || starts_with(token, "console=") || starts_with(
            token,
            "virtio_mmio.device=",
        ) || starts_with(token, "virtnet_ip=") || starts_with(token, "virtnet_mask=")
            || starts_with(token, "virtnet_gw=") || starts_with(token, "virtnet_dns=") {
            return true;
        }
        i += 1;
    }
    false
}

proof fn lemma_args_refusal_persists(args: Seq<Seq<char>>, k: int)
    requires
        0 <= k <= args.len(),
        user_args_refusal(args.take(k)) is Some,
    ensures
        user_args_refusal(args) == user_args_refusal(args.take(k)),
    decreases args.len(),
{
    if k == args.len() {
        assert(args.take(k) =~= args);
    } else {
        assert(args.drop_last().take(k) =~= args.take(k));
        lemma_args_refusal_persists(args.drop_last(), k);
    }
}

/// Builds the command line of a microVM with or without a virtio console and
/// rejects profile-owned user tokens.
pub fn build_console_command_line(user_args: &[String], console: bool) -> (r: Result<String, Refusal>)
    ensures
        ({
            let args = string_views(user_args@);
            match r {
                Ok(line) => {
                    &&& user_args_refusal(args) is None
                    &&& line@ == command_line_on(console, args)
                    &&& byte_len(line@) < MICROVM_COMMAND_LINE_MAX_SIZE
                },
                Err(e) => if user_args_refusal(args) is Some {
                    user_args_refusal(args) == Some(e@)
                } else {
                    &&& byte_len(command_line_on(console, args)) >= MICROVM_COMMAND_LINE_MAX_SIZE
                    &&& e@ == "microVM kernel command line exceeds the 64-KiB ABI limit"@
                },
            }
        }),
{
    let ghost args = string_views(user_args@);
    let mut i: usize = 0;
    while i < user_args.len()
        invariant
            i <= user_args@.len(),
            args == string_views(user_args@),
            user_args_refusal(args.take(i as int)) is None,
        decreases user_args@.len() - i,
    {
        let ghost upto = args.take(i + 1);
        proof {
            assert(upto.drop_last() =~= args.take(i as int));
            assert(upto.last() == user_args@[i as int]@);
        }
        if contains_char(user_args[i].as_str(), '\0') {
            proof {
                lemma_args_refusal_persists(args, i + 1);
            }
            return Err(refuse("microVM kernel command line contains an embedded NUL"));
        }
        if reserved_in(user_args[i].as_str()) {
            proof {
                lemma_args_refusal_persists(args, i + 1);
            }
            return Err(
                refuse(
                    "microVM kernel command line cannot override earlycon, console, or virtio-mmio discovery",
                ),
            );
        }
        i += 1;
    }
    assert(args.take(i as int) =~= args);
    let mut cmdline = if console {
        MICROVM_CONSOLE_COMMAND_LINE.to_owned()
    } else {
        MICROVM_BASE_COMMAND_LINE.to_owned()
    };
    let mut j: usize = 0;
    assert(cmdline@ =~= command_line_on(console, args.take(0)));
    while j < user_args.len()
        invariant
            j <= user_args@.len(),
            args == string_views(user_args@),
            cmdline@ == command_line_on(console, args.take(j as int)),
        decreases user_args@.len() - j,
    {
        let ghost upto = args.take(j + 1);
        proof {
            assert(upto.drop_last() =~= args.take(j as int));
            assert(upto.last() == user_args@[j as int]@);
        }
        if !user_args[j].as_str().is_empty() {
            cmdline.push(' ');
            push_text(&mut cmdline, user_args[j].as_str());
            proof {
                assert(nonempty(upto).drop_last() =~= nonempty(args.take(j as int)));
                assert(cmdline@ =~= command_line_on(console, upto));
            }
        }
        j += 1;
    }
    assert(args.take(j as int) =~= args);
    if text_byte_len(cmdline.as_str()) >= MICROVM_COMMAND_LINE_MAX_SIZE {
        return Err(refuse("microVM kernel command line exceeds the 64-KiB ABI limit"));
    }
    Ok(cmdline)
}

/// Builds the ABI-v1 microVM command line and rejects profile-owned user tokens.
pub fn build_microvm_command_line(user_args: &[String]) -> (r: Result<String, Refusal>)
    ensures
        ({
            let args = string_views(user_args@);
            match r {
                Ok(line) => {
                    &&& user_args_refusal(args) is None
                    &&& line@ == built_command_line(args)
                    &&& byte_len(line@) < MICROVM_COMMAND_LINE_MAX_SIZE
                },
                Err(e) => if user_args_refusal(args) is Some {
                    user_args_refusal(args) == Some(e@)
                } else {
                    &&& byte_len(built_command_line(args)) >= MICROVM_COMMAND_LINE_MAX_SIZE
                    &&& e@ == "microVM kernel command line exceeds the 64-KiB ABI limit"@
                },
            }
        }),
{
    build_console_command_line(user_args, false)
}

/// A command line with discovery tokens behind it.
pub open spec fn discovered(cmdline: Seq<char>, tokens: Seq<Seq<char>>) -> Seq<char> {
    cmdline + blank_joined(tokens)
}

/// The load mode is the same direct boot with another command line.
pub open spec fn same_pvh_with(before: LoadMode, after: LoadMode, cmdline: Seq<char>) -> bool {
    match (before, after) {
        (
            LoadMode::Pvh { kernel: k1, initrd: i1, .. },
            LoadMode::Pvh { kernel: k2, initrd: i2, cmdline: c2 },
        ) => k1 == k2 && i1 == i2 && c2@ == cmdline,
        _ => false,
    }
}

/// Appends canonical fixed-slot virtio discovery for a microVM. The tokens of
/// the devices before a refused one stay on the command line.
pub fn append_microvm_device_discovery(
    config: &mut Config,
    hypervisor_id: Option<&str>,
    host: HostOs,
) -> (r: Result<(), Refusal>)
    ensures
        ({
            let ids = device_ids(old(config).virtio_devices@);
            let hv = text_view(hypervisor_id);
            let before = pvh_command_line(old(config).load_mode);
            &&& *final(config) == (Config { load_mode: final(config).load_mode, ..*old(config) })
            &&& match before {
                None => final(config).load_mode == old(config).load_mode && refusal_of(r) == Some(
                    "microVM discovery requires PVH load mode"@,
                ),
                Some(line) => {
                    let after = discovered(line, discovery_tokens(ids, hv, host));
                    &&& same_pvh_with(old(config).load_mode, final(config).load_mode, after)
                    &&& refusal_of(r) == if slot_refusal(ids, hv, host) is Some {
                        slot_refusal(ids, hv, host)
                    } else if byte_len(after) >= MICROVM_COMMAND_LINE_MAX_SIZE {
                        Some("microVM command line exceeds the 64-KiB limit"@)
                    } else {
                        None
                    }
                },
            }
        }),
{
    let (tokens, refused) = make_discovery_tokens(&config.virtio_devices, hypervisor_id, host);
    let ghost all = string_views(tokens@);
    match &mut config.load_mode {
        LoadMode::Pvh { cmdline, .. } => {
            let mut line = cmdline.clone();
            let mut i: usize = 0;
            assert(line@ =~= discovered(cmdline@, all.take(0)));
            while i < tokens.len()
                invariant
                    i <= tokens@.len(),
                    all == string_views(tokens@),
                    line@ == discovered(cmdline@, all.take(i as int)),
                decreases tokens@.len() - i,
            {
                line.push(' ');
                push_text(&mut line, tokens[i].as_str());
                proof {
                    assert(all.take(i + 1).drop_last() =~= all.take(i as int));
                    assert(all.take(i + 1).last() == tokens@[i as int]@);
                    assert(line@ =~= discovered(cmdline@, all.take(i + 1)));
                }
                i += 1;
            }
            assert(all.take(i as int) =~= all);
            let too_long = text_byte_len(line.as_str()) >= MICROVM_COMMAND_LINE_MAX_SIZE;
            *cmdline = line;
            if let Some(e) = refused {
                return Err(e);
            }
            if too_long {
                return Err(refuse("microVM command line exceeds the 64-KiB limit"));
            }
            Ok(())
        },
        _ => Err(refuse("microVM discovery requires PVH load mode")),
    }
}

} // verus!
