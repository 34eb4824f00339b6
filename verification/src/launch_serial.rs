//! Which serial device of a launched machine gets the terminal.

use vstd::prelude::*;

use crate::console::{SerialConfigCli, SerialEndpoint};
use crate::config::GuestArch;
use crate::refusal::{refusal_of, refuse, refuse_naming, Refusal};

verus! {

/// The serial devices of a machine. What is absent is disconnected, but for the
/// first port, which is the terminal.
#[derive(Debug)]
pub struct SerialOptions {
    pub com1: Option<SerialConfigCli>,
    pub com2: Option<SerialConfigCli>,
    pub com3: Option<SerialConfigCli>,
    pub com4: Option<SerialConfigCli>,
    pub vmbus_com1: Option<SerialConfigCli>,
    pub vmbus_com2: Option<SerialConfigCli>,
    pub debugcon: Option<SerialConfigCli>,
    pub virtio_console: Option<SerialConfigCli>,
}

/// Any device that a microVM does not have is configured.
pub open spec fn has_legacy_serial(options: SerialOptions) -> bool {
    options.com1 is Some || options.com2 is Some || options.com3 is Some || options.com4 is Some
        || options.vmbus_com1 is Some || options.vmbus_com2 is Some || options.debugcon is Some
}

/// Refuses serial devices that a microVM does not have.
pub fn check_microvm_serial(options: &SerialOptions) -> (r: Result<(), Refusal>)
    ensures
        refusal_of(r) == (if has_legacy_serial(*options) {
            Some("microVM does not expose UART, debugcon, or VMBus serial"@)
        } else {
            None
        }),
{
    if options.com1.is_some() || options.com2.is_some() || options.com3.is_some()
        || options.com4.is_some() || options.vmbus_com1.is_some() || options.vmbus_com2.is_some()
        || options.debugcon.is_some() {
        return Err(refuse("microVM does not expose UART, debugcon, or VMBus serial"));
    }
    Ok(())
}

/// A device is configured to be the terminal.
pub open spec fn is_terminal(config: Option<SerialConfigCli>) -> bool {
    config is Some && config->0@ is Console
}

fn wants_terminal(config: &Option<SerialConfigCli>) -> (b: bool)
    ensures
        b == is_terminal(*config),
{
    match config {
        Some(SerialConfigCli::Console) => true,
        _ => false,
    }
}

/// The kernel's name for a serial port.
pub open spec fn port_device(arch: GuestArch, port: int) -> Seq<char> {
    match arch {
        GuestArch::X86_64 => if port == 0 {
            "ttyS0"@
        } else if port == 1 {
            "ttyS1"@
        } else if port == 2 {
            "ttyS2"@
        } else {
            "ttyS3"@
        },
        GuestArch::Aarch64 => if port == 0 {
            "ttyAMA0"@
        } else if port == 1 {
            "ttyAMA1"@
        } else if port == 2 {
            "ttyAMA2"@
        } else {
            "ttyAMA3"@
        },
    }
}

fn port_name(arch: GuestArch, port: u8) -> (s: &'static str)
    ensures
        s@ == port_device(arch, port as int),
{
    match arch {
        GuestArch::X86_64 => if port == 0 {
            "ttyS0"
        } else if port == 1 {
            "ttyS1"
        } else if port == 2 {
            "ttyS2"
        } else {
            "ttyS3"
        },
        GuestArch::Aarch64 => if port == 0 {
            "ttyAMA0"
        } else if port == 1 {
            "ttyAMA1"
        } else if port == 2 {
            "ttyAMA2"
        } else {
            "ttyAMA3"
        },
    }
}

/// The devices that are set up, in order, each with whether it is the terminal.
/// The port of a microVM writes to the diagnostic stream where its console has
/// the terminal.
pub open spec fn claims(options: SerialOptions, microvm: bool, arch: GuestArch) -> Seq<
    (Seq<char>, bool),
> {
    if microvm {
        seq![
            ("hvc0"@, !is_terminal(options.virtio_console)),
            ("hvc1"@, is_terminal(options.virtio_console)),
        ]
    } else {
        seq![
            (port_device(arch, 0), options.com1 is None || is_terminal(options.com1)),
            (port_device(arch, 1), is_terminal(options.com2)),
            (port_device(arch, 2), is_terminal(options.com3)),
            (port_device(arch, 3), is_terminal(options.com4)),
            ("vmbus_com1"@, is_terminal(options.vmbus_com1)),
            ("vmbus_com2"@, is_terminal(options.vmbus_com2)),
            ("debugcon"@, is_terminal(options.debugcon)),
            ("hvc0"@, is_terminal(options.virtio_console)),
        ]
    }
}

/// Who has the terminal once the first devices are set up, or the device that
/// had it when another asked for it.
pub open spec fn terminal(claims: Seq<(Seq<char>, bool)>) -> Result<Option<Seq<char>>, Seq<char>>
    decreases claims.len(),
{
    if claims.len() == 0 {
        Ok(None)
    } else {
        match terminal(claims.drop_last()) {
            Err(holder) => Err(holder),
            Ok(holder) => if !claims.last().1 {
                Ok(holder)
            } else if holder is Some {
                Err(holder->0)
            } else {
                Ok(Some(claims.last().0))
            },
        }
    }
}

fn claim(holder: Option<&'static str>, device: &'static str, wanted: bool) -> (r: Result<
    Option<&'static str>,
    Refusal,
>)
    ensures
        refusal_of(r) == (if wanted && holder is Some {
            Some("console already set by "@ + holder->0@)
        } else {
            None
        }),
        r is Ok ==> r->Ok_0 == (if wanted {
            Some(device)
        } else {
            holder
        }),
{
    if !wanted {
        return Ok(holder);
    }
    match holder {
        Some(holder) => Err(refuse_naming("console already set by ", holder)),
        None => Ok(Some(device)),
    }
}

/// The view of a holder.
pub open spec fn holder_view(holder: Option<&'static str>) -> Option<Seq<char>> {
    match holder {
        Some(s) => Some(s@),
        None => None,
    }
}

proof fn lemma_terminal_step(prefix: Seq<(Seq<char>, bool)>, next: (Seq<char>, bool))
    ensures
        terminal(prefix.push(next)) == (match terminal(prefix) {
            Err(holder) => Err(holder),
            Ok(holder) => if !next.1 {
                Ok(holder)
            } else if holder is Some {
                Err(holder->0)
            } else {
                Ok(Some(next.0))
            },
        }),
{
    assert(prefix.push(next).drop_last() =~= prefix);
}

proof fn lemma_terminal_fails(prefix: Seq<(Seq<char>, bool)>, whole: Seq<(Seq<char>, bool)>)
    requires
        prefix.len() <= whole.len(),
        prefix == whole.take(prefix.len() as int),
        terminal(prefix) is Err,
    ensures
        terminal(whole) == terminal(prefix),
    decreases whole.len(),
{
    if prefix.len() == whole.len() {
        assert(prefix =~= whole);
    } else {
        assert(prefix =~= whole.drop_last().take(prefix.len() as int));
        lemma_terminal_fails(prefix, whole.drop_last());
    }
}

/// Gives the terminal to the one device that is configured for it.
pub fn assign_terminal(options: &SerialOptions, microvm: bool, arch: GuestArch) -> (r: Result<
    Option<&'static str>,
    Refusal,
>)
    ensures
        match terminal(claims(*options, microvm, arch)) {
            Err(holder) => refusal_of(r) == Some("console already set by "@ + holder),
            Ok(holder) => r is Ok && holder_view(r->Ok_0) == holder,
        },
{
    let console = wants_terminal(&options.virtio_console);
    let ghost all = claims(*options, microvm, arch);
    if microvm {
        proof {
            reveal_with_fuel(terminal, 3);
            assert(all.drop_last() =~= seq![all[0]]);
            assert(all.drop_last().drop_last() =~= Seq::empty());
        }
        if console {
            return Ok(Some("hvc1"));
        }
        return Ok(Some("hvc0"));
    }
    let devices: [&'static str; 8] = [
        port_name(arch, 0),
        port_name(arch, 1),
        port_name(arch, 2),
        port_name(arch, 3),
        "vmbus_com1",
        "vmbus_com2",
        "debugcon",
        "hvc0",
    ];
    let wanted: [bool; 8] = [
        options.com1.is_none() || wants_terminal(&options.com1),
        wants_terminal(&options.com2),
        wants_terminal(&options.com3),
        wants_terminal(&options.com4),
        wants_terminal(&options.vmbus_com1),
        wants_terminal(&options.vmbus_com2),
        wants_terminal(&options.debugcon),
        console,
    ];
    let mut holder: Option<&'static str> = None;
    let mut i: usize = 0;
    assert(all.take(0) =~= Seq::empty());
    while i < 8
        invariant
            i <= 8,
            all == claims(*options, microvm, arch),
            all.len() == 8,
            devices@.len() == 8,
            wanted@.len() == 8,
            forall|k: int| 0 <= k < 8 ==> all[k] == (#[trigger] devices@[k]@, wanted@[k]),
            terminal(all.take(i as int)) == Ok::<Option<Seq<char>>, Seq<char>>(
                holder_view(holder),
            ),
        decreases 8 - i,
    {
        proof {
            lemma_terminal_step(all.take(i as int), all[i as int]);
            assert(all.take(i + 1) =~= all.take(i as int).push(all[i as int]));
            assert(all[i as int] == (devices@[i as int]@, wanted@[i as int]));
        }
        match claim(holder, devices[i], wanted[i]) {
            Ok(next) => {
                holder = next;
            },
            Err(e) => {
                proof {
                    lemma_terminal_fails(all.take(i + 1), all);
                }
                return Err(e);
            },
        }
        i += 1;
    }
    assert(all.take(8) =~= all);
    Ok(holder)
}

/// A microVM always has its terminal, on exactly one of its two consoles.
pub proof fn law_microvm_terminal(options: SerialOptions, arch: GuestArch)
    ensures
        terminal(claims(options, true, arch)) == Ok::<Option<Seq<char>>, Seq<char>>(
            Some(
                if is_terminal(options.virtio_console) {
                    "hvc1"@
                } else {
                    "hvc0"@
                },
            ),
        ),
{
    let all = claims(options, true, arch);
    reveal_with_fuel(terminal, 3);
    assert(all.drop_last() =~= seq![all[0]]);
    assert(all.drop_last().drop_last() =~= Seq::empty());
}

proof fn lemma_holder_claims(list: Seq<(Seq<char>, bool)>)
    ensures
        terminal(list) matches Ok(Some(holder)) ==> exists|i: int|
            0 <= i < list.len() && #[trigger] list[i] == (holder, true),
        terminal(list) matches Ok(None) ==> forall|i: int|
            0 <= i < list.len() ==> !(#[trigger] list[i]).1,
    decreases list.len(),
{
    if list.len() > 0 {
        let front = list.drop_last();
        lemma_holder_claims(front);
        assert(list.last() == list[list.len() - 1]);
        match terminal(front) {
            Ok(Some(holder)) => {
                let i = choose|i: int| 0 <= i < front.len() && #[trigger] front[i] == (holder, true);
                assert(list[i] == front[i]);
            },
            Ok(None) => {
                assert forall|i: int| 0 <= i < list.len() && !list.last().1 implies !(
                #[trigger] list[i]).1 by {
                    if i < front.len() {
                        assert(front[i] == list[i]);
                    }
                }
            },
            Err(_) => {},
        }
    }
}

proof fn lemma_one_claim(list: Seq<(Seq<char>, bool)>, i: int, j: int)
    requires
        0 <= i < j < list.len(),
        list[i].1,
        list[j].1,
    ensures
        terminal(list) is Err,
    decreases list.len(),
{
    let front = list.drop_last();
    if j < front.len() {
        assert(front[i] == list[i] && front[j] == list[j]);
        lemma_one_claim(front, i, j);
    } else {
        lemma_holder_claims(front);
        assert(front[i] == list[i]);
    }
}

/// The terminal is given only where one device at most asks for it.
pub proof fn law_terminal_is_exclusive(
    options: SerialOptions,
    microvm: bool,
    arch: GuestArch,
    i: int,
    j: int,
)
    requires
        0 <= i < claims(options, microvm, arch).len(),
        0 <= j < claims(options, microvm, arch).len(),
        claims(options, microvm, arch)[i].1,
        claims(options, microvm, arch)[j].1,
        terminal(claims(options, microvm, arch)) is Ok,
    ensures
        i == j,
{
    if i < j {
        lemma_one_claim(claims(options, microvm, arch), i, j);
    } else if j < i {
        lemma_one_claim(claims(options, microvm, arch), j, i);
    }
}

/// What the port of a microVM writes to, given where its console leads.
pub fn microvm_port_backend(console: Option<&SerialConfigCli>) -> (r: SerialConfigCli)
    ensures
        r@ == (if console is Some && console->0@ is Console {
            SerialEndpoint::Stderr
        } else {
            SerialEndpoint::Console
        }),
{
    match console {
        Some(SerialConfigCli::Console) => SerialConfigCli::Stderr,
        _ => SerialConfigCli::Console,
    }
}

} // verus!
