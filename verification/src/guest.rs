//! The command protocol of the PVH test guest.
//!
//! The guest talks to its host through byte-wide ports. Between two port reads
//! it only computes and writes, so it is a machine that takes the byte it read,
//! says which bytes it writes to which ports, and which port it reads next.

use vstd::prelude::*;
use vstd::utf8::encode_utf8;

use crate::numeral::{decimal, push_decimal};
use crate::restore::{
    law_packet_is_decodable, lemma_packet_header, packet_bytes, packet_header, packet_refusal,
    packet_version,
};
use crate::snapshot::SnapshotMemoryExpansionRange;

verus! {

pub const HVM_START_MAGIC: u32 = 0x336e_c578;

pub const DATA_PORT: u16 = 0xe9;

pub const STATUS_PORT: u16 = 0xea;

pub const SHUTDOWN_PORT: u16 = 0x604;

pub const SNAPSHOT_PORT: u16 = 0x605;

pub const STATUS_INPUT_AVAILABLE: u8 = 1;

pub const STATUS_RESTORE_TARGET_AVAILABLE: u8 = 4;

pub const STATUS_RESTORE_MEMORY_AVAILABLE: u8 = 8;

/// Either kind of restore packet is available.
pub const STATUS_RESTORE_AVAILABLE: u8 = 12;

pub const RESTORE_PACKET_SELECT: u8 = 0xa5;

pub const COMMAND_PING: u8 = 1;

pub const COMMAND_ECHO: u8 = 2;

pub const COMMAND_SNAPSHOT: u8 = 3;

pub const COMMAND_RESTORE_TARGET: u8 = 4;

pub const COMMAND_STATE: u8 = 5;

pub const COMMAND_SHUTDOWN: u8 = 6;

/// One byte written to one port.
#[derive(Clone, Copy, Debug, PartialEq, Eq, Structural)]
pub struct PortWrite {
    pub port: u16,
    pub value: u8,
}

/// What an input byte is awaited for.
#[derive(Clone, Copy, Debug, PartialEq, Eq, Structural)]
pub enum InputUse {
    Command,
    ShutdownStatus,
}

/// What the guest waits for.
#[derive(Clone, Copy, Debug, PartialEq, Eq, Structural)]
pub enum GuestMode {
    /// A status that announces input.
    PollInput(InputUse),
    /// The announced input byte.
    TakeInput(InputUse),
    /// The status after a snapshot request.
    SnapshotStatus,
    /// The status before a restore report.
    RestoreStatus { release_gate: bool },
    /// A byte of the header of a restore packet.
    Header { version: u8, index: u8, release_gate: bool },
    /// The processor target of a restore packet.
    Target { version: u8, release_gate: bool },
    /// The number of memory ranges of a restore packet.
    RangeCount { target: u8, release_gate: bool },
    /// The rest of a restore packet.
    Drain { target: u8, ranges: Option<u8>, remaining: u16, release_gate: bool },
    /// Nothing: the guest has shut down.
    Halted,
}

/// The guest's state between two port reads.
#[derive(Clone, Copy, Debug, PartialEq, Eq, Structural)]
pub struct Guest {
    pub mode: GuestMode,
    /// How many snapshots were requested, modulo the counter's width.
    pub generation: u32,
}

/// A run of bytes written to the data port.
pub open spec fn data_writes(bytes: Seq<u8>) -> Seq<PortWrite> {
    bytes.map_values(|b: u8| PortWrite { port: DATA_PORT, value: b })
}

/// A text written to the data port.
pub open spec fn text_writes(text: Seq<char>) -> Seq<PortWrite> {
    data_writes(encode_utf8(text))
}

/// The bytes that the echo command answers with.
pub open spec fn raw_echo() -> Seq<u8> {
    seq![0u8, 13u8, 10u8, 0x7fu8, 0xffu8] + encode_utf8("PVH-ECHO\n"@)
}

/// The status announces a restore packet.
pub open spec fn restore_available(status: u8) -> bool {
    status & STATUS_RESTORE_AVAILABLE != 0
}

/// The status announces a restore packet with memory ranges.
pub open spec fn memory_available(status: u8) -> bool {
    status & STATUS_RESTORE_MEMORY_AVAILABLE != 0
}

/// The guest waiting for its next command.
pub open spec fn idle(generation: u32) -> Guest {
    Guest { mode: GuestMode::PollInput(InputUse::Command), generation }
}

/// The writes of a shutdown.
pub open spec fn shutdown_writes(status: u8) -> Seq<PortWrite> {
    seq![PortWrite { port: SHUTDOWN_PORT, value: status }]
}

/// How the guest starts, given what its loader handed it.
pub open spec fn started(magic: u32, version: u32) -> (Guest, Seq<PortWrite>) {
    if magic != HVM_START_MAGIC || version != 1 {
        (
            Guest { mode: GuestMode::Halted, generation: 0 },
            text_writes("PVH-START-INFO-INVALID\n"@) + shutdown_writes(0xff),
        )
    } else {
        (idle(0), text_writes("OPENVMM-PVH-TEST-READY\n"@))
    }
}

/// The report of a restore packet.
pub open spec fn restore_report(target: u8, ranges: Option<u8>) -> Seq<char> {
    "RESTORE-TARGET="@ + decimal(target as nat) + (match ranges {
        Some(count) => " MEMORY-RANGES="@ + decimal(count as nat),
        None => Seq::empty(),
    }) + "\n"@
}

/// The guest after a whole restore packet.
pub open spec fn reported(
    generation: u32,
    target: u8,
    ranges: Option<u8>,
    release_gate: bool,
) -> (Guest, Seq<PortWrite>) {
    let gate = if release_gate {
        seq![PortWrite { port: SNAPSHOT_PORT, value: 2 }]
    } else {
        Seq::empty()
    };
    (idle(generation), gate + text_writes(restore_report(target, ranges)))
}

/// What the guest does with a command byte.
pub open spec fn commanded(g: Guest, command: u8) -> (Guest, Seq<PortWrite>) {
    let generation = g.generation;
    if command == COMMAND_PING {
        (idle(generation), text_writes("PONG\n"@))
    } else if command == COMMAND_ECHO {
        (idle(generation), data_writes(raw_echo()))
    } else if command == COMMAND_SNAPSHOT {
        let next = if generation == u32::MAX {
            0u32
        } else {
            (generation + 1) as u32
        };
        (
            Guest { mode: GuestMode::SnapshotStatus, generation: next },
            text_writes("SNAPSHOT-REQUESTED\n"@) + seq![
                PortWrite { port: SNAPSHOT_PORT, value: 0 },
            ] + text_writes("SNAPSHOT-CONTINUED="@ + decimal(next as nat) + "\n"@),
        )
    } else if command == COMMAND_RESTORE_TARGET {
        (Guest { mode: GuestMode::RestoreStatus { release_gate: false }, ..g }, Seq::empty())
    } else if command == COMMAND_STATE {
        (idle(generation), text_writes("STATE="@ + decimal(generation as nat) + "\n"@))
    } else if command == COMMAND_SHUTDOWN {
        (
            Guest { mode: GuestMode::PollInput(InputUse::ShutdownStatus), ..g },
            Seq::empty(),
        )
    } else {
        (idle(generation), text_writes("UNKNOWN-COMMAND\n"@))
    }
}

/// The guest's next state and its writes, given the byte it read.
pub open spec fn stepped(g: Guest, value: u8) -> (Guest, Seq<PortWrite>) {
    let none = Seq::<PortWrite>::empty();
    match g.mode {
        GuestMode::PollInput(purpose) => if value & STATUS_INPUT_AVAILABLE != 0 {
            (Guest { mode: GuestMode::TakeInput(purpose), ..g }, none)
        } else {
            (g, none)
        },
        GuestMode::TakeInput(InputUse::Command) => commanded(g, value),
        GuestMode::TakeInput(InputUse::ShutdownStatus) => (
            Guest { mode: GuestMode::Halted, ..g },
            shutdown_writes(value),
        ),
        GuestMode::SnapshotStatus => if restore_available(value) {
            (Guest { mode: GuestMode::RestoreStatus { release_gate: true }, ..g }, none)
        } else {
            (idle(g.generation), none)
        },
        GuestMode::RestoreStatus { release_gate } => if restore_available(value) {
            (
                Guest {
                    mode: GuestMode::Header {
                        version: if memory_available(value) {
                            3
                        } else {
                            2
                        },
                        index: 0,
                        release_gate,
                    },
                    ..g
                },
                seq![PortWrite { port: STATUS_PORT, value: RESTORE_PACKET_SELECT }],
            )
        } else {
            (idle(g.generation), text_writes("RESTORE-TARGET=NONE\n"@))
        },
        GuestMode::Header { version, index, release_gate } => if value != packet_header(
            version as int,
        )[index as int] {
            (idle(g.generation), text_writes("RESTORE-PACKET-INVALID\n"@))
        } else if index >= 18 {
            (Guest { mode: GuestMode::Target { version, release_gate }, ..g }, none)
        } else {
            (
                Guest {
                    mode: GuestMode::Header { version, index: (index + 1) as u8, release_gate },
                    ..g
                },
                none,
            )
        },
        GuestMode::Target { version, release_gate } => if version == 3 {
            (Guest { mode: GuestMode::RangeCount { target: value, release_gate }, ..g }, none)
        } else {
            (
                Guest {
                    mode: GuestMode::Drain {
                        target: value,
                        ranges: None,
                        remaining: 64,
                        release_gate,
                    },
                    ..g
                },
                none,
            )
        },
        GuestMode::RangeCount { target, release_gate } => (
            Guest {
                mode: GuestMode::Drain {
                    target,
                    ranges: Some(value),
                    remaining: (value * 16 + 64) as u16,
                    release_gate,
                },
                ..g
            },
            none,
        ),
        GuestMode::Drain { target, ranges, remaining, release_gate } => if remaining <= 1 {
            reported(g.generation, target, ranges, release_gate)
        } else {
            (
                Guest {
                    mode: GuestMode::Drain {
                        target,
                        ranges,
                        remaining: (remaining - 1) as u16,
                        release_gate,
                    },
                    ..g
                },
                none,
            )
        },
        GuestMode::Halted => (g, none),
    }
}

/// Appends one byte for the data port.
pub fn write_byte(out: &mut Vec<PortWrite>, byte: u8)
    ensures
        final(out)@ == old(out)@ + data_writes(seq![byte]),
{
    out.push(PortWrite { port: DATA_PORT, value: byte });
    assert(out@ =~= old(out)@ + data_writes(seq![byte]));
}

/// Appends bytes for the data port.
pub fn write_bytes(out: &mut Vec<PortWrite>, bytes: &[u8])
    ensures
        final(out)@ == old(out)@ + data_writes(bytes@),
{
    let mut i: usize = 0;
    assert(out@ =~= old(out)@ + data_writes(bytes@.take(0)));
    while i < bytes.len()
        invariant
            i <= bytes@.len(),
            out@ == old(out)@ + data_writes(bytes@.take(i as int)),
        decreases bytes@.len() - i,
    {
        write_byte(out, bytes[i]);
        assert(out@ =~= old(out)@ + data_writes(bytes@.take(i + 1)));
        i += 1;
    }
    assert(bytes@.take(i as int) =~= bytes@);
}

fn write_text(out: &mut Vec<PortWrite>, text: &str)
    ensures
        final(out)@ == old(out)@ + text_writes(text@),
{
    write_bytes(out, text.as_bytes());
}

/// Appends a decimal number for the data port.
pub fn write_u32(out: &mut Vec<PortWrite>, value: u32)
    ensures
        final(out)@ == old(out)@ + text_writes(decimal(value as nat)),
{
    let mut text = String::new();
    push_decimal(&mut text, value as u128);
    assert(text@ =~= decimal(value as nat));
    write_text(out, text.as_str());
}

/// Whether the status lets the guest take an input byte.
pub fn read_input(status: u8) -> (b: bool)
    ensures
        b == (status & STATUS_INPUT_AVAILABLE != 0),
{
    status & STATUS_INPUT_AVAILABLE != 0
}

fn header_byte(version: u8, index: u8) -> (b: u8)
    requires
        version == 2 || version == 3,
        index < 19,
    ensures
        b == packet_header(version as int)[index as int],
{
    proof {
        lemma_packet_header(version as int);
    }
    let header = if version == 3 {
        "OPENVMM_ENTROPY_V3\0"
    } else {
        "OPENVMM_ENTROPY_V2\0"
    };
    header.as_bytes()[index as usize]
}

/// The counters of a packet in progress are within the packet.
pub open spec fn guest_wf(g: Guest) -> bool {
    match g.mode {
        GuestMode::Header { version, index, .. } => (version == 2 || version == 3) && index < 19,
        GuestMode::Target { version, .. } => version == 2 || version == 3,
        GuestMode::Drain { remaining, .. } => remaining > 0,
        _ => true,
    }
}

impl Guest {
    /// Starts the guest.
    pub fn start(magic: u32, version: u32) -> (r: (Guest, Vec<PortWrite>))
        ensures
            (r.0, r.1@) == started(magic, version),
            guest_wf(r.0),
    {
        let mut out: Vec<PortWrite> = Vec::new();
        if magic != HVM_START_MAGIC || version != 1 {
            write_text(&mut out, "PVH-START-INFO-INVALID\n");
            out.push(PortWrite { port: SHUTDOWN_PORT, value: 0xff });
            assert(out@ =~= started(magic, version).1);
            (Guest { mode: GuestMode::Halted, generation: 0 }, out)
        } else {
            write_text(&mut out, "OPENVMM-PVH-TEST-READY\n");
            assert(out@ =~= started(magic, version).1);
            (Guest { mode: GuestMode::PollInput(InputUse::Command), generation: 0 }, out)
        }
    }

    /// The port that the guest reads next, unless it has shut down.
    pub fn next_port(&self) -> (port: Option<u16>)
        ensures
            port == (match self.mode {
                GuestMode::PollInput(_)
                | GuestMode::SnapshotStatus
                | GuestMode::RestoreStatus { .. } => Some(STATUS_PORT),
                GuestMode::Halted => None,
                _ => Some(DATA_PORT),
            }),
    {
        match self.mode {
            GuestMode::PollInput(_)
            | GuestMode::SnapshotStatus
            | GuestMode::RestoreStatus { .. } => Some(STATUS_PORT),
            GuestMode::Halted => None,
            _ => Some(DATA_PORT),
        }
    }

    fn command(&mut self, command: u8, out: &mut Vec<PortWrite>)
        requires
            old(out)@.len() == 0,
        ensures
            (*final(self), final(out)@) == commanded(*old(self), command),
            guest_wf(*final(self)),
    {
        if command == COMMAND_PING {
            self.mode = GuestMode::PollInput(InputUse::Command);
            write_text(out, "PONG\n");
        } else if command == COMMAND_ECHO {
            self.mode = GuestMode::PollInput(InputUse::Command);
            write_byte(out, 0);
            write_byte(out, 13);
            write_byte(out, 10);
            write_byte(out, 0x7f);
            write_byte(out, 0xff);
            write_text(out, "PVH-ECHO\n");
        } else if command == COMMAND_SNAPSHOT {
            write_text(out, "SNAPSHOT-REQUESTED\n");
            out.push(PortWrite { port: SNAPSHOT_PORT, value: 0 });
            self.generation =
            if self.generation == u32::MAX {
                0
            } else {
                self.generation + 1
            };
            let mut text = String::new();
            crate::text::push_text(&mut text, "SNAPSHOT-CONTINUED=");
            push_decimal(&mut text, self.generation as u128);
            crate::text::push_text(&mut text, "\n");
            assert(text@ =~= "SNAPSHOT-CONTINUED="@ + decimal(self.generation as nat) + "\n"@);
            write_text(out, text.as_str());
            self.mode = GuestMode::SnapshotStatus;
        } else if command == COMMAND_RESTORE_TARGET {
            self.mode = GuestMode::RestoreStatus { release_gate: false };
        } else if command == COMMAND_STATE {
            self.mode = GuestMode::PollInput(InputUse::Command);
            let mut text = String::new();
            crate::text::push_text(&mut text, "STATE=");
            push_decimal(&mut text, self.generation as u128);
            crate::text::push_text(&mut text, "\n");
            assert(text@ =~= "STATE="@ + decimal(self.generation as nat) + "\n"@);
            write_text(out, text.as_str());
        } else if command == COMMAND_SHUTDOWN {
            self.mode = GuestMode::PollInput(InputUse::ShutdownStatus);
        } else {
            self.mode = GuestMode::PollInput(InputUse::Command);
            write_text(out, "UNKNOWN-COMMAND\n");
        }
        assert(out@ =~= commanded(*old(self), command).1);
    }

    fn finish_report(
        &mut self,
        target: u8,
        ranges: Option<u8>,
        release_gate: bool,
        out: &mut Vec<PortWrite>,
    )
        requires
            old(out)@.len() == 0,
        ensures
            (*final(self), final(out)@) == reported(
                old(self).generation,
                target,
                ranges,
                release_gate,
            ),
            guest_wf(*final(self)),
    {
        if release_gate {
            out.push(PortWrite { port: SNAPSHOT_PORT, value: 2 });
        }
        let mut text = String::new();
        crate::text::push_text(&mut text, "RESTORE-TARGET=");
        push_decimal(&mut text, target as u128);
        if let Some(count) = ranges {
            crate::text::push_text(&mut text, " MEMORY-RANGES=");
            push_decimal(&mut text, count as u128);
        }
        crate::text::push_text(&mut text, "\n");
        assert(text@ =~= restore_report(target, ranges));
        write_text(out, text.as_str());
        self.mode = GuestMode::PollInput(InputUse::Command);
        assert(out@ =~= reported(old(self).generation, target, ranges, release_gate).1);
    }

    /// Takes the byte that the guest read, and says what it writes.
    pub fn step(&mut self, value: u8) -> (writes: Vec<PortWrite>)
        requires
            guest_wf(*old(self)),
        ensures
            (*final(self), writes@) == stepped(*old(self), value),
            guest_wf(*final(self)),
    {
        let mut out: Vec<PortWrite> = Vec::new();
        match self.mode {
            GuestMode::PollInput(purpose) => {
                if read_input(value) {
                    self.mode = GuestMode::TakeInput(purpose);
                }
            },
            GuestMode::TakeInput(InputUse::Command) => {
                self.command(value, &mut out);
            },
            GuestMode::TakeInput(InputUse::ShutdownStatus) => {
                self.mode = GuestMode::Halted;
                out.push(PortWrite { port: SHUTDOWN_PORT, value });
            },
            GuestMode::SnapshotStatus => {
                self.mode =
                if value & STATUS_RESTORE_AVAILABLE != 0 {
                    GuestMode::RestoreStatus { release_gate: true }
                } else {
                    GuestMode::PollInput(InputUse::Command)
                };
            },
            GuestMode::RestoreStatus { release_gate } => {
                if value & STATUS_RESTORE_AVAILABLE != 0 {
                    out.push(PortWrite { port: STATUS_PORT, value: RESTORE_PACKET_SELECT });
                    let version: u8 = if value & STATUS_RESTORE_MEMORY_AVAILABLE != 0 {
                        3
                    } else {
                        2
                    };
                    self.mode = GuestMode::Header { version, index: 0, release_gate };
                } else {
                    write_text(&mut out, "RESTORE-TARGET=NONE\n");
                    self.mode = GuestMode::PollInput(InputUse::Command);
                }
            },
            GuestMode::Header { version, index, release_gate } => {
                if value != header_byte(version, index) {
                    write_text(&mut out, "RESTORE-PACKET-INVALID\n");
                    self.mode = GuestMode::PollInput(InputUse::Command);
                } else if index >= 18 {
                    self.mode = GuestMode::Target { version, release_gate };
                } else {
                    self.mode = GuestMode::Header { version, index: index + 1, release_gate };
                }
            },
            GuestMode::Target { version, release_gate } => {
                self.mode =
                if version == 3 {
                    GuestMode::RangeCount { target: value, release_gate }
                } else {
                    GuestMode::Drain { target: value, ranges: None, remaining: 64, release_gate }
                };
            },
            GuestMode::RangeCount { target, release_gate } => {
                self.mode =
                GuestMode::Drain {
                    target,
                    ranges: Some(value),
                    remaining: (value as u16) * 16 + 64,
                    release_gate,
                };
            },
            GuestMode::Drain { target, ranges, remaining, release_gate } => {
                if remaining <= 1 {
                    self.finish_report(target, ranges, release_gate, &mut out);
                } else {
                    self.mode =
                    GuestMode::Drain { target, ranges, remaining: remaining - 1, release_gate };
                }
            },
            GuestMode::Halted => {},
        }
        assert(out@ =~= stepped(*old(self), value).1);
        out
    }

    /// The last words of a guest that failed: a text and a shutdown.
    pub fn panic(&mut self) -> (writes: Vec<PortWrite>)
        ensures
            writes@ == text_writes("PVH-TEST-PANIC\n"@) + shutdown_writes(0xfe),
            *final(self) == (Guest { mode: GuestMode::Halted, ..*old(self) }),
    {
        let mut out: Vec<PortWrite> = Vec::new();
        write_text(&mut out, "PVH-TEST-PANIC\n");
        out.push(PortWrite { port: SHUTDOWN_PORT, value: 0xfe });
        self.mode = GuestMode::Halted;
        assert(out@ =~= text_writes("PVH-TEST-PANIC\n"@) + shutdown_writes(0xfe));
        out
    }
}

/// The guest after it read a run of bytes, and everything it wrote.
pub open spec fn run(g: Guest, input: Seq<u8>) -> (Guest, Seq<PortWrite>)
    decreases input.len(),
{
    if input.len() == 0 {
        (g, Seq::empty())
    } else {
        let (before, writes) = run(g, input.drop_last());
        let (after, more) = stepped(before, input.last());
        (after, writes + more)
    }
}

/// The guest is in the middle of a restore packet.
pub open spec fn reading_packet(g: Guest) -> bool {
    g.mode is Header || g.mode is Target || g.mode is RangeCount || g.mode is Drain
}

/// Reports a restore packet, given the status and what the data port would give in
/// turn: what the guest writes, and how many bytes it read. Nothing comes back
/// where the bytes end before the report does.
pub fn report_restore_target(generation: u32, release_gate: bool, status: u8, data: &[u8]) -> (r:
    Option<(Vec<PortWrite>, usize)>)
    ensures
        ({
            let g = Guest { mode: GuestMode::RestoreStatus { release_gate }, generation };
            match r {
                Some((writes, n)) => {
                    &&& n <= data@.len()
                    &&& run(g, seq![status] + data@.take(n as int)) == (idle(generation), writes@)
                    &&& forall|k: int|
                        0 <= k < n ==> reading_packet(
                            run(g, #[trigger] (seq![status] + data@.take(k))).0,
                        )
                },
                None => forall|k: int|
                    0 <= k <= data@.len() ==> reading_packet(
                        run(g, #[trigger] (seq![status] + data@.take(k))).0,
                    ),
            }
        }),
{
    let ghost g = Guest { mode: GuestMode::RestoreStatus { release_gate }, generation };
    let mut guest = Guest { mode: GuestMode::RestoreStatus { release_gate }, generation };
    let mut out = guest.step(status);
    proof {
        lemma_run_one(g, status);
        assert(seq![status] + data@.take(0) =~= seq![status]);
    }
    let mut i: usize = 0;
    loop
        invariant
            i <= data@.len(),
            g == (Guest { mode: GuestMode::RestoreStatus { release_gate }, generation }),
            guest_wf(guest),
            run(g, seq![status] + data@.take(i as int)) == (guest, out@),
            reading_packet(guest) || guest == idle(generation),
            guest.generation == generation,
            forall|k: int|
                0 <= k < i ==> reading_packet(run(g, #[trigger] (seq![status] + data@.take(k))).0),
        decreases data@.len() - i,
    {
        let reading = match guest.mode {
            GuestMode::Header { .. }
            | GuestMode::Target { .. }
            | GuestMode::RangeCount { .. }
            | GuestMode::Drain { .. } => true,
            _ => false,
        };
        if !reading {
            return Some((out, i));
        }
        if i == data.len() {
            return None;
        }
        let mut writes = guest.step(data[i]);
        let ghost before = out@;
        let ghost more = writes@;
        out.append(&mut writes);
        proof {
            assert(out@ =~= before + more);
            let next = seq![status] + data@.take(i + 1);
            assert(next.drop_last() =~= seq![status] + data@.take(i as int));
            assert(next.last() == data@[i as int]);
        }
        i += 1;
    }
}

proof fn lemma_run_concat(g: Guest, a: Seq<u8>, b: Seq<u8>)
    ensures
        run(g, a + b) == ({
            let (mid, w1) = run(g, a);
            let (end, w2) = run(mid, b);
            (end, w1 + w2)
        }),
    decreases b.len(),
{
    if b.len() == 0 {
        assert(a + b =~= a);
        assert(run(g, a).1 + Seq::<PortWrite>::empty() =~= run(g, a).1);
    } else {
        assert((a + b).drop_last() =~= a + b.drop_last());
        assert((a + b).last() == b.last());
        lemma_run_concat(g, a, b.drop_last());
        let (mid, w1) = run(g, a);
        let (before, w2) = run(mid, b.drop_last());
        let (after, more) = stepped(before, b.last());
        assert((w1 + w2) + more =~= w1 + (w2 + more));
    }
}

proof fn lemma_run_one(g: Guest, value: u8)
    ensures
        run(g, seq![value]) == stepped(g, value),
{
    let one = seq![value];
    assert(one.drop_last() =~= Seq::<u8>::empty());
    assert(run(g, one.drop_last()) == (g, Seq::<PortWrite>::empty()));
    assert(Seq::<PortWrite>::empty() + stepped(g, value).1 =~= stepped(g, value).1);
}

/// Reading a correct header up to an index.
proof fn lemma_run_header(g: Guest, version: u8, release_gate: bool, n: int)
    requires
        version == 2 || version == 3,
        g.mode == (GuestMode::Header { version, index: 0, release_gate }),
        0 <= n <= 18,
    ensures
        run(g, packet_header(version as int).take(n)) == (
            Guest { mode: GuestMode::Header { version, index: n as u8, release_gate }, ..g },
            Seq::<PortWrite>::empty(),
        ),
    decreases n,
{
    let header = packet_header(version as int);
    lemma_packet_header(version as int);
    if n == 0 {
        assert(header.take(0).len() == 0);
    } else {
        lemma_run_header(g, version, release_gate, n - 1);
        assert(header.take(n).drop_last() =~= header.take(n - 1));
        assert(header.take(n).last() == header[n - 1]);
    }
}

/// Draining the rest of a packet, whatever it holds.
proof fn lemma_run_drain(g: Guest, rest: Seq<u8>)
    requires
        g.mode is Drain,
        0 < rest.len() <= g.mode->remaining,
    ensures
        rest.len() < g.mode->remaining ==> run(g, rest) == (
            Guest {
                mode: GuestMode::Drain {
                    target: g.mode->Drain_target,
                    ranges: g.mode->ranges,
                    remaining: (g.mode->remaining - rest.len()) as u16,
                    release_gate: g.mode->Drain_release_gate,
                },
                ..g
            },
            Seq::<PortWrite>::empty(),
        ),
        rest.len() == g.mode->remaining ==> run(g, rest) == reported(
            g.generation,
            g.mode->Drain_target,
            g.mode->ranges,
            g.mode->Drain_release_gate,
        ),
    decreases rest.len(),
{
    let none = Seq::<PortWrite>::empty();
    if rest.len() == 1 {
        assert(rest =~= seq![rest[0]]);
        lemma_run_one(g, rest[0]);
    } else {
        let front = rest.drop_last();
        lemma_run_drain(g, front);
        let (before, writes) = run(g, front);
        assert(writes =~= none);
        let (after, more) = stepped(before, rest.last());
        assert(none + more =~= more);
    }
}

/// A guest that reads what the host packed is in the middle of it until its end.
proof fn lemma_reads_whole_packet(
    g: Guest,
    release_gate: bool,
    entropy: Seq<u8>,
    online_vps: Option<u32>,
    memory_target: bool,
    ranges: Seq<SnapshotMemoryExpansionRange>,
    k: int,
)
    requires
        entropy.len() == 64,
        packet_refusal(online_vps, memory_target, ranges) is None,
        packet_version(online_vps, memory_target) >= 2,
        g.mode == (GuestMode::Header {
            version: packet_version(online_vps, memory_target) as u8,
            index: 0,
            release_gate,
        }),
        0 <= k < packet_bytes(entropy, online_vps, memory_target, ranges).len(),
    ensures
        reading_packet(
            run(g, packet_bytes(entropy, online_vps, memory_target, ranges).take(k)).0,
        ),
{
    let packet = packet_bytes(entropy, online_vps, memory_target, ranges);
    let version = packet_version(online_vps, memory_target) as u8;
    law_packet_is_decodable(entropy, online_vps, memory_target, ranges);
    lemma_packet_header(version as int);
    let header = packet_header(version as int);
    assert(packet =~= header + packet.skip(19));
    if k <= 18 {
        lemma_run_header(g, version, release_gate, k);
        assert(packet.take(k) =~= header.take(k));
    } else {
        lemma_run_header(g, version, release_gate, 18);
        let g1 = run(g, header.take(18)).0;
        lemma_run_one(g1, header[18]);
        lemma_run_concat(g, header.take(18), seq![header[18]]);
        assert(header.take(18) + seq![header[18]] =~= header);
        let g2 = run(g, header).0;
        assert(g2.mode == (GuestMode::Target { version, release_gate }));
        assert(packet.take(k) =~= header + packet.subrange(19, k));
        lemma_run_concat(g, header, packet.subrange(19, k));
        if k == 19 {
            assert(packet.subrange(19, k) =~= Seq::<u8>::empty());
        } else {
            let target = packet[19];
            lemma_run_one(g2, target);
            let g3 = stepped(g2, target).0;
            assert(packet.subrange(19, k) =~= seq![target] + packet.subrange(20, k));
            lemma_run_concat(g2, seq![target], packet.subrange(20, k));
            if !memory_target {
                if k == 20 {
                    assert(packet.subrange(20, k) =~= Seq::<u8>::empty());
                } else {
                    lemma_run_drain(g3, packet.subrange(20, k));
                }
            } else if k == 20 {
                assert(packet.subrange(20, k) =~= Seq::<u8>::empty());
            } else {
                let count = packet[20];
                lemma_run_one(g3, count);
                let g4 = stepped(g3, count).0;
                assert(packet.subrange(20, k) =~= seq![count] + packet.subrange(21, k));
                lemma_run_concat(g3, seq![count], packet.subrange(21, k));
                if k == 21 {
                    assert(packet.subrange(21, k) =~= Seq::<u8>::empty());
                } else {
                    lemma_run_drain(g4, packet.subrange(21, k));
                }
            }
        }
    }
}

/// What the host packs the guest unpacks: a guest that finds a packet announced
/// and reads all of it, and no more, reports its processor target and its range
/// count, lets the restored machine go where asked, and is ready for the next
/// command.
#[verifier::rlimit(40)]
pub proof fn law_guest_reports_packet(
    generation: u32,
    release_gate: bool,
    status: u8,
    entropy: Seq<u8>,
    online_vps: Option<u32>,
    memory_target: bool,
    ranges: Seq<SnapshotMemoryExpansionRange>,
)
    requires
        entropy.len() == 64,
        packet_refusal(online_vps, memory_target, ranges) is None,
        packet_version(online_vps, memory_target) >= 2,
        restore_available(status),
        memory_available(status) == memory_target,
    ensures
        ({
            let g = Guest { mode: GuestMode::RestoreStatus { release_gate }, generation };
            let packet = packet_bytes(entropy, online_vps, memory_target, ranges);
            let target = match online_vps {
                Some(count) => count as u8,
                None => 0,
            };
            let count = if memory_target {
                Some(ranges.len() as u8)
            } else {
                None
            };
            let (end, writes) = reported(generation, target, count, release_gate);
            run(g, seq![status] + packet) == (
                end,
                seq![PortWrite { port: STATUS_PORT, value: RESTORE_PACKET_SELECT }] + writes,
            )
        }),
        forall|k: int|
            0 <= k < packet_bytes(entropy, online_vps, memory_target, ranges).len()
                ==> reading_packet(
                run(
                    Guest { mode: GuestMode::RestoreStatus { release_gate }, generation },
                    #[trigger] (seq![status] + packet_bytes(
                        entropy,
                        online_vps,
                        memory_target,
                        ranges,
                    ).take(k)),
                ).0,
            ),
{
    let g = Guest { mode: GuestMode::RestoreStatus { release_gate }, generation };
    let packet = packet_bytes(entropy, online_vps, memory_target, ranges);
    let version = packet_version(online_vps, memory_target) as u8;
    let target = match online_vps {
        Some(count) => count as u8,
        None => 0,
    };
    law_packet_is_decodable(entropy, online_vps, memory_target, ranges);
    lemma_packet_header(version as int);
    let header = packet_header(version as int);
    let none = Seq::<PortWrite>::empty();
    // The status selects the packet.
    lemma_run_one(g, status);
    let (g1, w1) = stepped(g, status);
    assert(g1.mode == (GuestMode::Header { version, index: 0, release_gate }));
    assert forall|k: int| 0 <= k < packet.len() implies reading_packet(
        run(g, #[trigger] (seq![status] + packet.take(k))).0,
    ) by {
        lemma_run_concat(g, seq![status], packet.take(k));
        lemma_reads_whole_packet(
            g1,
            release_gate,
            entropy,
            online_vps,
            memory_target,
            ranges,
            k,
        );
    }
    // The header is read byte by byte.
    lemma_run_header(g1, version, release_gate, 18);
    assert(header =~= header.take(18) + seq![header[18]]);
    lemma_run_concat(g1, header.take(18), seq![header[18]]);
    let g2 = run(g1, header.take(18)).0;
    lemma_run_one(g2, header[18]);
    let g3 = Guest { mode: GuestMode::Target { version, release_gate }, ..g };
    assert(run(g1, header) == (g3, none + none));
    assert(none + none =~= none);
    // The target, and for the later version the range count.
    let rest = packet.skip(19);
    assert(packet =~= header + rest);
    lemma_run_one(g3, target);
    let g4 = stepped(g3, target).0;
    if memory_target {
        let count = ranges.len() as u8;
        let tail = packet.skip(21);
        assert(rest =~= seq![target] + (seq![count] + tail));
        lemma_run_one(g4, count);
        let g5 = stepped(g4, count).0;
        lemma_run_drain(g5, tail);
        lemma_run_concat(g4, seq![count], tail);
        lemma_run_concat(g3, seq![target], seq![count] + tail);
        let w = run(g5, tail).1;
        assert(none + w =~= w);
        assert(none + (none + w) =~= w);
    } else {
        let tail = packet.skip(20);
        assert(rest =~= seq![target] + tail);
        lemma_run_drain(g4, tail);
        lemma_run_concat(g3, seq![target], tail);
        let w = run(g4, tail).1;
        assert(none + w =~= w);
    }
    lemma_run_concat(g1, header, rest);
    let w = run(g3, rest).1;
    assert(none + w =~= w);
    lemma_run_concat(g, seq![status], packet);
}

} // verus!
