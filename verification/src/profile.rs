//! Opt-in snapshot lifecycle profiling.
//!
//! The process-wide settings and the clock readings are handed in by the
//! caller; times are nanoseconds on a monotonic clock.

use vstd::prelude::*;

use crate::numeral::{decimal, push_decimal};
use crate::refusal::text_view;
use crate::text::{push_text, same_text};

verus! {

/// Environment variable that enables snapshot lifecycle profiling.
pub const SNAPSHOT_PROFILE_ENV: &'static str = "OPENVMM_STARTUP_PROFILE";

/// Prefix for machine-readable snapshot lifecycle profile records.
pub const SNAPSHOT_PROFILE_PREFIX: &'static str = "OPENVMM_SNAPSHOT_PROFILE_V1";

/// Optional counters associated with a completed lifecycle phase.
#[derive(Clone, Copy, Debug, Eq, PartialEq, Structural)]
pub struct ProfileCounters {
    /// Logical artifact bytes handled by the phase.
    pub logical_bytes: Option<u64>,
    /// Physically allocated artifact bytes handled by the phase.
    pub allocated_bytes: Option<u64>,
    /// Guest-physical memory faults observed through the VMM resolver.
    pub gpa_faults: Option<u64>,
    /// Bytes populated while resolving guest-physical memory faults.
    pub populated_bytes: Option<u64>,
}

impl Default for ProfileCounters {
    fn default() -> (r: ProfileCounters)
        ensures
            r == (ProfileCounters {
                logical_bytes: None,
                allocated_bytes: None,
                gpa_faults: None,
                populated_bytes: None,
            }),
    {
        ProfileCounters {
            logical_bytes: None,
            allocated_bytes: None,
            gpa_faults: None,
            populated_bytes: None,
        }
    }
}

/// The process-wide profiling state: whether profiling is enabled, once that was
/// asked, and when the process-relative clock started.
#[derive(Clone, Copy, Debug, Eq, PartialEq, Structural)]
pub struct Profile {
    pub enabled: Option<bool>,
    pub process_started: Option<u128>,
}

/// An optional monotonic timer that is inert unless profiling is enabled.
#[derive(Clone, Copy, Debug, Eq, PartialEq, Structural)]
pub struct ProfileSpan {
    pub started: Option<u128>,
}

/// The readings taken when a span completes.
#[derive(Clone, Copy, Debug, Eq, PartialEq, Structural)]
pub struct ProfileClock {
    /// The monotonic clock.
    pub now: u128,
    /// Nanoseconds since the Unix epoch, or zero before it.
    pub unix_ns: u128,
    /// The process identifier.
    pub pid: u32,
}

/// The setting of the environment variable enables profiling.
pub open spec fn setting_enables(setting: Option<Seq<char>>) -> bool {
    match setting {
        Some(value) => value.len() > 0 && value != "0"@,
        None => false,
    }
}

/// Whether profiling is enabled: the first answer is kept.
pub open spec fn is_enabled(state: Profile, setting: Option<Seq<char>>) -> bool {
    match state.enabled {
        Some(answer) => answer,
        None => setting_enables(setting),
    }
}

/// The state after profiling was asked for at a time.
pub open spec fn initialized(state: Profile, setting: Option<Seq<char>>, now: nat) -> Profile {
    Profile {
        enabled: Some(is_enabled(state, setting)),
        process_started: if is_enabled(state, setting) && state.process_started is None {
            Some(now as u128)
        } else {
            state.process_started
        },
    }
}

/// Returns whether snapshot lifecycle profiling is enabled. The setting counts
/// the first time only.
pub fn enabled(state: &mut Profile, setting: Option<&str>) -> (b: bool)
    ensures
        b == is_enabled(*old(state), text_view(setting)),
        *final(state) == (Profile { enabled: Some(b), ..*old(state) }),
{
    match state.enabled {
        Some(answer) => answer,
        None => {
            let answer: bool = match setting {
                Some(value) => {
                    proof {
                        reveal_strlit("0");
                    }
                    !value.is_empty() && !same_text(value, "0")
                },
                None => false,
            };
            state.enabled = Some(answer);
            answer
        },
    }
}

/// Initializes the process-relative profile clock when profiling is enabled.
/// Repeated calls are harmless.
pub fn initialize(state: &mut Profile, setting: Option<&str>, now: u128)
    ensures
        *final(state) == initialized(*old(state), text_view(setting), now as nat),
{
    if enabled(state, setting) {
        if state.process_started.is_none() {
            state.process_started = Some(now);
        }
    }
}

/// Initializing again, at any later time and with any setting, changes nothing.
pub proof fn law_initialize_once(
    state: Profile,
    first: Option<Seq<char>>,
    second: Option<Seq<char>>,
    t1: nat,
    t2: nat,
)
    ensures
        initialized(initialized(state, first, t1), second, t2) == initialized(state, first, t1),
{
}

/// The time between two readings; never negative.
pub open spec fn elapsed(from: nat, to: nat) -> nat {
    if to >= from {
        (to - from) as nat
    } else {
        0
    }
}

fn elapsed_ns(from: u128, to: u128) -> (d: u128)
    ensures
        d == elapsed(from as nat, to as nat),
{
    if to >= from {
        to - from
    } else {
        0
    }
}

/// One optional counter of a record.
pub open spec fn counter_text(name: Seq<char>, value: Option<u64>) -> Seq<char> {
    match value {
        Some(v) => name + decimal(v as nat),
        None => Seq::empty(),
    }
}

/// One machine-readable record.
pub open spec fn record_text(
    operation: Seq<char>,
    phase: Seq<char>,
    exclusive: bool,
    duration_ns: nat,
    process_elapsed_ns: nat,
    pid: nat,
    unix_ns: nat,
    counters: ProfileCounters,
) -> Seq<char> {
    SNAPSHOT_PROFILE_PREFIX@ + " operation="@ + operation + " phase="@ + phase + " exclusive="@
        + decimal(
        if exclusive {
            1
        } else {
            0
        },
    ) + " duration_ns="@ + decimal(duration_ns) + " process_elapsed_ns="@ + decimal(
        process_elapsed_ns,
    ) + " pid="@ + decimal(pid) + " unix_ns="@ + decimal(unix_ns) + counter_text(
        " logical_bytes="@,
        counters.logical_bytes,
    ) + counter_text(" allocated_bytes="@, counters.allocated_bytes) + counter_text(
        " gpa_faults="@,
        counters.gpa_faults,
    ) + counter_text(" populated_bytes="@, counters.populated_bytes)
}

fn push_counter(line: &mut String, name: &str, value: Option<u64>)
    ensures
        final(line)@ == old(line)@ + counter_text(name@, value),
{
    if let Some(v) = value {
        push_text(line, name);
        push_decimal(line, v as u128);
    }
    assert(line@ =~= old(line)@ + counter_text(name@, value));
}

/// Formats one record.
pub fn format_record(
    operation: &str,
    phase: &str,
    exclusive: bool,
    duration_ns: u128,
    process_elapsed_ns: u128,
    pid: u32,
    unix_ns: u128,
    counters: ProfileCounters,
) -> (line: String)
    ensures
        line@ == record_text(
            operation@,
            phase@,
            exclusive,
            duration_ns as nat,
            process_elapsed_ns as nat,
            pid as nat,
            unix_ns as nat,
            counters,
        ),
{
    let mut line = SNAPSHOT_PROFILE_PREFIX.to_owned();
    push_text(&mut line, " operation=");
    push_text(&mut line, operation);
    push_text(&mut line, " phase=");
    push_text(&mut line, phase);
    push_text(&mut line, " exclusive=");
    let flag: u128 = if exclusive {
        1
    } else {
        0
    };
    push_decimal(&mut line, flag);
    push_text(&mut line, " duration_ns=");
    push_decimal(&mut line, duration_ns);
    push_text(&mut line, " process_elapsed_ns=");
    push_decimal(&mut line, process_elapsed_ns);
    push_text(&mut line, " pid=");
    push_decimal(&mut line, pid as u128);
    push_text(&mut line, " unix_ns=");
    push_decimal(&mut line, unix_ns);
    push_counter(&mut line, " logical_bytes=", counters.logical_bytes);
    push_counter(&mut line, " allocated_bytes=", counters.allocated_bytes);
    push_counter(&mut line, " gpa_faults=", counters.gpa_faults);
    push_counter(&mut line, " populated_bytes=", counters.populated_bytes);
    line
}

/// What a span emits when it completes: nothing unless it was started while
/// profiling was enabled.
pub open spec fn span_record(
    span: ProfileSpan,
    state: Profile,
    operation: Seq<char>,
    phase: Seq<char>,
    exclusive: bool,
    clock: ProfileClock,
    counters: ProfileCounters,
) -> Option<Seq<char>> {
    match span.started {
        None => None,
        Some(started) => {
            let origin = match state.process_started {
                Some(origin) => origin,
                None => started,
            };
            Some(
                record_text(
                    operation,
                    phase,
                    exclusive,
                    elapsed(started as nat, clock.now as nat),
                    elapsed(origin as nat, clock.now as nat),
                    clock.pid as nat,
                    clock.unix_ns as nat,
                    counters,
                ),
            )
        },
    }
}

/// The interval that is started at a time.
pub open spec fn started_span(state: Profile, setting: Option<Seq<char>>, now: u128) -> ProfileSpan {
    ProfileSpan {
        started: if is_enabled(state, setting) {
            Some(now)
        } else {
            None
        },
    }
}

impl ProfileSpan {
    /// Starts an interval only when profiling is enabled.
    pub fn start(state: &mut Profile, setting: Option<&str>, now: u128) -> (span: ProfileSpan)
        ensures
            *final(state) == initialized(*old(state), text_view(setting), now as nat),
            span == started_span(*old(state), text_view(setting), now),
    {
        if enabled(state, setting) {
            if state.process_started.is_none() {
                state.process_started = Some(now);
            }
            ProfileSpan { started: Some(now) }
        } else {
            ProfileSpan { started: None }
        }
    }

    /// The record of one exclusive phase interval.
    pub fn complete(
        self,
        state: &Profile,
        operation: &str,
        phase: &str,
        clock: ProfileClock,
        counters: ProfileCounters,
    ) -> (line: Option<String>)
        ensures
            crate::refusal::string_view(line) == span_record(
                self,
                *state,
                operation@,
                phase@,
                true,
                clock,
                counters,
            ),
    {
        self.emit(state, operation, phase, true, clock, counters)
    }

    /// The record of one cumulative milestone that may contain nested phase
    /// intervals.
    pub fn complete_milestone(
        self,
        state: &Profile,
        operation: &str,
        phase: &str,
        clock: ProfileClock,
        counters: ProfileCounters,
    ) -> (line: Option<String>)
        ensures
            crate::refusal::string_view(line) == span_record(
                self,
                *state,
                operation@,
                phase@,
                false,
                clock,
                counters,
            ),
    {
        self.emit(state, operation, phase, false, clock, counters)
    }

    fn emit(
        self,
        state: &Profile,
        operation: &str,
        phase: &str,
        exclusive: bool,
        clock: ProfileClock,
        counters: ProfileCounters,
    ) -> (line: Option<String>)
        ensures
            crate::refusal::string_view(line) == span_record(
                self,
                *state,
                operation@,
                phase@,
                exclusive,
                clock,
                counters,
            ),
    {
        let started: u128 = match self.started {
            Some(started) => started,
            None => return None,
        };
        let origin: u128 = match state.process_started {
            Some(origin) => origin,
            None => started,
        };
        Some(
            format_record(
                operation,
                phase,
                exclusive,
                elapsed_ns(started, clock.now),
                elapsed_ns(origin, clock.now),
                clock.pid,
                clock.unix_ns,
                counters,
            ),
        )
    }
}

/// A span that is started while profiling is off produces no record, whenever and
/// however it is completed, and starting it leaves the time of the process unset.
pub proof fn law_disabled_profiling_is_silent(
    state: Profile,
    setting: Option<Seq<char>>,
    now: u128,
    later: Profile,
    operation: Seq<char>,
    phase: Seq<char>,
    exclusive: bool,
    clock: ProfileClock,
    counters: ProfileCounters,
)
    requires
        !is_enabled(state, setting),
    ensures
        span_record(
            started_span(state, setting, now),
            later,
            operation,
            phase,
            exclusive,
            clock,
            counters,
        ) is None,
        initialized(state, setting, now as nat).process_started == state.process_started,
{
}

} // verus!
