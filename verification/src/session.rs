//! One decode pass as a state machine over the terminal collaborator.
//!
//! The decoder's only side effects — toggling raw mode and reading bytes —
//! are performed by the host, which asks the machine what to do next
//! (`next_action`), performs it, and reports what happened (`step`). All
//! decisions, including the two-stage escape disambiguation and the
//! acquire/read/release discipline for raw mode, live here and are verified;
//! `raw_on` models whether the pass currently holds the terminal in raw mode.

use vstd::prelude::*;

verus! {

use crate::input::Key;
use crate::input::arrow_of;
use crate::input::classify;
use crate::input::outcome;

/// What the host must do next to advance a decode pass.
#[derive(Clone, Copy, Debug, PartialEq, Eq, Structural)]
pub enum Action {
    /// Enable the terminal's raw mode.
    EnableRaw,
    /// Read exactly one byte from standard input.
    ReadByte,
    /// Read exactly two bytes from standard input.
    ReadPair,
    /// Disable the terminal's raw mode again.
    DisableRaw,
    /// The pass is over; hand its result to the caller.
    Finish,
}

/// The host's report of what its last action produced.
#[derive(Clone, Copy, Debug, PartialEq, Eq, Structural)]
pub enum Event {
    /// Raw mode was enabled.
    Enabled,
    /// Raw mode was disabled.
    Disabled,
    /// The one-byte read returned this byte.
    GotByte(u8),
    /// The two-byte read returned these bytes.
    GotPair(u8, u8),
    /// The action failed with an I/O error.
    IoError,
}

/// Where a decode pass stands.
#[derive(Clone, Copy, Debug, PartialEq, Eq, Structural)]
pub enum Phase {
    /// Nothing done yet; raw mode must be enabled for the first read.
    Begin,
    /// Raw mode held; awaiting the single lead byte.
    AwaitFirst,
    /// Lead byte in hand; raw mode must be released before classifying.
    SettleFirst(u8),
    /// The lead byte was the escape marker; raw mode must be re-enabled
    /// for the two-byte follow-up read.
    Resume,
    /// Raw mode held again; awaiting the two follow-up bytes.
    AwaitSecond,
    /// Follow-up bytes in hand; raw mode must be released. Only the second
    /// byte will be inspected.
    SettleSecond(u8, u8),
    /// A read failed while raw mode was held; release it, then fail.
    SettleFailed,
    /// The pass produced this key.
    Done(Key),
    /// The pass failed with an I/O error, to be propagated unchanged.
    Failed,
}

/// One decode pass. A value type: each pass starts from `Decoder::new()`
/// and shares nothing with any other pass.
#[derive(Clone, Copy, Debug, PartialEq, Eq, Structural)]
pub struct Decoder {
    /// Where the pass stands.
    pub phase: Phase,
    /// Whether the pass currently holds the terminal in raw mode.
    pub raw_on: bool,
}

/// The state every pass starts from: nothing read, raw mode not held.
pub open spec fn initial() -> Decoder {
    Decoder { phase: Phase::Begin, raw_on: false }
}

/// The action each phase calls for.
pub open spec fn action_of(p: Phase) -> Action {
    match p {
        Phase::Begin => Action::EnableRaw,
        Phase::AwaitFirst => Action::ReadByte,
        Phase::SettleFirst(_) => Action::DisableRaw,
        Phase::Resume => Action::EnableRaw,
        Phase::AwaitSecond => Action::ReadPair,
        Phase::SettleSecond(_, _) => Action::DisableRaw,
        Phase::SettleFailed => Action::DisableRaw,
        Phase::Done(_) => Action::Finish,
        Phase::Failed => Action::Finish,
    }
}

/// The transition relation: how a pass advances on the host's report.
/// An I/O failure during a read still routes through `SettleFailed`, so
/// that raw mode is released on that exit path too; an event that does not
/// answer the pending action leaves the pass unchanged.
pub open spec fn spec_step(d: Decoder, e: Event) -> Decoder {
    match (d.phase, e) {
        (Phase::Begin, Event::Enabled) => Decoder { phase: Phase::AwaitFirst, raw_on: true },
        (Phase::Begin, Event::IoError) => Decoder { phase: Phase::Failed, ..d },
        (Phase::AwaitFirst, Event::GotByte(b)) => Decoder { phase: Phase::SettleFirst(b), ..d },
        (Phase::AwaitFirst, Event::IoError) => Decoder { phase: Phase::SettleFailed, ..d },
        (Phase::SettleFirst(b), Event::Disabled) => Decoder {
            phase: if classify(b) == Key::Escape {
                Phase::Resume
            } else {
                Phase::Done(classify(b))
            },
            raw_on: false,
        },
        (Phase::SettleFirst(_), Event::IoError) => Decoder { phase: Phase::Failed, ..d },
        (Phase::Resume, Event::Enabled) => Decoder { phase: Phase::AwaitSecond, raw_on: true },
        (Phase::Resume, Event::IoError) => Decoder { phase: Phase::Failed, ..d },
        (Phase::AwaitSecond, Event::GotPair(b0, b1)) => Decoder {
            phase: Phase::SettleSecond(b0, b1),
            ..d
        },
        (Phase::AwaitSecond, Event::IoError) => Decoder { phase: Phase::SettleFailed, ..d },
        (Phase::SettleSecond(_, b1), Event::Disabled) => Decoder {
            phase: Phase::Done(arrow_of(b1)),
            raw_on: false,
        },
        (Phase::SettleSecond(_, _), Event::IoError) => Decoder { phase: Phase::Failed, ..d },
        (Phase::SettleFailed, Event::Disabled) => Decoder { phase: Phase::Failed, raw_on: false },
        (Phase::SettleFailed, Event::IoError) => Decoder { phase: Phase::Failed, ..d },
        _ => d,
    }
}

impl Decoder {
    /// A fresh pass.
    pub fn new() -> (d: Decoder)
        ensures
            d == initial(),
    {
        Decoder { phase: Phase::Begin, raw_on: false }
    }

    /// The next action the host should perform for this pass.
    pub fn next_action(&self) -> (a: Action)
        ensures
            a == action_of(self.phase),
    {
        match self.phase {
            Phase::Begin => Action::EnableRaw,
            Phase::AwaitFirst => Action::ReadByte,
            Phase::SettleFirst(_) => Action::DisableRaw,
            Phase::Resume => Action::EnableRaw,
            Phase::AwaitSecond => Action::ReadPair,
            Phase::SettleSecond(_, _) => Action::DisableRaw,
            Phase::SettleFailed => Action::DisableRaw,
            Phase::Done(_) => Action::Finish,
            Phase::Failed => Action::Finish,
        }
    }

    /// Advance the pass by the host's report of what its action produced.
    pub fn step(self, e: Event) -> (d: Decoder)
        ensures
            d == spec_step(self, e),
    {
        match (self.phase, e) {
            (Phase::Begin, Event::Enabled) => Decoder {
                phase: Phase::AwaitFirst,
                raw_on: true,
            },
            (Phase::Begin, Event::IoError) => Decoder { phase: Phase::Failed, ..self },
            (Phase::AwaitFirst, Event::GotByte(b)) => Decoder {
                phase: Phase::SettleFirst(b),
                ..self
            },
            (Phase::AwaitFirst, Event::IoError) => Decoder {
                phase: Phase::SettleFailed,
                ..self
            },
            (Phase::SettleFirst(b), Event::Disabled) => {
                let k = crate::input::decode(b);
                Decoder {
                    phase: if k == Key::Escape {
                        Phase::Resume
                    } else {
                        Phase::Done(k)
                    },
                    raw_on: false,
                }
            },
            (Phase::SettleFirst(_), Event::IoError) => Decoder { phase: Phase::Failed, ..self },
            (Phase::Resume, Event::Enabled) => Decoder {
                phase: Phase::AwaitSecond,
                raw_on: true,
            },
            (Phase::Resume, Event::IoError) => Decoder { phase: Phase::Failed, ..self },
            (Phase::AwaitSecond, Event::GotPair(b0, b1)) => Decoder {
                phase: Phase::SettleSecond(b0, b1),
                ..self
            },
            (Phase::AwaitSecond, Event::IoError) => Decoder {
                phase: Phase::SettleFailed,
                ..self
            },
            (Phase::SettleSecond(b0, b1), Event::Disabled) => Decoder {
                phase: Phase::Done(crate::input::decode_arrow(b0, b1)),
                raw_on: false,
            },
            (Phase::SettleSecond(_, _), Event::IoError) => Decoder { phase: Phase::Failed, ..self },
            (Phase::SettleFailed, Event::Disabled) => Decoder {
                phase: Phase::Failed,
                raw_on: false,
            },
            (Phase::SettleFailed, Event::IoError) => Decoder { phase: Phase::Failed, ..self },
            _ => self,
        }
    }
}

/// The pass a fresh decoder reaches after the host reports `events`, in order.
pub open spec fn run(events: Seq<Event>) -> Decoder
    decreases events.len(),
{
    if events.len() == 0 {
        initial()
    } else {
        spec_step(run(events.drop_last()), events.last())
    }
}

/// The phases during which the pass holds the terminal in raw mode.
pub open spec fn holds_raw(p: Phase) -> bool {
    match p {
        Phase::AwaitFirst => true,
        Phase::SettleFirst(_) => true,
        Phase::AwaitSecond => true,
        Phase::SettleSecond(_, _) => true,
        Phase::SettleFailed => true,
        _ => false,
    }
}

/// The raw-mode model agrees with the phase: raw mode is held exactly
/// between a successful enable and the release that follows it. After a
/// failure the pass makes no further claim, since the failing toggle may
/// have been the release itself.
pub open spec fn raw_mode_consistent(d: Decoder) -> bool {
    d.phase != Phase::Failed ==> d.raw_on == holds_raw(d.phase)
}

/// True when no attempt to leave raw mode failed during the run.
pub open spec fn disable_never_failed(events: Seq<Event>) -> bool
    decreases events.len(),
{
    if events.len() == 0 {
        true
    } else {
        disable_never_failed(events.drop_last()) && !(action_of(
            run(events.drop_last()).phase,
        ) == Action::DisableRaw && events.last() == Event::IoError)
    }
}

/// Every single step keeps the raw-mode model consistent with the phase.
pub proof fn lemma_step_preserves_consistency(d: Decoder, e: Event)
    requires
        raw_mode_consistent(d),
    ensures
        raw_mode_consistent(spec_step(d, e)),
{
}

/// Raw mode is never left enabled after a pass ends: whenever a pass
/// reaches `Done`, raw mode has been released, on every event sequence the
/// host could report; and a pass that ends in `Failed` has released it too,
/// provided no release attempt itself failed (the one exit this machine
/// cannot mend, since the failing operation was the release).
pub proof fn lemma_raw_mode_released(events: Seq<Event>)
    ensures
        raw_mode_consistent(run(events)),
        run(events).phase matches Phase::Done(_) ==> !run(events).raw_on,
        disable_never_failed(events) && run(events).phase == Phase::Failed ==> !run(
            events,
        ).raw_on,
    decreases events.len(),
{
    if events.len() > 0 {
        lemma_raw_mode_released(events.drop_last());
        lemma_step_preserves_consistency(run(events.drop_last()), events.last());
    }
}

/// Appending one report to a run advances it by exactly one step.
pub proof fn lemma_run_push(events: Seq<Event>, e: Event)
    ensures
        run(events.push(e)) == spec_step(run(events), e),
{
    assert(events.push(e).drop_last() =~= events);
}

/// The reports of one complete, failure-free pass whose first byte is
/// `first`: enable, read the lead byte, disable — and, when the lead byte
/// opens an escape sequence, enable, read the two follow-up bytes, disable.
pub open spec fn pass_events(first: u8, b0: u8, b1: u8) -> Seq<Event> {
    if classify(first) == Key::Escape {
        seq![
            Event::Enabled,
            Event::GotByte(first),
            Event::Disabled,
            Event::Enabled,
            Event::GotPair(b0, b1),
            Event::Disabled,
        ]
    } else {
        seq![Event::Enabled, Event::GotByte(first), Event::Disabled]
    }
}

/// Decoding is stateless: a complete pass starts from the fixed initial
/// state, so its result is a function of the bytes read during that pass
/// alone — `outcome(first, b1)` — and two passes fed the same bytes yield
/// the same key. The pass ends with raw mode released.
pub proof fn lemma_pass_stateless(first: u8, b0: u8, b1: u8)
    ensures
        run(pass_events(first, b0, b1)).phase == Phase::Done(outcome(first, b1)),
        !run(pass_events(first, b0, b1)).raw_on,
{
    let s0 = Seq::<Event>::empty();
    let s1 = s0.push(Event::Enabled);
    let s2 = s1.push(Event::GotByte(first));
    let s3 = s2.push(Event::Disabled);
    lemma_run_push(s0, Event::Enabled);
    lemma_run_push(s1, Event::GotByte(first));
    lemma_run_push(s2, Event::Disabled);
    if classify(first) == Key::Escape {
        let s4 = s3.push(Event::Enabled);
        let s5 = s4.push(Event::GotPair(b0, b1));
        let s6 = s5.push(Event::Disabled);
        lemma_run_push(s3, Event::Enabled);
        lemma_run_push(s4, Event::GotPair(b0, b1));
        lemma_run_push(s5, Event::Disabled);
        assert(pass_events(first, b0, b1) =~= s6);
    } else {
        assert(pass_events(first, b0, b1) =~= s3);
    }
}

} // verus!
