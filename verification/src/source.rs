//! The time source: the loop that polls the button, fetches the time from
//! the network when the button is pressed, sets the real-time clock, and
//! hands the clock's reading to the display.
//!
//! Before the loop starts, a real-time clock that is not running is set to
//! a fixed date.
//!
//! The loop is a state machine. The caller performs the action of the
//! current phase (polls the button, runs the fetch, writes a report, waits,
//! sets or reads the clock, stores a reading) and hands back what came of
//! it as an event; the machine answers with the next action. The machine
//! itself never waits and never touches a device.

use crate::clock::{
    clock_setting, clock_setting_of, encode_time, startup_date, startup_datetime, time_value,
    ClockError, DateTime,
};
use crate::diagnostic::FetchStage;
use vstd::prelude::*;

verus! {

/// How long the time source waits after a failed fetch, in milliseconds.
pub const BACKOFF_MILLIS: u64 = 5_000;

/// How long the time source waits between two polls of the button, in
/// milliseconds.
pub const POLL_MILLIS: u64 = 200;

/// Where the time source stands: what it has asked for and not yet heard
/// of.
#[derive(Clone, Copy, Debug, PartialEq, Eq, Structural)]
pub enum Phase {
    /// The time source has started and asks whether the real-time clock is
    /// running.
    Starting,
    /// The real-time clock was not running and is being set to `date`.
    Presetting { date: DateTime },
    /// The button is being polled.
    Polling,
    /// A time fetch is under way.
    Fetching,
    /// The failure of a fetch at `stage` is being reported.
    Reporting { stage: FetchStage },
    /// The wait after a failed fetch is running.
    BackingOff,
    /// The real-time clock is being set to `date`.
    Setting { date: DateTime },
    /// The real-time clock is being read.
    Reading,
    /// The reading `value` is being stored in the shared register.
    Storing { value: u16 },
    /// The wait before the next poll is running.
    Waiting,
    /// A fetched time stamp could not set the clock. The time source has
    /// stopped for good.
    Halted { error: ClockError },
}

/// What the caller is to do next.
#[derive(Clone, Copy, Debug, PartialEq, Eq, Structural)]
pub enum Action {
    /// Find out whether the real-time clock is running; answer with
    /// [`Event::ClockState`].
    CheckClock,
    /// Poll the button; answer with [`Event::Button`].
    PollButton,
    /// Fetch the time from the network; answer with [`Event::Fetched`] or
    /// [`Event::FetchFailed`].
    Fetch,
    /// Write the diagnostic line of `stage` to the debug serial channel;
    /// answer with [`Event::Done`].
    Report { stage: FetchStage },
    /// Wait for `millis` milliseconds; answer with [`Event::Done`].
    Wait { millis: u64 },
    /// Set the real-time clock to `date`; answer with [`Event::Done`].
    SetClock { date: DateTime },
    /// Read the real-time clock; answer with [`Event::Clock`] or
    /// [`Event::NoClock`].
    ReadClock,
    /// Store `value` in the shared register; answer with [`Event::Done`].
    Store { value: u16 },
    /// Stop: `error` is fatal.
    Halt { error: ClockError },
}

/// What came of the last action.
#[derive(Clone, Copy, Debug, PartialEq, Eq, Structural)]
pub enum Event {
    /// The real-time clock was asked; `running` says whether it runs.
    ClockState { running: bool },
    /// The button was polled; `pressed` says whether it is held down.
    Button { pressed: bool },
    /// The fetch failed at `stage`.
    FetchFailed { stage: FetchStage },
    /// The fetch gave the time stamp `epoch_secs`, in whole seconds from
    /// the Unix epoch in UTC.
    Fetched { epoch_secs: i64 },
    /// The real-time clock was read and gave `hour` and `minute`.
    Clock { hour: u8, minute: u8 },
    /// The real-time clock was read and gave no time.
    NoClock,
    /// The action is done.
    Done,
}

/// The action that the caller performs while the time source is in
/// `phase`.
pub open spec fn action_of(phase: Phase) -> Action {
    match phase {
        Phase::Starting => Action::CheckClock,
        Phase::Presetting { date } => Action::SetClock { date },
        Phase::Polling => Action::PollButton,
        Phase::Fetching => Action::Fetch,
        Phase::Reporting { stage } => Action::Report { stage },
        Phase::BackingOff => Action::Wait { millis: BACKOFF_MILLIS },
        Phase::Setting { date } => Action::SetClock { date },
        Phase::Reading => Action::ReadClock,
        Phase::Storing { value } => Action::Store { value },
        Phase::Waiting => Action::Wait { millis: POLL_MILLIS },
        Phase::Halted { error } => Action::Halt { error },
    }
}

/// The phase that follows `phase` on `event`.
///
/// At startup a clock that runs is left alone, and one that does not is
/// set to the startup date; then the button is polled for the first time.
/// A pressed button starts a fetch; a released one goes on to read the
/// clock. A failed fetch is reported and followed by the backoff wait,
/// after which the button is polled again: the clock is neither set nor
/// read, and nothing is stored. A fetched time stamp sets the clock, or
/// halts the time source where it cannot. After the clock is set it is
/// read; a reading is stored, and the poll wait follows. An event that does
/// not answer the action of the phase leaves the phase as it is.
pub open spec fn next_phase(phase: Phase, event: Event) -> Phase {
    match (phase, event) {
        (Phase::Starting, Event::ClockState { running }) => if running {
            Phase::Polling
        } else {
            Phase::Presetting { date: startup_date() }
        },
        (Phase::Presetting { date }, Event::Done) => Phase::Polling,
        (Phase::Polling, Event::Button { pressed }) => if pressed {
            Phase::Fetching
        } else {
            Phase::Reading
        },
        (Phase::Fetching, Event::FetchFailed { stage }) => Phase::Reporting { stage },
        (Phase::Fetching, Event::Fetched { epoch_secs }) => match clock_setting_of(epoch_secs) {
            Ok(date) => Phase::Setting { date },
            Err(error) => Phase::Halted { error },
        },
        (Phase::Reporting { stage }, Event::Done) => Phase::BackingOff,
        (Phase::BackingOff, Event::Done) => Phase::Polling,
        (Phase::Setting { date }, Event::Done) => Phase::Reading,
        (Phase::Reading, Event::Clock { hour, minute }) => Phase::Storing {
            value: time_value(hour, minute) as u16,
        },
        (Phase::Reading, Event::NoClock) => Phase::Waiting,
        (Phase::Storing { value }, Event::Done) => Phase::Waiting,
        (Phase::Waiting, Event::Done) => Phase::Polling,
        _ => phase,
    }
}

/// The time source.
pub struct TimeSource {
    phase: Phase,
}

impl TimeSource {
    /// The phase that the time source is in.
    pub closed spec fn view(&self) -> Phase {
        self.phase
    }

    /// A time source at startup.
    pub fn new() -> (source: Self)
        ensures
            source@ == Phase::Starting,
    {
        TimeSource { phase: Phase::Starting }
    }

    /// The phase that the time source is in.
    pub fn phase(&self) -> (phase: Phase)
        ensures
            phase == self@,
    {
        self.phase
    }

    /// The action that the caller is to perform now.
    pub fn action(&self) -> (action: Action)
        ensures
            action == action_of(self@),
    {
        match self.phase {
            Phase::Starting => Action::CheckClock,
            Phase::Presetting { date } => Action::SetClock { date },
            Phase::Polling => Action::PollButton,
            Phase::Fetching => Action::Fetch,
            Phase::Reporting { stage } => Action::Report { stage },
            Phase::BackingOff => Action::Wait { millis: BACKOFF_MILLIS },
            Phase::Setting { date } => Action::SetClock { date },
            Phase::Reading => Action::ReadClock,
            Phase::Storing { value } => Action::Store { value },
            Phase::Waiting => Action::Wait { millis: POLL_MILLIS },
            Phase::Halted { error } => Action::Halt { error },
        }
    }

    /// Takes in what came of the last action, moves to the next phase and
    /// returns the action to perform next.
    pub fn step(&mut self, event: Event) -> (action: Action)
        ensures
            final(self)@ == next_phase(old(self)@, event),
            action == action_of(final(self)@),
    {
        let next = match (self.phase, event) {
            (Phase::Starting, Event::ClockState { running }) => {
                if running {
                    Phase::Polling
                } else {
                    Phase::Presetting { date: startup_datetime() }
                }
            },
            (Phase::Presetting { date: _ }, Event::Done) => Phase::Polling,
            (Phase::Polling, Event::Button { pressed }) => {
                if pressed {
                    Phase::Fetching
                } else {
                    Phase::Reading
                }
            },
            (Phase::Fetching, Event::FetchFailed { stage }) => Phase::Reporting { stage },
            (Phase::Fetching, Event::Fetched { epoch_secs }) => {
                match clock_setting(epoch_secs) {
                    Ok(date) => Phase::Setting { date },
                    Err(error) => Phase::Halted { error },
                }
            },
            (Phase::Reporting { stage: _ }, Event::Done) => Phase::BackingOff,
            (Phase::BackingOff, Event::Done) => Phase::Polling,
            (Phase::Setting { date: _ }, Event::Done) => Phase::Reading,
            (Phase::Reading, Event::Clock { hour, minute }) => Phase::Storing {
                value: encode_time(hour, minute),
            },
            (Phase::Reading, Event::NoClock) => Phase::Waiting,
            (Phase::Storing { value: _ }, Event::Done) => Phase::Waiting,
            (Phase::Waiting, Event::Done) => Phase::Polling,
            (phase, _) => phase,
        };
        self.phase = next;
        self.action()
    }
}

/// Whether `event` is an answer to `action`.
pub open spec fn answers(action: Action, event: Event) -> bool {
    match action {
        Action::CheckClock => event is ClockState,
        Action::PollButton => event is Button,
        Action::Fetch => event is Fetched || event is FetchFailed,
        Action::ReadClock => event is Clock || event is NoClock,
        Action::Report { stage } => event is Done,
        Action::Wait { millis } => event is Done,
        Action::SetClock { date } => event is Done,
        Action::Store { value } => event is Done,
        Action::Halt { error } => false,
    }
}

/// The largest number of actions that the time source still asks for in
/// `phase` before it polls the button again, the action of `phase`
/// included.
pub open spec fn actions_left(phase: Phase) -> nat {
    match phase {
        Phase::Starting => 2,
        Phase::Presetting { date } => 1,
        Phase::Polling => 6,
        Phase::Fetching => 5,
        Phase::Setting { date } => 4,
        Phase::Reading => 3,
        Phase::Storing { value } => 2,
        Phase::Reporting { stage } => 2,
        Phase::BackingOff => 1,
        Phase::Waiting => 1,
        Phase::Halted { error } => 0,
    }
}

/// The time source moves on exactly on the events that answer its action.
/// Each answer brings it closer to the next poll of the button, which it
/// reaches after at most six actions, or halts it; any other event leaves
/// it where it is.
pub proof fn answers_make_progress(phase: Phase, event: Event)
    ensures
        !answers(action_of(phase), event) ==> next_phase(phase, event) == phase,
        answers(action_of(phase), event) ==> {
            let next = next_phase(phase, event);
            ||| next is Halted
            ||| next == Phase::Polling && actions_left(phase) <= 2
            ||| next != Phase::Polling && actions_left(next) < actions_left(phase)
        },
{
}

/// Whether the action sets the clock or stores a reading.
pub open spec fn touches_time(action: Action) -> bool {
    action is SetClock || action is Store
}

/// A fetch that fails, at whatever stage, is answered by the report of
/// that stage, then by the backoff wait, then by the next poll of the
/// button. None of these actions sets the clock or stores a reading.
pub proof fn failed_fetch_leaves_time_alone(stage: FetchStage)
    ensures
        ({
            let reporting = next_phase(Phase::Fetching, Event::FetchFailed { stage });
            let backing_off = next_phase(reporting, Event::Done);
            let polling = next_phase(backing_off, Event::Done);
            &&& action_of(reporting) == (Action::Report { stage })
            &&& action_of(backing_off) == (Action::Wait { millis: BACKOFF_MILLIS })
            &&& polling == Phase::Polling
            &&& !touches_time(action_of(reporting))
            &&& !touches_time(action_of(backing_off))
            &&& !touches_time(action_of(polling))
        }),
{
}

/// Only a reading of the real-time clock is ever stored: where an event
/// leads to a store, the event is a clock reading and the value stored is
/// the reading of its hour and minute.
pub proof fn stores_only_clock_readings(phase: Phase, event: Event)
    requires
        next_phase(phase, event) != phase,
        next_phase(phase, event) is Storing,
    ensures
        phase == Phase::Reading,
        event is Clock,
        next_phase(phase, event)->value == time_value(event->hour, event->minute),
{
}

/// After startup the clock is set only to a date and time that it takes,
/// and only for a time stamp that a fetch gave.
pub proof fn sets_only_valid_dates(phase: Phase, event: Event)
    requires
        next_phase(phase, event) != phase,
        next_phase(phase, event) is Setting,
    ensures
        phase == Phase::Fetching,
        event is Fetched,
        clock_setting_of(event->epoch_secs) == Ok::<DateTime, ClockError>(
            next_phase(phase, event)->Setting_date,
        ),
        next_phase(phase, event)->Setting_date.is_valid(),
{
}

} // verus!
