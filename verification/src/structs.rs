//! Durations split in days to milliseconds, the messages raised for the
//! operator, and the phases and timers of a running motor.

use vstd::prelude::*;
use vstd::string::StringExecFns;
use crate::enums::{Direction, StepperState};
use crate::graph::Axis;

verus! {

/// Milliseconds in one second.
pub const MS_PER_SECOND: u64 = 1_000;

/// Milliseconds in one minute.
pub const MS_PER_MINUTE: u64 = 60_000;

/// Milliseconds in one hour.
pub const MS_PER_HOUR: u64 = 3_600_000;

/// Milliseconds in one day.
pub const MS_PER_DAY: u64 = 86_400_000;

/// The character of a decimal digit.
pub open spec fn digit_char(digit: nat) -> char {
    if digit == 0 {
        '0'
    } else if digit == 1 {
        '1'
    } else if digit == 2 {
        '2'
    } else if digit == 3 {
        '3'
    } else if digit == 4 {
        '4'
    } else if digit == 5 {
        '5'
    } else if digit == 6 {
        '6'
    } else if digit == 7 {
        '7'
    } else if digit == 8 {
        '8'
    } else {
        '9'
    }
}

/// A number written in decimal digits, without leading zeros.
pub open spec fn decimal_text(n: nat) -> Seq<char>
    decreases n,
{
    if n < 10 {
        seq![digit_char(n)]
    } else {
        decimal_text(n / 10).push(digit_char(n % 10))
    }
}

fn digit_text(digit: u64) -> (text: &'static str)
    requires
        digit < 10,
    ensures
        text@ == seq![digit_char(digit as nat)],
{
    proof {
        reveal_strlit("0");
        reveal_strlit("1");
        reveal_strlit("2");
        reveal_strlit("3");
        reveal_strlit("4");
        reveal_strlit("5");
        reveal_strlit("6");
        reveal_strlit("7");
        reveal_strlit("8");
        reveal_strlit("9");
    }
    let text = match digit {
        0 => "0",
        1 => "1",
        2 => "2",
        3 => "3",
        4 => "4",
        5 => "5",
        6 => "6",
        7 => "7",
        8 => "8",
        _ => "9",
    };
    assert(text@ =~= seq![digit_char(digit as nat)]);
    text
}

/// Writes a number in decimal digits.
pub fn decimal(n: u64) -> (text: String)
    ensures
        text@ == decimal_text(n as nat),
    decreases n,
{
    if n < 10 {
        digit_text(n).to_owned()
    } else {
        let text = decimal(n / 10).concat(digit_text(n % 10));
        assert(text@ =~= decimal_text((n / 10) as nat).push(digit_char((n % 10) as nat)));
        text
    }
}

/// How a message is to be shown.
#[derive(Debug, Copy, Clone, PartialEq, Eq, Structural)]
pub enum MessageKind {
    Info,
    Warning,
    Error,
    Success,
}

/// Something to tell the operator.
#[derive(Debug, Clone)]
pub struct Message {
    pub kind: MessageKind,
    pub message: String,
    /// What went wrong underneath, for messages of kind `Error`.
    pub error: Option<String>,
    /// Name of the motor that the message is about.
    pub origin: Option<String>,
    /// Seconds for which the message should stay on screen.
    pub duration: u64,
    /// The message announces work in progress rather than an outcome.
    pub is_waiting: bool,
}

/// A message as contracts see it: its texts as sequences of characters.
pub struct MessageView {
    pub kind: MessageKind,
    pub message: Seq<char>,
    pub error: Option<Seq<char>>,
    pub origin: Option<Seq<char>>,
    pub duration: u64,
    pub is_waiting: bool,
}

/// The characters of a text that may be missing.
pub open spec fn text_of(text: Option<String>) -> Option<Seq<char>> {
    match text {
        Some(t) => Some(t@),
        None => None,
    }
}

impl View for Message {
    type V = MessageView;

    open spec fn view(&self) -> MessageView {
        MessageView {
            kind: self.kind,
            message: self.message@,
            error: text_of(self.error),
            origin: text_of(self.origin),
            duration: self.duration,
            is_waiting: self.is_waiting,
        }
    }
}

impl MessageView {
    /// The line shown for a message: the text, after the name of the motor
    /// where there is one, and for an error followed by its cause.
    pub open spec fn line(self) -> Seq<char> {
        let head = match self.origin {
            Some(origin) => origin + ": "@ + self.message,
            None => self.message,
        };
        match (self.kind, self.error) {
            (MessageKind::Error, Some(cause)) => head + " - "@ + cause,
            _ => head,
        }
    }
}

impl Message {
    /// The line shown for the message: the text, after the name of the
    /// motor where there is one, and for an error followed by its cause.
    pub fn line(&self) -> (text: String)
        ensures
            text@ == self@.line(),
    {
        let head = match &self.origin {
            Some(origin) => origin.clone().concat(": ").concat(self.message.as_str()),
            None => self.message.clone(),
        };
        match (&self.kind, &self.error) {
            (MessageKind::Error, Some(cause)) => head.concat(" - ").concat(cause.as_str()),
            _ => head,
        }
    }

    /// A message made of its parts.
    pub fn new(
        kind: MessageKind,
        message: &str,
        error: Option<String>,
        origin: Option<String>,
        duration: u64,
        is_waiting: bool,
    ) -> (m: Self)
        ensures
            m@ == (MessageView {
                kind,
                message: message@,
                error: text_of(error),
                origin: text_of(origin),
                duration,
                is_waiting,
            }),
    {
        Message { kind, message: message.to_owned(), error, origin, duration, is_waiting }
    }
}

/// Which dialogs are open.
#[derive(Debug, Copy, Clone, PartialEq, Eq, Structural)]
pub struct WindowsState {
    pub is_confirmation_dialog_open: bool,
    pub is_error_log_open: bool,
}

impl Default for WindowsState {
    fn default() -> (state: Self)
        ensures
            !state.is_confirmation_dialog_open,
            !state.is_error_log_open,
    {
        WindowsState { is_confirmation_dialog_open: false, is_error_log_open: false }
    }
}

/// A duration split in days, hours, minutes, seconds and milliseconds.
#[derive(Debug, Copy, Clone, PartialEq, Eq, Structural)]
pub struct DurationHelper {
    pub days: u64,
    pub hours: u64,
    pub minutes: u64,
    pub seconds: u64,
    pub milliseconds: u64,
}

impl DurationHelper {
    /// The whole duration in milliseconds.
    pub open spec fn total_ms(self) -> nat {
        (self.days * MS_PER_DAY + self.hours * MS_PER_HOUR + self.minutes * MS_PER_MINUTE
            + self.seconds * MS_PER_SECOND + self.milliseconds) as nat
    }

    /// Every part but the days is below one unit of the next larger part.
    pub open spec fn reduced(self) -> bool {
        self.hours < 24 && self.minutes < 60 && self.seconds < 60 && self.milliseconds < 1000
    }

    /// The reduced split of a number of milliseconds.
    pub open spec fn split(milliseconds: u64) -> DurationHelper {
        DurationHelper {
            days: milliseconds / MS_PER_DAY,
            hours: milliseconds % MS_PER_DAY / MS_PER_HOUR,
            minutes: milliseconds % MS_PER_HOUR / MS_PER_MINUTE,
            seconds: milliseconds % MS_PER_MINUTE / MS_PER_SECOND,
            milliseconds: milliseconds % MS_PER_SECOND,
        }
    }

    /// The duration in words, such as `1d 2h 3min 4s 5ms`.
    pub open spec fn label_text(self) -> Seq<char> {
        decimal_text(self.days as nat) + "d "@ + decimal_text(self.hours as nat) + "h "@
            + decimal_text(self.minutes as nat) + "min "@ + decimal_text(self.seconds as nat)
            + "s "@ + decimal_text(self.milliseconds as nat) + "ms"@
    }

    /// The duration in words, such as `1d 2h 3min 4s 5ms`.
    pub fn label(&self) -> (text: String)
        ensures
            text@ == self.label_text(),
    {
        let text = decimal(self.days).concat("d ");
        let text = text.concat(decimal(self.hours).as_str()).concat("h ");
        let text = text.concat(decimal(self.minutes).as_str()).concat("min ");
        let text = text.concat(decimal(self.seconds).as_str()).concat("s ");
        text.concat(decimal(self.milliseconds).as_str()).concat("ms")
    }

    /// The whole duration in milliseconds, held at `u64::MAX` where it would
    /// not fit.
    pub fn to_milliseconds(&self) -> (ms: u64)
        ensures
            ms as nat == if self.total_ms() <= u64::MAX {
                self.total_ms()
            } else {
                u64::MAX as nat
            },
    {
        let days: u128 = self.days as u128 * 86_400_000;
        let hours: u128 = self.hours as u128 * 3_600_000;
        let minutes: u128 = self.minutes as u128 * 60_000;
        let seconds: u128 = self.seconds as u128 * 1_000;
        let total: u128 = days + hours + minutes + seconds + self.milliseconds as u128;
        if total > u64::MAX as u128 {
            u64::MAX
        } else {
            total as u64
        }
    }

    /// Replaces the duration by the reduced split of a number of
    /// milliseconds.
    pub fn self_from_milliseconds(&mut self, milliseconds: u64)
        ensures
            *final(self) == DurationHelper::split(milliseconds),
    {
        self.days = milliseconds / MS_PER_DAY;
        self.hours = milliseconds % MS_PER_DAY / MS_PER_HOUR;
        self.minutes = milliseconds % MS_PER_HOUR / MS_PER_MINUTE;
        self.seconds = milliseconds % MS_PER_MINUTE / MS_PER_SECOND;
        self.milliseconds = milliseconds % MS_PER_SECOND;
    }

    /// The reduced split of a number of milliseconds.
    pub fn new_from_milliseconds(milliseconds: u64) -> (duration: Self)
        ensures
            duration == DurationHelper::split(milliseconds),
    {
        let mut duration_helper = DurationHelper::default();
        duration_helper.self_from_milliseconds(milliseconds);
        duration_helper
    }
}

impl Default for DurationHelper {
    fn default() -> (duration: Self)
        ensures
            duration == DurationHelper::split(0),
    {
        DurationHelper { days: 0, hours: 0, minutes: 0, seconds: 0, milliseconds: 0 }
    }
}

/// Splitting a number of milliseconds loses nothing: the split is reduced and
/// adds up to the number again.
pub proof fn lemma_split_adds_up(milliseconds: u64)
    ensures
        DurationHelper::split(milliseconds).reduced(),
        DurationHelper::split(milliseconds).total_ms() == milliseconds,
{
    let ms = milliseconds as int;
    let d = ms / 86_400_000;
    let in_day = ms % 86_400_000;
    let h = in_day / 3_600_000;
    let in_hour = in_day % 3_600_000;
    let m = in_hour / 60_000;
    let in_minute = in_hour % 60_000;
    let s = in_minute / 1_000;
    assert(ms % 3_600_000 == in_hour);
    assert(ms % 60_000 == in_minute);
    assert(ms % 1_000 == in_minute % 1_000);
}

/// A reduced duration is the split of its own total.
pub proof fn lemma_reduced_is_split(duration: DurationHelper)
    requires
        duration.reduced(),
        duration.total_ms() <= u64::MAX,
    ensures
        DurationHelper::split(duration.total_ms() as u64) == duration,
{
    let ms = duration.total_ms() as int;
    let low = duration.hours * 3_600_000 + duration.minutes * 60_000 + duration.seconds * 1_000
        + duration.milliseconds;
    assert(0 <= low < 86_400_000);
    assert(ms == duration.days * 86_400_000 + low);
    assert(ms / 86_400_000 == duration.days && ms % 86_400_000 == low) by {
        vstd::arithmetic::div_mod::lemma_fundamental_div_mod_converse(
            ms,
            86_400_000,
            duration.days as int,
            low,
        );
    }
    let low2 = duration.minutes * 60_000 + duration.seconds * 1_000 + duration.milliseconds;
    assert(low / 3_600_000 == duration.hours && low % 3_600_000 == low2) by {
        vstd::arithmetic::div_mod::lemma_fundamental_div_mod_converse(
            low,
            3_600_000,
            duration.hours as int,
            low2,
        );
    }
    assert(ms % 3_600_000 == low2) by {
        vstd::arithmetic::div_mod::lemma_fundamental_div_mod_converse(
            ms,
            3_600_000,
            duration.days * 24 + duration.hours,
            low2,
        );
    }
    let low3 = duration.seconds * 1_000 + duration.milliseconds;
    assert(low2 / 60_000 == duration.minutes && low2 % 60_000 == low3) by {
        vstd::arithmetic::div_mod::lemma_fundamental_div_mod_converse(
            low2,
            60_000,
            duration.minutes as int,
            low3,
        );
    }
    assert(ms % 60_000 == low3) by {
        vstd::arithmetic::div_mod::lemma_fundamental_div_mod_converse(
            ms,
            60_000,
            duration.days * 1_440 + duration.hours * 60 + duration.minutes,
            low3,
        );
    }
    assert(low3 / 1_000 == duration.seconds && low3 % 1_000 == duration.milliseconds) by {
        vstd::arithmetic::div_mod::lemma_fundamental_div_mod_converse(
            low3,
            1_000,
            duration.seconds as int,
            duration.milliseconds as int,
        );
    }
    assert(ms % 1_000 == duration.milliseconds) by {
        vstd::arithmetic::div_mod::lemma_fundamental_div_mod_converse(
            ms,
            1_000,
            duration.days * 86_400 + duration.hours * 3_600 + duration.minutes * 60
                + duration.seconds,
            duration.milliseconds as int,
        );
    }
}

/// The durations of a protocol as they are edited, one split per field.
#[derive(Debug, Copy, Clone, PartialEq, Eq, Structural)]
pub struct Durations {
    pub duration_of_one_direction_cycle_rotation: DurationHelper,
    pub pause_before_direction_change_rotation: DurationHelper,
    pub rotation_duration: DurationHelper,
    pub pause_pre_agitation: DurationHelper,
    pub duration_of_one_direction_cycle_agitation: DurationHelper,
    pub pause_before_direction_change_agitation: DurationHelper,
    pub agitation_duration: DurationHelper,
    pub pause_post_agitation: DurationHelper,
    pub global_duration: DurationHelper,
}

impl Default for Durations {
    fn default() -> (durations: Self)
        ensures
            durations.duration_of_one_direction_cycle_rotation == DurationHelper::split(0),
            durations.pause_before_direction_change_rotation == DurationHelper::split(0),
            durations.rotation_duration == DurationHelper::split(0),
            durations.pause_pre_agitation == DurationHelper::split(0),
            durations.duration_of_one_direction_cycle_agitation == DurationHelper::split(0),
            durations.pause_before_direction_change_agitation == DurationHelper::split(0),
            durations.agitation_duration == DurationHelper::split(0),
            durations.pause_post_agitation == DurationHelper::split(0),
            durations.global_duration == DurationHelper::split(0),
    {
        Durations {
            duration_of_one_direction_cycle_rotation: DurationHelper::default(),
            pause_before_direction_change_rotation: DurationHelper::default(),
            rotation_duration: DurationHelper::default(),
            pause_pre_agitation: DurationHelper::default(),
            duration_of_one_direction_cycle_agitation: DurationHelper::default(),
            pause_before_direction_change_agitation: DurationHelper::default(),
            agitation_duration: DurationHelper::default(),
            pause_post_agitation: DurationHelper::default(),
            global_duration: DurationHelper::default(),
        }
    }
}

/// Steps that each axis makes in one direction cycle, as counted while its
/// speed curve was last computed.
#[derive(Debug, Copy, Clone, PartialEq, Eq, Structural)]
pub struct StepsCycle {
    pub steps_per_direction_cycle_rotation: u64,
    pub steps_per_direction_cycle_agitation: u64,
}

impl StepsCycle {
    /// No step counted on either axis.
    pub open spec fn none() -> StepsCycle {
        StepsCycle { steps_per_direction_cycle_rotation: 0, steps_per_direction_cycle_agitation: 0 }
    }

    /// The counts with that of one axis replaced.
    pub open spec fn with_steps(self, axis: Axis, steps: u64) -> StepsCycle {
        match axis {
            Axis::Rotation => StepsCycle { steps_per_direction_cycle_rotation: steps, ..self },
            Axis::Agitation => StepsCycle { steps_per_direction_cycle_agitation: steps, ..self },
        }
    }
}

impl Default for StepsCycle {
    fn default() -> (steps: Self)
        ensures
            steps == StepsCycle::none(),
    {
        StepsCycle { steps_per_direction_cycle_rotation: 0, steps_per_direction_cycle_agitation: 0 }
    }
}

/// Phases, directions and timers of one motor. Times are milliseconds on a
/// clock that never runs backwards; the caller reads it.
#[derive(Debug, Copy, Clone, PartialEq, Eq, Structural)]
pub struct TimersAndPhases {
    /// When the current run began.
    pub global_start_time: Option<u64>,
    /// How long the last run had lasted when it ended.
    pub global_stop_time_ms: Option<u64>,
    pub sub_phase: StepperState,
    pub sub_phase_start_time: Option<u64>,
    pub main_phase: StepperState,
    pub main_phase_start_time: Option<u64>,
    pub rotation_direction: Direction,
    pub agitation_direction: Direction,
}

impl TimersAndPhases {
    /// Milliseconds from a start time to `now`; zero where no start time is
    /// set or where it lies after `now`.
    pub open spec fn elapsed(start: Option<u64>, now: u64) -> u64 {
        match start {
            Some(t) => if now >= t {
                (now - t) as u64
            } else {
                0
            },
            None => 0,
        }
    }

    /// The state of a motor that has not run yet: idle, both axes forward,
    /// no timer set.
    pub open spec fn idle() -> TimersAndPhases {
        TimersAndPhases {
            global_start_time: None,
            global_stop_time_ms: None,
            sub_phase: StepperState::Finished,
            sub_phase_start_time: None,
            main_phase: StepperState::Finished,
            main_phase_start_time: None,
            rotation_direction: Direction::Forward,
            agitation_direction: Direction::Forward,
        }
    }

    /// The state after a run ended at `now`: both phases show `state`, the
    /// phase timers are off and the length of the run is kept.
    pub open spec fn frozen(self, state: StepperState, now: u64) -> TimersAndPhases {
        TimersAndPhases {
            global_stop_time_ms: Some(TimersAndPhases::elapsed(self.global_start_time, now)),
            sub_phase: state,
            sub_phase_start_time: None,
            main_phase: state,
            main_phase_start_time: None,
            ..self
        }
    }

    /// The state after a run began at `now` with the given first directions:
    /// idle phases, phase timers off, the run timer on.
    pub open spec fn started(
        self,
        rotation: Direction,
        agitation: Direction,
        now: u64,
    ) -> TimersAndPhases {
        TimersAndPhases {
            global_start_time: Some(now),
            global_stop_time_ms: None,
            sub_phase: StepperState::Finished,
            sub_phase_start_time: None,
            main_phase: StepperState::Finished,
            main_phase_start_time: None,
            rotation_direction: rotation,
            agitation_direction: agitation,
        }
    }

    /// The state after the board reported `event` at `now`.
    ///
    /// A fault or the end of the run freezes both phases. The start of a
    /// phase sets the main phase and its timer. A pause sets the sub-phase
    /// and its timer. A change of direction turns the direction of its axis
    /// round and counts as a sub-phase. An acknowledgement or an unknown code
    /// changes nothing.
    pub open spec fn after_event(self, event: StepperState, now: u64) -> TimersAndPhases {
        if event.is_fault() || event == StepperState::Finished {
            self.frozen(event, now)
        } else if event.is_phase_start() {
            TimersAndPhases { main_phase: event, main_phase_start_time: Some(now), ..self }
        } else if event == StepperState::OscillationRotation {
            TimersAndPhases {
                rotation_direction: self.rotation_direction.opposite(),
                sub_phase: event,
                sub_phase_start_time: Some(now),
                ..self
            }
        } else if event == StepperState::OscillationAgitation {
            TimersAndPhases {
                agitation_direction: self.agitation_direction.opposite(),
                sub_phase: event,
                sub_phase_start_time: Some(now),
                ..self
            }
        } else if event.is_pause() {
            TimersAndPhases { sub_phase: event, sub_phase_start_time: Some(now), ..self }
        } else {
            self
        }
    }

    /// The main phase is one a main phase can be, the sub-phase one a
    /// sub-phase can be, and a phase timer runs only during a phase.
    pub open spec fn consistent(self) -> bool {
        &&& self.main_phase == StepperState::Finished || self.main_phase == StepperState::Invalid
            || self.main_phase.is_fault() || self.main_phase.is_phase_start()
        &&& self.sub_phase == StepperState::Finished || self.sub_phase == StepperState::Invalid
            || self.sub_phase.is_fault() || self.sub_phase.is_pause()
            || self.sub_phase.is_oscillation()
        &&& self.main_phase_start_time is Some ==> self.main_phase.is_phase_start()
        &&& self.sub_phase_start_time is Some ==> self.sub_phase.is_pause()
            || self.sub_phase.is_oscillation()
    }

    fn elapsed_since(start: Option<u64>, now_ms: u64) -> (ms: u64)
        ensures
            ms == TimersAndPhases::elapsed(start, now_ms),
    {
        match start {
            Some(t) => if now_ms >= t {
                now_ms - t
            } else {
                0
            },
            None => 0,
        }
    }

    /// Milliseconds since the run began; zero where none has begun.
    pub fn get_elapsed_time_since_global_start_as_millis(&self, now_ms: u64) -> (ms: u64)
        ensures
            ms == TimersAndPhases::elapsed(self.global_start_time, now_ms),
    {
        TimersAndPhases::elapsed_since(self.global_start_time, now_ms)
    }

    /// Milliseconds since the main phase began; zero where its timer is off.
    pub fn get_elapsed_time_since_main_phase_start_as_millis(&self, now_ms: u64) -> (ms: u64)
        ensures
            ms == TimersAndPhases::elapsed(self.main_phase_start_time, now_ms),
    {
        TimersAndPhases::elapsed_since(self.main_phase_start_time, now_ms)
    }

    /// Milliseconds since the sub-phase began; zero where its timer is off.
    pub fn get_elapsed_time_since_sub_phase_start_as_millis(&self, now_ms: u64) -> (ms: u64)
        ensures
            ms == TimersAndPhases::elapsed(self.sub_phase_start_time, now_ms),
    {
        TimersAndPhases::elapsed_since(self.sub_phase_start_time, now_ms)
    }

    /// Keeps the time that the run has lasted at `now_ms`.
    pub fn set_global_stop_time_stopped(&mut self, now_ms: u64)
        ensures
            *final(self) == (TimersAndPhases {
                global_stop_time_ms: Some(
                    TimersAndPhases::elapsed(old(self).global_start_time, now_ms),
                ),
                ..*old(self)
            }),
    {
        self.global_stop_time_ms = Some(self.get_elapsed_time_since_global_start_as_millis(now_ms));
    }

    /// Ends the run at `now_ms` and shows `state` in both phases.
    pub fn freeze(&mut self, state: StepperState, now_ms: u64)
        ensures
            *final(self) == old(self).frozen(state, now_ms),
    {
        self.set_global_stop_time_stopped(now_ms);
        self.sub_phase = state;
        self.sub_phase_start_time = None;
        self.main_phase = state;
        self.main_phase_start_time = None;
    }

    /// Takes in one report of the board.
    pub fn apply(&mut self, event: StepperState, now_ms: u64)
        ensures
            *final(self) == old(self).after_event(event, now_ms),
    {
        match event {
            StepperState::Invalid | StepperState::CommandReceived => {},
            StepperState::StepgenAgitationError
            | StepperState::StepgenRotationError
            | StepperState::EmergencyStop
            | StepperState::OpenLoad
            | StepperState::OverHeat
            | StepperState::OverCurrent
            | StepperState::Finished => {
                self.freeze(event, now_ms);
            },
            StepperState::StartRotation | StepperState::StartAgitation => {
                self.main_phase = event;
                self.main_phase_start_time = Some(now_ms);
            },
            StepperState::OscillationRotation => {
                self.rotation_direction = self.rotation_direction.reverse();
                self.sub_phase = event;
                self.sub_phase_start_time = Some(now_ms);
            },
            StepperState::OscillationAgitation => {
                self.agitation_direction = self.agitation_direction.reverse();
                self.sub_phase = event;
                self.sub_phase_start_time = Some(now_ms);
            },
            StepperState::StartPauseRotation
            | StepperState::StartPausePreAgitation
            | StepperState::StartPauseAgitation
            | StepperState::StartPausePostAgitation => {
                self.sub_phase = event;
                self.sub_phase_start_time = Some(now_ms);
            },
        }
    }
}

impl Default for TimersAndPhases {
    fn default() -> (state: Self)
        ensures
            state == TimersAndPhases::idle(),
    {
        TimersAndPhases {
            global_start_time: None,
            global_stop_time_ms: None,
            sub_phase: StepperState::Finished,
            sub_phase_start_time: None,
            main_phase: StepperState::Finished,
            main_phase_start_time: None,
            rotation_direction: Direction::Forward,
            agitation_direction: Direction::Forward,
        }
    }
}

/// Whatever the board reports and whenever, a consistent state stays
/// consistent; so does one that is frozen or started afresh.
pub proof fn lemma_events_keep_consistency(
    state: TimersAndPhases,
    event: StepperState,
    shown: StepperState,
    rotation: Direction,
    agitation: Direction,
    now: u64,
)
    requires
        state.consistent(),
    ensures
        TimersAndPhases::idle().consistent(),
        state.after_event(event, now).consistent(),
        state.started(rotation, agitation, now).consistent(),
        shown == StepperState::Finished || shown == StepperState::Invalid || shown.is_fault()
            ==> state.frozen(shown, now).consistent(),
{
}

/// An acknowledgement or an unknown code leaves phases, directions and timers
/// as they are, and two changes of direction of one axis give back the
/// direction it had.
pub proof fn lemma_quiet_events(state: TimersAndPhases, now: u64, later: u64)
    ensures
        state.after_event(StepperState::Invalid, now) == state,
        state.after_event(StepperState::CommandReceived, now) == state,
        state.after_event(StepperState::OscillationRotation, now).after_event(
            StepperState::OscillationRotation,
            later,
        ).rotation_direction == state.rotation_direction,
        state.after_event(StepperState::OscillationAgitation, now).after_event(
            StepperState::OscillationAgitation,
            later,
        ).agitation_direction == state.agitation_direction,
{
}

} // verus!
