//! The motion protocol of one motor and its command frame.
//!
//! A protocol runs two axes in turn, rotation then agitation, each followed
//! by a pause, until the global duration is over. It travels to the board as
//! one frame of `BYTES` bytes between the sentinels `a` and `z`.

use vstd::prelude::*;
use crate::enums::{Direction, StepMode128};
use crate::graph::Axis;
use crate::limits::{AXIS_BYTES, BYTES, MAX_ACCELERATION, MAX_DURATION_MS, MAX_RPM};
use crate::wire::{
    get_u32, get_u64, lemma_splice_extends, lemma_u32_le_round_trip, lemma_u32_le_unique,
    lemma_u64_le_round_trip, lemma_u64_le_unique, put_bytes, put_u32, put_u64, u32_from_le,
    u32_le, u64_from_le, u64_le,
};

verus! {

/// First byte of a command frame, the letter `a`.
pub const FRAME_HEAD: u8 = 0x61;

/// Last byte of a command frame, the letter `z`.
pub const FRAME_TAIL: u8 = 0x7a;

/// Parameters of one axis.
#[derive(Debug, Copy, Clone, PartialEq, Eq, Structural)]
pub struct Rotation {
    pub rpm: u32,
    pub acceleration: u32,
    pub step_mode: StepMode128,
    /// Time spent turning in one direction before reversing.
    pub duration_of_one_direction_cycle_ms: u64,
    /// Steps made in one direction before reversing; `0` leaves the cycle
    /// bounded by time alone.
    pub steps_for_one_direction_cycle: u64,
    /// Direction in which the axis starts.
    pub direction: Direction,
    pub pause_before_direction_change_ms: u64,
}

/// What the step generator of an axis is set up with: speed and acceleration
/// in microsteps, and the bounds of one direction cycle.
#[derive(Debug, Copy, Clone, PartialEq, Eq, Structural)]
pub struct StepgenSetup {
    pub target_rpm: u32,
    pub target_accel: u32,
    pub target_step: u64,
    pub target_duration_ms: u64,
}

impl Rotation {
    /// The axis that a new protocol starts with: one revolution per minute
    /// forward in full steps, no cycle set.
    pub open spec fn default_value() -> Rotation {
        Rotation {
            rpm: 1,
            acceleration: 1,
            step_mode: StepMode128::Full,
            duration_of_one_direction_cycle_ms: 0,
            steps_for_one_direction_cycle: 0,
            direction: Direction::Forward,
            pause_before_direction_change_ms: 0,
        }
    }

    /// Highest speed that a microstepping mode allows.
    pub open spec fn max_rpm(mode: StepMode128) -> nat {
        MAX_RPM as nat / mode.divisor()
    }

    /// Sum of the time of one direction cycle and of the pause that follows.
    pub open spec fn min_duration(self) -> nat {
        (self.duration_of_one_direction_cycle_ms + self.pause_before_direction_change_ms) as nat
    }

    /// The speed suits the microstepping mode and the acceleration is in
    /// range.
    pub open spec fn in_limits(self) -> bool {
        &&& self.rpm <= Rotation::max_rpm(self.step_mode)
        &&& 1 <= self.acceleration <= MAX_ACCELERATION
    }

    /// What the step generator of the axis is set up with, where speed and
    /// acceleration in microsteps fit in 32 bits.
    pub open spec fn stepgen_plan(self) -> Option<StepgenSetup> {
        if self.rpm * self.step_mode.divisor() <= u32::MAX && self.acceleration
            * self.step_mode.divisor() <= u32::MAX {
            Some(
                StepgenSetup {
                    target_rpm: (self.rpm * self.step_mode.divisor()) as u32,
                    target_accel: (self.acceleration * self.step_mode.divisor()) as u32,
                    target_step: self.steps_for_one_direction_cycle,
                    target_duration_ms: self.duration_of_one_direction_cycle_ms,
                },
            )
        } else {
            None
        }
    }

    /// The record of the axis inside a command frame: speed, acceleration,
    /// mode, cycle time, cycle steps, direction and pause, integers least
    /// significant byte first.
    pub open spec fn wire(self) -> Seq<u8> {
        u32_le(self.rpm) + u32_le(self.acceleration) + seq![self.step_mode.ordinal() as u8]
            + u64_le(self.duration_of_one_direction_cycle_ms) + u64_le(
            self.steps_for_one_direction_cycle,
        ) + seq![self.direction.ordinal() as u8] + u64_le(self.pause_before_direction_change_ms)
    }

    /// The axis that a record stands for. A record of the wrong length, or
    /// with a mode or direction byte that names nothing, stands for none.
    pub open spec fn parse(bytes: Seq<u8>) -> Option<Rotation> {
        if bytes.len() == AXIS_BYTES && StepMode128::at(bytes[8] as nat) is Some && Direction::at(
            bytes[25] as nat,
        ) is Some {
            Some(
                Rotation {
                    rpm: u32_from_le(bytes.subrange(0, 4)),
                    acceleration: u32_from_le(bytes.subrange(4, 8)),
                    step_mode: StepMode128::at(bytes[8] as nat).unwrap(),
                    duration_of_one_direction_cycle_ms: u64_from_le(bytes.subrange(9, 17)),
                    steps_for_one_direction_cycle: u64_from_le(bytes.subrange(17, 25)),
                    direction: Direction::at(bytes[25] as nat).unwrap(),
                    pause_before_direction_change_ms: u64_from_le(bytes.subrange(26, 34)),
                },
            )
        } else {
            None
        }
    }

    /// Sum of the time of one direction cycle and of the pause that follows,
    /// held at `u64::MAX` where it would not fit.
    pub fn get_min_duration(&self) -> (d: u64)
        ensures
            d as nat == if self.min_duration() <= u64::MAX {
                self.min_duration()
            } else {
                u64::MAX as nat
            },
    {
        if self.duration_of_one_direction_cycle_ms > u64::MAX
            - self.pause_before_direction_change_ms {
            u64::MAX
        } else {
            self.duration_of_one_direction_cycle_ms + self.pause_before_direction_change_ms
        }
    }

    /// Highest speed that the microstepping mode of the axis allows.
    pub fn max_rpm_for_stepmode(&self) -> (m: u32)
        ensures
            m as nat == Rotation::max_rpm(self.step_mode),
    {
        match self.step_mode {
            StepMode128::Full => MAX_RPM,
            StepMode128::M2 => MAX_RPM / 2,
            StepMode128::M4 => MAX_RPM / 4,
            StepMode128::M8 => MAX_RPM / 8,
            StepMode128::M16 => MAX_RPM / 16,
            StepMode128::M32 => MAX_RPM / 32,
            StepMode128::M64 => MAX_RPM / 64,
            StepMode128::M128 => MAX_RPM / 128,
        }
    }

    /// Brings the speed down to what the microstepping mode allows, as is
    /// needed after a change to a finer mode.
    pub fn limit_rpm(&mut self)
        ensures
            *final(self) == (Rotation {
                rpm: if old(self).rpm <= Rotation::max_rpm(old(self).step_mode) {
                    old(self).rpm
                } else {
                    Rotation::max_rpm(old(self).step_mode) as u32
                },
                ..*old(self)
            }),
            final(self).rpm <= Rotation::max_rpm(final(self).step_mode),
    {
        let max = self.max_rpm_for_stepmode();
        if self.rpm > max {
            self.rpm = max;
        }
    }

    /// What the step generator of the axis is to be created with: speed and
    /// acceleration in microsteps and the bounds of one direction cycle.
    /// `None` where the speed or the acceleration in microsteps does not fit
    /// in 32 bits, which no axis within its limits reaches.
    pub fn create_stepgen(&self) -> (setup: Option<StepgenSetup>)
        ensures
            setup == self.stepgen_plan(),
            self.in_limits() ==> setup is Some,
    {
        let multiplier: u64 = self.step_mode.get_multiplier() as u64;
        let rpm: u64 = self.rpm as u64 * multiplier;
        let accel: u64 = self.acceleration as u64 * multiplier;
        if rpm > u32::MAX as u64 || accel > u32::MAX as u64 {
            None
        } else {
            Some(
                StepgenSetup {
                    target_rpm: rpm as u32,
                    target_accel: accel as u32,
                    target_step: self.steps_for_one_direction_cycle,
                    target_duration_ms: self.duration_of_one_direction_cycle_ms,
                },
            )
        }
    }

    /// The record of the axis inside a command frame.
    pub fn convert_to_bytes(&self) -> (bytes: [u8; 34])
        ensures
            bytes@ == self.wire(),
    {
        let mut bytes: [u8; 34] = [0u8; 34];
        proof {
            lemma_u32_le_round_trip(self.rpm);
            lemma_u32_le_round_trip(self.acceleration);
            lemma_u64_le_round_trip(self.duration_of_one_direction_cycle_ms);
            lemma_u64_le_round_trip(self.steps_for_one_direction_cycle);
            lemma_u64_le_round_trip(self.pause_before_direction_change_ms);
            lemma_splice_extends(bytes@, 0, u32_le(self.rpm));
        }
        put_u32(&mut bytes, 0, self.rpm);
        let ghost written = u32_le(self.rpm);
        assert(bytes@.subrange(0, 4) =~= written);

        proof { lemma_splice_extends(bytes@, 4, u32_le(self.acceleration)); }
        put_u32(&mut bytes, 4, self.acceleration);
        let ghost written = written + u32_le(self.acceleration);
        assert(bytes@.subrange(0, 8) == written);

        bytes[8] = self.step_mode.to_byte();
        let ghost written = written + seq![self.step_mode.ordinal() as u8];
        assert(bytes@.subrange(0, 9) =~= written);

        proof { lemma_splice_extends(bytes@, 9, u64_le(self.duration_of_one_direction_cycle_ms)); }
        put_u64(&mut bytes, 9, self.duration_of_one_direction_cycle_ms);
        let ghost written = written + u64_le(self.duration_of_one_direction_cycle_ms);
        assert(bytes@.subrange(0, 17) == written);

        proof { lemma_splice_extends(bytes@, 17, u64_le(self.steps_for_one_direction_cycle)); }
        put_u64(&mut bytes, 17, self.steps_for_one_direction_cycle);
        let ghost written = written + u64_le(self.steps_for_one_direction_cycle);
        assert(bytes@.subrange(0, 25) == written);

        bytes[25] = self.direction.to_byte();
        let ghost written = written + seq![self.direction.ordinal() as u8];
        assert(bytes@.subrange(0, 26) =~= written);

        proof { lemma_splice_extends(bytes@, 26, u64_le(self.pause_before_direction_change_ms)); }
        put_u64(&mut bytes, 26, self.pause_before_direction_change_ms);
        let ghost written = written + u64_le(self.pause_before_direction_change_ms);
        assert(bytes@.subrange(0, 34) == written);
        assert(bytes@ =~= bytes@.subrange(0, 34));
        bytes
    }

    /// Reads an axis back from its record.
    pub fn from_bytes(bytes: &[u8]) -> (rotation: Option<Rotation>)
        ensures
            rotation == Rotation::parse(bytes@),
    {
        if bytes.len() != AXIS_BYTES {
            return None;
        }
        let step_mode = match StepMode128::from_byte(bytes[8]) {
            Some(mode) => mode,
            None => { return None; },
        };
        let direction = match Direction::from_byte(bytes[25]) {
            Some(direction) => direction,
            None => { return None; },
        };
        Some(
            Rotation {
                rpm: get_u32(bytes, 0),
                acceleration: get_u32(bytes, 4),
                step_mode,
                duration_of_one_direction_cycle_ms: get_u64(bytes, 9),
                steps_for_one_direction_cycle: get_u64(bytes, 17),
                direction,
                pause_before_direction_change_ms: get_u64(bytes, 26),
            },
        )
    }
}

impl Default for Rotation {
    fn default() -> (rotation: Self)
        ensures
            rotation == Rotation::default_value(),
    {
        Rotation {
            rpm: 1,
            acceleration: 1,
            step_mode: StepMode128::Full,
            duration_of_one_direction_cycle_ms: 0,
            steps_for_one_direction_cycle: 0,
            direction: Direction::Forward,
            pause_before_direction_change_ms: 0,
        }
    }
}

/// The highest speed of a mode is the full-step maximum divided by the number
/// of microsteps, so a finer mode never allows a higher speed than a coarser
/// one.
pub proof fn lemma_max_rpm_falls_with_resolution(coarse: StepMode128, fine: StepMode128)
    requires
        coarse.divisor() <= fine.divisor(),
    ensures
        Rotation::max_rpm(coarse) == MAX_RPM as nat / coarse.divisor(),
        Rotation::max_rpm(fine) <= Rotation::max_rpm(coarse),
{
}

/// The record of an axis has `AXIS_BYTES` bytes and is read back as the same
/// axis.
pub proof fn lemma_rotation_round_trip(rotation: Rotation)
    ensures
        rotation.wire().len() == AXIS_BYTES,
        Rotation::parse(rotation.wire()) == Some(rotation),
{
    let w = rotation.wire();
    lemma_u32_le_round_trip(rotation.rpm);
    lemma_u32_le_round_trip(rotation.acceleration);
    lemma_u64_le_round_trip(rotation.duration_of_one_direction_cycle_ms);
    lemma_u64_le_round_trip(rotation.steps_for_one_direction_cycle);
    lemma_u64_le_round_trip(rotation.pause_before_direction_change_ms);
    crate::enums::lemma_step_mode_positions(rotation.step_mode);
    assert(w.subrange(0, 4) =~= u32_le(rotation.rpm));
    assert(w.subrange(4, 8) =~= u32_le(rotation.acceleration));
    assert(w.subrange(9, 17) =~= u64_le(rotation.duration_of_one_direction_cycle_ms));
    assert(w.subrange(17, 25) =~= u64_le(rotation.steps_for_one_direction_cycle));
    assert(w.subrange(26, 34) =~= u64_le(rotation.pause_before_direction_change_ms));
    assert(w[8] == rotation.step_mode.ordinal() as u8);
    assert(w[25] == rotation.direction.ordinal() as u8);
}

/// A record that is read as an axis is exactly the record of that axis.
pub proof fn lemma_rotation_parse_unique(bytes: Seq<u8>)
    requires
        Rotation::parse(bytes) is Some,
    ensures
        Rotation::parse(bytes).unwrap().wire() == bytes,
{
    let r = Rotation::parse(bytes).unwrap();
    lemma_u32_le_unique(bytes.subrange(0, 4));
    lemma_u32_le_unique(bytes.subrange(4, 8));
    lemma_u64_le_unique(bytes.subrange(9, 17));
    lemma_u64_le_unique(bytes.subrange(17, 25));
    lemma_u64_le_unique(bytes.subrange(26, 34));
    assert(r.wire() =~= bytes);
}

/// Why a protocol is refused.
#[derive(Debug, Copy, Clone, PartialEq, Eq, Structural)]
pub enum ValidationError {
    /// The acceleration of an axis is zero.
    ZeroAcceleration,
    /// The acceleration of an axis is above `MAX_ACCELERATION`.
    AccelerationTooHigh,
    /// The speed of an axis is above what its microstepping mode allows.
    RpmTooHigh,
    /// A duration is above `MAX_DURATION_MS`.
    DurationTooHigh,
}

impl ValidationError {
    /// The sentence shown for the error.
    pub open spec fn text(self) -> Seq<char> {
        match self {
            ValidationError::ZeroAcceleration =>
                "The acceleration of the rotation or agitation is 0"@,
            ValidationError::AccelerationTooHigh =>
                "The acceleration of the rotation or agitation is too high"@,
            ValidationError::RpmTooHigh =>
                "The rpm of the rotation or agitation is higher than the max rpm"@,
            ValidationError::DurationTooHigh => "Some duration is too high"@,
        }
    }

    /// The sentence shown for the error.
    pub fn message(&self) -> (text: String)
        ensures
            text@ == self.text(),
    {
        match self {
            ValidationError::ZeroAcceleration =>
                "The acceleration of the rotation or agitation is 0".to_owned(),
            ValidationError::AccelerationTooHigh =>
                "The acceleration of the rotation or agitation is too high".to_owned(),
            ValidationError::RpmTooHigh =>
                "The rpm of the rotation or agitation is higher than the max rpm".to_owned(),
            ValidationError::DurationTooHigh => "Some duration is too high".to_owned(),
        }
    }
}

/// A complete motion protocol.
#[derive(Debug, Copy, Clone, PartialEq, Eq, Structural)]
pub struct Protocol {
    pub rotation: Rotation,
    /// Length of the rotation phase.
    pub rotation_duration_ms: u64,
    /// Pause between the rotation phase and the agitation phase.
    pub pause_pre_agitation_ms: u64,
    pub agitation: Rotation,
    /// Length of the agitation phase.
    pub agitation_duration_ms: u64,
    /// Pause after the agitation phase.
    pub pause_post_agitation_ms: u64,
    /// Time after which the whole run ends.
    pub global_duration_ms: u64,
}

impl Protocol {
    /// The protocol that every motor begins with: both axes as
    /// `Rotation::default_value`, every duration zero.
    pub open spec fn default_value() -> Protocol {
        Protocol {
            rotation: Rotation::default_value(),
            rotation_duration_ms: 0,
            pause_pre_agitation_ms: 0,
            agitation: Rotation::default_value(),
            agitation_duration_ms: 0,
            pause_post_agitation_ms: 0,
            global_duration_ms: 0,
        }
    }

    /// The parameters of an axis.
    pub open spec fn axis(self, axis: Axis) -> Rotation {
        match axis {
            Axis::Rotation => self.rotation,
            Axis::Agitation => self.agitation,
        }
    }

    /// Time spent in the two phases, pauses between phases left out.
    pub open spec fn duration_without_pause(self) -> nat {
        (self.rotation_duration_ms + self.agitation_duration_ms) as nat
    }

    /// No duration of the protocol is above `MAX_DURATION_MS`.
    pub open spec fn durations_in_limits(self) -> bool {
        &&& self.rotation.duration_of_one_direction_cycle_ms <= MAX_DURATION_MS
        &&& self.agitation.duration_of_one_direction_cycle_ms <= MAX_DURATION_MS
        &&& self.rotation.pause_before_direction_change_ms <= MAX_DURATION_MS
        &&& self.agitation.pause_before_direction_change_ms <= MAX_DURATION_MS
        &&& self.global_duration_ms <= MAX_DURATION_MS
        &&& self.rotation_duration_ms <= MAX_DURATION_MS
        &&& self.agitation_duration_ms <= MAX_DURATION_MS
        &&& self.pause_pre_agitation_ms <= MAX_DURATION_MS
        &&& self.pause_post_agitation_ms <= MAX_DURATION_MS
    }

    /// Both axes are within their limits and so is every duration.
    pub open spec fn valid(self) -> bool {
        &&& self.rotation.in_limits()
        &&& self.agitation.in_limits()
        &&& self.durations_in_limits()
    }

    /// The first rule that the protocol breaks, in the order in which the
    /// rules are checked: zero acceleration, acceleration too high, speed
    /// too high, duration too high.
    pub open spec fn first_violation(self) -> Option<ValidationError> {
        if self.rotation.acceleration == 0 || self.agitation.acceleration == 0 {
            Some(ValidationError::ZeroAcceleration)
        } else if self.rotation.acceleration > MAX_ACCELERATION || self.agitation.acceleration
            > MAX_ACCELERATION {
            Some(ValidationError::AccelerationTooHigh)
        } else if self.rotation.rpm > Rotation::max_rpm(self.rotation.step_mode)
            || self.agitation.rpm > Rotation::max_rpm(self.agitation.step_mode) {
            Some(ValidationError::RpmTooHigh)
        } else if !self.durations_in_limits() {
            Some(ValidationError::DurationTooHigh)
        } else {
            None
        }
    }

    /// The protocol with the durations that cannot take place set to zero:
    /// the length of a phase whose axis has neither cycle time nor pause, and
    /// the pause that follows a phase of length zero.
    pub open spec fn normalized(self) -> Protocol {
        let rotation_duration_ms = if self.rotation.min_duration() == 0 {
            0
        } else {
            self.rotation_duration_ms
        };
        let agitation_duration_ms = if self.agitation.min_duration() == 0 {
            0
        } else {
            self.agitation_duration_ms
        };
        Protocol {
            rotation_duration_ms,
            agitation_duration_ms,
            pause_pre_agitation_ms: if rotation_duration_ms == 0 {
                0
            } else {
                self.pause_pre_agitation_ms
            },
            pause_post_agitation_ms: if agitation_duration_ms == 0 {
                0
            } else {
                self.pause_post_agitation_ms
            },
            ..self
        }
    }

    /// The command frame of the protocol: `a`, the rotation record, the
    /// length of the rotation phase, the pause before agitation, the
    /// agitation record, the length of the agitation phase, the pause after
    /// it, the global duration, `z`.
    pub open spec fn wire(self) -> Seq<u8> {
        seq![FRAME_HEAD] + self.rotation.wire() + u64_le(self.rotation_duration_ms) + u64_le(
            self.pause_pre_agitation_ms,
        ) + self.agitation.wire() + u64_le(self.agitation_duration_ms) + u64_le(
            self.pause_post_agitation_ms,
        ) + u64_le(self.global_duration_ms) + seq![FRAME_TAIL]
    }

    /// The protocol that a command frame stands for. Bytes of the wrong
    /// length, without the two sentinels or with an axis record that stands
    /// for no axis are no frame.
    pub open spec fn parse(bytes: Seq<u8>) -> Option<Protocol> {
        if bytes.len() == BYTES && bytes[0] == FRAME_HEAD && bytes[109] == FRAME_TAIL
            && Rotation::parse(bytes.subrange(1, 35)) is Some && Rotation::parse(
            bytes.subrange(51, 85),
        ) is Some {
            Some(
                Protocol {
                    rotation: Rotation::parse(bytes.subrange(1, 35)).unwrap(),
                    rotation_duration_ms: u64_from_le(bytes.subrange(35, 43)),
                    pause_pre_agitation_ms: u64_from_le(bytes.subrange(43, 51)),
                    agitation: Rotation::parse(bytes.subrange(51, 85)).unwrap(),
                    agitation_duration_ms: u64_from_le(bytes.subrange(85, 93)),
                    pause_post_agitation_ms: u64_from_le(bytes.subrange(93, 101)),
                    global_duration_ms: u64_from_le(bytes.subrange(101, 109)),
                },
            )
        } else {
            None
        }
    }

    /// Time spent in the two phases, held at `u64::MAX` where it would not
    /// fit.
    pub fn get_duration_without_pause(&self) -> (d: u64)
        ensures
            d as nat == if self.duration_without_pause() <= u64::MAX {
                self.duration_without_pause()
            } else {
                u64::MAX as nat
            },
    {
        if self.rotation_duration_ms > u64::MAX - self.agitation_duration_ms {
            u64::MAX
        } else {
            self.rotation_duration_ms + self.agitation_duration_ms
        }
    }

    /// Checks the protocol against the limits and names the first rule that
    /// it breaks.
    pub fn validate(&self) -> (checked: Result<(), ValidationError>)
        ensures
            checked is Ok <==> self.valid(),
            checked matches Err(e) ==> self.first_violation() == Some(e),
            checked is Ok ==> self.first_violation() is None,
    {
        if self.rotation.acceleration == 0 || self.agitation.acceleration == 0 {
            return Err(ValidationError::ZeroAcceleration);
        }
        if self.rotation.acceleration > MAX_ACCELERATION || self.agitation.acceleration
            > MAX_ACCELERATION {
            return Err(ValidationError::AccelerationTooHigh);
        }
        if self.rotation.rpm > self.rotation.max_rpm_for_stepmode() || self.agitation.rpm
            > self.agitation.max_rpm_for_stepmode() {
            return Err(ValidationError::RpmTooHigh);
        }
        if self.rotation.duration_of_one_direction_cycle_ms > MAX_DURATION_MS
            || self.agitation.duration_of_one_direction_cycle_ms > MAX_DURATION_MS
            || self.rotation.pause_before_direction_change_ms > MAX_DURATION_MS
            || self.agitation.pause_before_direction_change_ms > MAX_DURATION_MS
            || self.global_duration_ms > MAX_DURATION_MS || self.rotation_duration_ms
            > MAX_DURATION_MS || self.agitation_duration_ms > MAX_DURATION_MS
            || self.pause_pre_agitation_ms > MAX_DURATION_MS || self.pause_post_agitation_ms
            > MAX_DURATION_MS {
            return Err(ValidationError::DurationTooHigh);
        }
        Ok(())
    }

    /// Sets to zero the durations that cannot take place.
    pub fn normalize(&mut self)
        ensures
            *final(self) == old(self).normalized(),
    {
        if self.rotation.get_min_duration() == 0 {
            self.rotation_duration_ms = 0;
        }
        if self.agitation.get_min_duration() == 0 {
            self.agitation_duration_ms = 0;
        }
        if self.rotation_duration_ms == 0 {
            self.pause_pre_agitation_ms = 0;
        }
        if self.agitation_duration_ms == 0 {
            self.pause_post_agitation_ms = 0;
        }
    }

    /// The command frame of the protocol.
    pub fn protocol_as_bytes(&self) -> (bytes: [u8; BYTES])
        ensures
            bytes@ == self.wire(),
    {
        let mut bytes: [u8; BYTES] = [0u8; BYTES];
        let rotation = self.rotation.convert_to_bytes();
        let agitation = self.agitation.convert_to_bytes();
        proof {
            lemma_rotation_round_trip(self.rotation);
            lemma_rotation_round_trip(self.agitation);
            lemma_u64_le_round_trip(self.rotation_duration_ms);
            lemma_u64_le_round_trip(self.pause_pre_agitation_ms);
            lemma_u64_le_round_trip(self.agitation_duration_ms);
            lemma_u64_le_round_trip(self.pause_post_agitation_ms);
            lemma_u64_le_round_trip(self.global_duration_ms);
        }
        bytes[0] = FRAME_HEAD;
        let ghost written = seq![FRAME_HEAD];
        assert(bytes@.subrange(0, 1) =~= written);

        proof { lemma_splice_extends(bytes@, 1, rotation@); }
        put_bytes(&mut bytes, 1, &rotation);
        let ghost written = written + self.rotation.wire();
        assert(bytes@.subrange(0, 35) == written);

        proof { lemma_splice_extends(bytes@, 35, u64_le(self.rotation_duration_ms)); }
        put_u64(&mut bytes, 35, self.rotation_duration_ms);
        let ghost written = written + u64_le(self.rotation_duration_ms);
        assert(bytes@.subrange(0, 43) == written);

        proof { lemma_splice_extends(bytes@, 43, u64_le(self.pause_pre_agitation_ms)); }
        put_u64(&mut bytes, 43, self.pause_pre_agitation_ms);
        let ghost written = written + u64_le(self.pause_pre_agitation_ms);
        assert(bytes@.subrange(0, 51) == written);

        proof { lemma_splice_extends(bytes@, 51, agitation@); }
        put_bytes(&mut bytes, 51, &agitation);
        let ghost written = written + self.agitation.wire();
        assert(bytes@.subrange(0, 85) == written);

        proof { lemma_splice_extends(bytes@, 85, u64_le(self.agitation_duration_ms)); }
        put_u64(&mut bytes, 85, self.agitation_duration_ms);
        let ghost written = written + u64_le(self.agitation_duration_ms);
        assert(bytes@.subrange(0, 93) == written);

        proof { lemma_splice_extends(bytes@, 93, u64_le(self.pause_post_agitation_ms)); }
        put_u64(&mut bytes, 93, self.pause_post_agitation_ms);
        let ghost written = written + u64_le(self.pause_post_agitation_ms);
        assert(bytes@.subrange(0, 101) == written);

        proof { lemma_splice_extends(bytes@, 101, u64_le(self.global_duration_ms)); }
        put_u64(&mut bytes, 101, self.global_duration_ms);
        let ghost written = written + u64_le(self.global_duration_ms);
        assert(bytes@.subrange(0, 109) == written);

        bytes[109] = FRAME_TAIL;
        assert(bytes@.subrange(0, 109) =~= written);
        assert(bytes@ =~= bytes@.subrange(0, 109) + seq![FRAME_TAIL]);
        bytes
    }

    /// Reads a protocol back from a command frame.
    pub fn from_bytes(bytes: &[u8]) -> (protocol: Option<Protocol>)
        ensures
            protocol == Protocol::parse(bytes@),
    {
        if bytes.len() != BYTES {
            return None;
        }
        if bytes[0] != FRAME_HEAD || bytes[109] != FRAME_TAIL {
            return None;
        }
        let rotation = match Rotation::from_bytes(vstd::slice::slice_subrange(bytes, 1, 35)) {
            Some(rotation) => rotation,
            None => { return None; },
        };
        let agitation = match Rotation::from_bytes(vstd::slice::slice_subrange(bytes, 51, 85)) {
            Some(agitation) => agitation,
            None => { return None; },
        };
        Some(
            Protocol {
                rotation,
                rotation_duration_ms: get_u64(bytes, 35),
                pause_pre_agitation_ms: get_u64(bytes, 43),
                agitation,
                agitation_duration_ms: get_u64(bytes, 85),
                pause_post_agitation_ms: get_u64(bytes, 93),
                global_duration_ms: get_u64(bytes, 101),
            },
        )
    }
}

impl Default for Protocol {
    fn default() -> (protocol: Self)
        ensures
            protocol == Protocol::default_value(),
    {
        Protocol {
            rotation: Rotation::default(),
            rotation_duration_ms: 0,
            pause_pre_agitation_ms: 0,
            agitation: Rotation::default(),
            agitation_duration_ms: 0,
            pause_post_agitation_ms: 0,
            global_duration_ms: 0,
        }
    }
}

/// A command frame has `BYTES` bytes, starts with `a`, ends with `z`, and is
/// read back as the protocol it was made from.
pub proof fn lemma_protocol_round_trip(protocol: Protocol)
    ensures
        protocol.wire().len() == BYTES,
        protocol.wire()[0] == FRAME_HEAD,
        protocol.wire()[BYTES - 1] == FRAME_TAIL,
        Protocol::parse(protocol.wire()) == Some(protocol),
{
    let w = protocol.wire();
    lemma_rotation_round_trip(protocol.rotation);
    lemma_rotation_round_trip(protocol.agitation);
    lemma_u64_le_round_trip(protocol.rotation_duration_ms);
    lemma_u64_le_round_trip(protocol.pause_pre_agitation_ms);
    lemma_u64_le_round_trip(protocol.agitation_duration_ms);
    lemma_u64_le_round_trip(protocol.pause_post_agitation_ms);
    lemma_u64_le_round_trip(protocol.global_duration_ms);
    assert(w.len() == BYTES);
    assert(w.subrange(1, 35) =~= protocol.rotation.wire());
    assert(w.subrange(35, 43) =~= u64_le(protocol.rotation_duration_ms));
    assert(w.subrange(43, 51) =~= u64_le(protocol.pause_pre_agitation_ms));
    assert(w.subrange(51, 85) =~= protocol.agitation.wire());
    assert(w.subrange(85, 93) =~= u64_le(protocol.agitation_duration_ms));
    assert(w.subrange(93, 101) =~= u64_le(protocol.pause_post_agitation_ms));
    assert(w.subrange(101, 109) =~= u64_le(protocol.global_duration_ms));
}

/// Bytes that are read as a protocol are exactly the command frame of that
/// protocol: no two frames stand for the same protocol.
pub proof fn lemma_protocol_parse_unique(bytes: Seq<u8>)
    requires
        Protocol::parse(bytes) is Some,
    ensures
        Protocol::parse(bytes).unwrap().wire() == bytes,
{
    let p = Protocol::parse(bytes).unwrap();
    lemma_rotation_parse_unique(bytes.subrange(1, 35));
    lemma_rotation_parse_unique(bytes.subrange(51, 85));
    lemma_u64_le_unique(bytes.subrange(35, 43));
    lemma_u64_le_unique(bytes.subrange(43, 51));
    lemma_u64_le_unique(bytes.subrange(85, 93));
    lemma_u64_le_unique(bytes.subrange(93, 101));
    lemma_u64_le_unique(bytes.subrange(101, 109));
    assert(p.wire() =~= bytes);
}

/// After normalization a phase of length zero is followed by a pause of
/// length zero, and a phase whose axis has neither cycle time nor pause has
/// length zero. Normalizing twice changes nothing more.
pub proof fn lemma_normalized_pauses(protocol: Protocol)
    ensures
        protocol.normalized().rotation_duration_ms == 0
            ==> protocol.normalized().pause_pre_agitation_ms == 0,
        protocol.normalized().agitation_duration_ms == 0
            ==> protocol.normalized().pause_post_agitation_ms == 0,
        protocol.rotation.min_duration() == 0 ==> protocol.normalized().rotation_duration_ms == 0,
        protocol.agitation.min_duration() == 0 ==> protocol.normalized().agitation_duration_ms == 0,
        protocol.rotation_duration_ms == 0 ==> protocol.normalized().pause_pre_agitation_ms == 0,
        protocol.agitation_duration_ms == 0 ==> protocol.normalized().pause_post_agitation_ms == 0,
        protocol.normalized().normalized() == protocol.normalized(),
{
}

/// A protocol passes the check exactly when it breaks no rule, and each kind
/// of fault gives its own error.
pub proof fn lemma_violations(protocol: Protocol)
    ensures
        protocol.first_violation() is None <==> protocol.valid(),
        protocol.rotation.acceleration == 0 || protocol.agitation.acceleration == 0
            ==> protocol.first_violation() == Some(ValidationError::ZeroAcceleration),
        protocol.rotation.acceleration > MAX_ACCELERATION || protocol.agitation.acceleration
            > MAX_ACCELERATION ==> protocol.first_violation() is Some,
        protocol.rotation.rpm > Rotation::max_rpm(protocol.rotation.step_mode)
            || protocol.agitation.rpm > Rotation::max_rpm(protocol.agitation.step_mode)
            ==> protocol.first_violation() is Some,
        !protocol.durations_in_limits() ==> protocol.first_violation() is Some,
        protocol.first_violation() == Some(ValidationError::ZeroAcceleration) ==> (
        protocol.rotation.acceleration == 0 || protocol.agitation.acceleration == 0),
        protocol.first_violation() == Some(ValidationError::AccelerationTooHigh) ==> (
        protocol.rotation.acceleration > MAX_ACCELERATION || protocol.agitation.acceleration
            > MAX_ACCELERATION),
        protocol.first_violation() == Some(ValidationError::RpmTooHigh) ==> (protocol.rotation.rpm
            > Rotation::max_rpm(protocol.rotation.step_mode) || protocol.agitation.rpm
            > Rotation::max_rpm(protocol.agitation.step_mode)),
        protocol.first_violation() == Some(ValidationError::DurationTooHigh)
            ==> !protocol.durations_in_limits(),
{
}

} // verus!
