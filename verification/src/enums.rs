//! The small closed vocabularies of the device: microstepping modes,
//! directions and the status codes of the controller board.

use vstd::prelude::*;

verus! {

/// Microstepping mode of a driver: one full step is divided in `1` to `128`
/// microsteps.
#[derive(Debug, Copy, Clone, PartialEq, Eq, Structural)]
pub enum StepMode128 {
    Full,
    M2,
    M4,
    M8,
    M16,
    M32,
    M64,
    M128,
}

impl StepMode128 {
    /// Position of the mode among the eight modes, `0` for full steps up to
    /// `7` for 1/128. This is the byte that stands for the mode on the wire.
    pub open spec fn ordinal(self) -> nat {
        match self {
            StepMode128::Full => 0,
            StepMode128::M2 => 1,
            StepMode128::M4 => 2,
            StepMode128::M8 => 3,
            StepMode128::M16 => 4,
            StepMode128::M32 => 5,
            StepMode128::M64 => 6,
            StepMode128::M128 => 7,
        }
    }

    /// Number of microsteps in one full step.
    pub open spec fn divisor(self) -> nat {
        match self {
            StepMode128::Full => 1,
            StepMode128::M2 => 2,
            StepMode128::M4 => 4,
            StepMode128::M8 => 8,
            StepMode128::M16 => 16,
            StepMode128::M32 => 32,
            StepMode128::M64 => 64,
            StepMode128::M128 => 128,
        }
    }

    /// The mode at a given position, if there is one.
    pub open spec fn at(position: nat) -> Option<StepMode128> {
        if position == 0 {
            Some(StepMode128::Full)
        } else if position == 1 {
            Some(StepMode128::M2)
        } else if position == 2 {
            Some(StepMode128::M4)
        } else if position == 3 {
            Some(StepMode128::M8)
        } else if position == 4 {
            Some(StepMode128::M16)
        } else if position == 5 {
            Some(StepMode128::M32)
        } else if position == 6 {
            Some(StepMode128::M64)
        } else if position == 7 {
            Some(StepMode128::M128)
        } else {
            None
        }
    }

    /// The eight modes from the coarsest to the finest.
    pub open spec fn all() -> Seq<StepMode128> {
        seq![
            StepMode128::Full,
            StepMode128::M2,
            StepMode128::M4,
            StepMode128::M8,
            StepMode128::M16,
            StepMode128::M32,
            StepMode128::M64,
            StepMode128::M128,
        ]
    }

    /// The words shown for a mode.
    pub open spec fn label_text(self) -> Seq<char> {
        match self {
            StepMode128::Full => "Full"@,
            StepMode128::M2 => "1/2"@,
            StepMode128::M4 => "1/4"@,
            StepMode128::M8 => "1/8"@,
            StepMode128::M16 => "1/16"@,
            StepMode128::M32 => "1/32"@,
            StepMode128::M64 => "1/64"@,
            StepMode128::M128 => "1/128"@,
        }
    }

    /// The words shown for a mode.
    pub fn label(&self) -> (text: String)
        ensures
            text@ == self.label_text(),
    {
        match self {
            StepMode128::Full => "Full".to_owned(),
            StepMode128::M2 => "1/2".to_owned(),
            StepMode128::M4 => "1/4".to_owned(),
            StepMode128::M8 => "1/8".to_owned(),
            StepMode128::M16 => "1/16".to_owned(),
            StepMode128::M32 => "1/32".to_owned(),
            StepMode128::M64 => "1/64".to_owned(),
            StepMode128::M128 => "1/128".to_owned(),
        }
    }

    /// The byte that stands for the mode on the wire.
    pub fn to_byte(&self) -> (b: u8)
        ensures
            b as nat == self.ordinal(),
    {
        match self {
            StepMode128::Full => 0,
            StepMode128::M2 => 1,
            StepMode128::M4 => 2,
            StepMode128::M8 => 3,
            StepMode128::M16 => 4,
            StepMode128::M32 => 5,
            StepMode128::M64 => 6,
            StepMode128::M128 => 7,
        }
    }

    /// Reads a mode back from its wire byte. Bytes above `7` name no mode.
    pub fn from_byte(b: u8) -> (mode: Option<StepMode128>)
        ensures
            mode == StepMode128::at(b as nat),
    {
        match b {
            0 => Some(StepMode128::Full),
            1 => Some(StepMode128::M2),
            2 => Some(StepMode128::M4),
            3 => Some(StepMode128::M8),
            4 => Some(StepMode128::M16),
            5 => Some(StepMode128::M32),
            6 => Some(StepMode128::M64),
            7 => Some(StepMode128::M128),
            _ => None,
        }
    }

    /// The eight modes from the coarsest to the finest.
    pub fn get_modes(&self) -> (modes: Vec<StepMode128>)
        ensures
            modes@ == StepMode128::all(),
    {
        let mut modes: Vec<StepMode128> = Vec::new();
        modes.push(StepMode128::Full);
        modes.push(StepMode128::M2);
        modes.push(StepMode128::M4);
        modes.push(StepMode128::M8);
        modes.push(StepMode128::M16);
        modes.push(StepMode128::M32);
        modes.push(StepMode128::M64);
        modes.push(StepMode128::M128);
        assert(modes@ =~= StepMode128::all());
        modes
    }

    /// Number of microsteps in one full step.
    pub fn get_multiplier(&self) -> (m: u32)
        ensures
            m as nat == self.divisor(),
    {
        match self {
            StepMode128::Full => 1,
            StepMode128::M2 => 2,
            StepMode128::M4 => 4,
            StepMode128::M8 => 8,
            StepMode128::M16 => 16,
            StepMode128::M32 => 32,
            StepMode128::M64 => 64,
            StepMode128::M128 => 128,
        }
    }
}

impl Default for StepMode128 {
    fn default() -> (mode: Self)
        ensures
            mode == StepMode128::Full,
    {
        StepMode128::Full
    }
}

/// Every mode is found again from its wire byte, and the divisor doubles with
/// each position.
pub proof fn lemma_step_mode_positions(mode: StepMode128)
    ensures
        mode.ordinal() < 8,
        StepMode128::at(mode.ordinal()) == Some(mode),
        StepMode128::all()[mode.ordinal() as int] == mode,
        mode.divisor() == vstd::arithmetic::power2::pow2(mode.ordinal()),
{
    vstd::arithmetic::power2::lemma2_to64();
}

/// Sense of rotation of an axis.
#[derive(Debug, Copy, Clone, PartialEq, Eq, Structural)]
pub enum Direction {
    Forward,
    Backward,
}

impl Direction {
    /// The opposite sense.
    pub open spec fn opposite(self) -> Direction {
        match self {
            Direction::Forward => Direction::Backward,
            Direction::Backward => Direction::Forward,
        }
    }

    /// The byte that stands for the direction on the wire.
    pub open spec fn ordinal(self) -> nat {
        match self {
            Direction::Forward => 0,
            Direction::Backward => 1,
        }
    }

    /// The direction that a wire byte stands for, if any.
    pub open spec fn at(position: nat) -> Option<Direction> {
        if position == 0 {
            Some(Direction::Forward)
        } else if position == 1 {
            Some(Direction::Backward)
        } else {
            None
        }
    }

    /// The word shown for a direction.
    pub open spec fn label_text(self) -> Seq<char> {
        match self {
            Direction::Forward => "Forward"@,
            Direction::Backward => "Backward"@,
        }
    }

    /// The word shown for a direction.
    pub fn label(&self) -> (text: String)
        ensures
            text@ == self.label_text(),
    {
        match self {
            Direction::Forward => "Forward".to_owned(),
            Direction::Backward => "Backward".to_owned(),
        }
    }

    /// The byte that stands for the direction on the wire.
    pub fn to_byte(&self) -> (b: u8)
        ensures
            b as nat == self.ordinal(),
    {
        match self {
            Direction::Forward => 0,
            Direction::Backward => 1,
        }
    }

    /// Reads a direction back from its wire byte.
    pub fn from_byte(b: u8) -> (direction: Option<Direction>)
        ensures
            direction == Direction::at(b as nat),
    {
        match b {
            0 => Some(Direction::Forward),
            1 => Some(Direction::Backward),
            _ => None,
        }
    }

    /// The opposite sense of rotation.
    pub fn reverse(&self) -> (r: Direction)
        ensures
            r == self.opposite(),
    {
        match self {
            Direction::Forward => Direction::Backward,
            Direction::Backward => Direction::Forward,
        }
    }
}

impl Default for Direction {
    fn default() -> (direction: Self)
        ensures
            direction == Direction::Forward,
    {
        Direction::Forward
    }
}

/// The bytes of three ASCII characters.
pub open spec fn ascii3(a: char, b: char, c: char) -> Seq<u8> {
    seq![a as u8, b as u8, c as u8]
}

/// What the controller board reports, three ASCII bytes at a time. The same
/// values name the phase and the sub-phase that a motor is in.
#[derive(Debug, Copy, Clone, PartialEq, Eq, Structural)]
pub enum StepperState {
    /// The command was taken by the board. Sent as `ok!`.
    CommandReceived,
    /// The run ended normally; also the resting state. Sent as `fin`.
    Finished,
    /// The emergency stop was pressed. Sent as `emr`.
    EmergencyStop,
    /// A driver reports an open load. Sent as `er1`.
    OpenLoad,
    /// A driver reports too much current. Sent as `er2`.
    OverCurrent,
    /// A driver reports overheating. Sent as `er3`.
    OverHeat,
    /// The rotation axis changed its direction. Sent as `osr`.
    OscillationRotation,
    /// The agitation axis changed its direction. Sent as `osa`.
    OscillationAgitation,
    /// The rotation phase began. Sent as `str`.
    StartRotation,
    /// Pause inside the rotation phase. Sent as `stp`.
    StartPauseRotation,
    /// Pause before the agitation phase. Sent as `stq`.
    StartPausePreAgitation,
    /// The agitation phase began. Sent as `sta`.
    StartAgitation,
    /// Pause inside the agitation phase. Sent as `stb`.
    StartPauseAgitation,
    /// Pause after the agitation phase. Sent as `stc`.
    StartPausePostAgitation,
    /// The board could not generate the steps of the rotation axis. Sent as `erp`.
    StepgenRotationError,
    /// The board could not generate the steps of the agitation axis. Sent as `eap`.
    StepgenAgitationError,
    /// No known code; also marks a link that broke during a run.
    Invalid,
}

impl StepperState {
    /// The three bytes that the board sends for a state. `Invalid` has none.
    pub open spec fn code(self) -> Option<Seq<u8>> {
        match self {
            StepperState::CommandReceived => Some(ascii3('o', 'k', '!')),
            StepperState::Finished => Some(ascii3('f', 'i', 'n')),
            StepperState::EmergencyStop => Some(ascii3('e', 'm', 'r')),
            StepperState::OpenLoad => Some(ascii3('e', 'r', '1')),
            StepperState::OverCurrent => Some(ascii3('e', 'r', '2')),
            StepperState::OverHeat => Some(ascii3('e', 'r', '3')),
            StepperState::OscillationRotation => Some(ascii3('o', 's', 'r')),
            StepperState::OscillationAgitation => Some(ascii3('o', 's', 'a')),
            StepperState::StartRotation => Some(ascii3('s', 't', 'r')),
            StepperState::StartPauseRotation => Some(ascii3('s', 't', 'p')),
            StepperState::StartPausePreAgitation => Some(ascii3('s', 't', 'q')),
            StepperState::StartAgitation => Some(ascii3('s', 't', 'a')),
            StepperState::StartPauseAgitation => Some(ascii3('s', 't', 'b')),
            StepperState::StartPausePostAgitation => Some(ascii3('s', 't', 'c')),
            StepperState::StepgenRotationError => Some(ascii3('e', 'r', 'p')),
            StepperState::StepgenAgitationError => Some(ascii3('e', 'a', 'p')),
            StepperState::Invalid => None,
        }
    }

    /// The state that three received bytes stand for: the one whose code they
    /// are, and `Invalid` where they are the code of none.
    pub open spec fn decode(bytes: Seq<u8>) -> StepperState {
        if bytes == ascii3('o', 'k', '!') {
            StepperState::CommandReceived
        }         else if bytes == ascii3('f', 'i', 'n') {
            StepperState::Finished
        }         else if bytes == ascii3('e', 'm', 'r') {
            StepperState::EmergencyStop
        }         else if bytes == ascii3('e', 'r', '1') {
            StepperState::OpenLoad
        }         else if bytes == ascii3('e', 'r', '2') {
            StepperState::OverCurrent
        }         else if bytes == ascii3('e', 'r', '3') {
            StepperState::OverHeat
        }         else if bytes == ascii3('o', 's', 'r') {
            StepperState::OscillationRotation
        }         else if bytes == ascii3('o', 's', 'a') {
            StepperState::OscillationAgitation
        }         else if bytes == ascii3('s', 't', 'r') {
            StepperState::StartRotation
        }         else if bytes == ascii3('s', 't', 'p') {
            StepperState::StartPauseRotation
        }         else if bytes == ascii3('s', 't', 'q') {
            StepperState::StartPausePreAgitation
        }         else if bytes == ascii3('s', 't', 'a') {
            StepperState::StartAgitation
        }         else if bytes == ascii3('s', 't', 'b') {
            StepperState::StartPauseAgitation
        }         else if bytes == ascii3('s', 't', 'c') {
            StepperState::StartPausePostAgitation
        }         else if bytes == ascii3('e', 'r', 'p') {
            StepperState::StepgenRotationError
        }         else if bytes == ascii3('e', 'a', 'p') {
            StepperState::StepgenAgitationError
        } else {
            StepperState::Invalid
        }
    }

    /// The board stopped the run because something went wrong.
    pub open spec fn is_fault(self) -> bool {
        self == StepperState::EmergencyStop || self == StepperState::OpenLoad
            || self == StepperState::OverCurrent || self == StepperState::OverHeat
            || self == StepperState::StepgenRotationError
            || self == StepperState::StepgenAgitationError
    }

    /// One of the two phases began.
    pub open spec fn is_phase_start(self) -> bool {
        self == StepperState::StartRotation || self == StepperState::StartAgitation
    }

    /// One of the four pauses began.
    pub open spec fn is_pause(self) -> bool {
        self == StepperState::StartPauseRotation || self == StepperState::StartPausePreAgitation
            || self == StepperState::StartPauseAgitation
            || self == StepperState::StartPausePostAgitation
    }

    /// An axis changed its direction.
    pub open spec fn is_oscillation(self) -> bool {
        self == StepperState::OscillationRotation || self == StepperState::OscillationAgitation
    }

    /// The words shown for a state.
    pub open spec fn label_text(self) -> Seq<char> {
        match self {
            StepperState::CommandReceived => "Command received"@,
            StepperState::Finished => "Idle"@,
            StepperState::EmergencyStop => "Emergency stop"@,
            StepperState::OpenLoad => "Open load"@,
            StepperState::OverCurrent => "Over current"@,
            StepperState::OverHeat => "Over heat"@,
            StepperState::OscillationRotation => "Cycle"@,
            StepperState::OscillationAgitation => "Cycle"@,
            StepperState::StartRotation => "Rotation"@,
            StepperState::StartPauseRotation => "Pause rotation"@,
            StepperState::StartPausePreAgitation => "Pause pre agitation"@,
            StepperState::StartAgitation => "Agitation"@,
            StepperState::StartPauseAgitation => "Pause agitation"@,
            StepperState::StartPausePostAgitation => "Pause post agitation"@,
            StepperState::StepgenRotationError => "Error generating rotation steps"@,
            StepperState::StepgenAgitationError => "Error generating agitation steps"@,
            StepperState::Invalid => "Invalid"@,
        }
    }

    /// Tells whether the state is a fault reported by the board.
    pub fn get_is_fault(&self) -> (fault: bool)
        ensures
            fault == self.is_fault(),
    {
        match self {
            StepperState::EmergencyStop
            | StepperState::OpenLoad
            | StepperState::OverCurrent
            | StepperState::OverHeat
            | StepperState::StepgenRotationError
            | StepperState::StepgenAgitationError => true,
            _ => false,
        }
    }

    /// The three bytes of a state, as the board sends them.
    pub fn to_code(&self) -> (bytes: Option<[u8; 3]>)
        ensures
            bytes matches Some(b) ==> self.code() == Some(b@),
            bytes is None <==> self.code() is None,
    {
        match self {
            StepperState::CommandReceived => Some(['o' as u8, 'k' as u8, '!' as u8]),
            StepperState::Finished => Some(['f' as u8, 'i' as u8, 'n' as u8]),
            StepperState::EmergencyStop => Some(['e' as u8, 'm' as u8, 'r' as u8]),
            StepperState::OpenLoad => Some(['e' as u8, 'r' as u8, '1' as u8]),
            StepperState::OverCurrent => Some(['e' as u8, 'r' as u8, '2' as u8]),
            StepperState::OverHeat => Some(['e' as u8, 'r' as u8, '3' as u8]),
            StepperState::OscillationRotation => Some(['o' as u8, 's' as u8, 'r' as u8]),
            StepperState::OscillationAgitation => Some(['o' as u8, 's' as u8, 'a' as u8]),
            StepperState::StartRotation => Some(['s' as u8, 't' as u8, 'r' as u8]),
            StepperState::StartPauseRotation => Some(['s' as u8, 't' as u8, 'p' as u8]),
            StepperState::StartPausePreAgitation => Some(['s' as u8, 't' as u8, 'q' as u8]),
            StepperState::StartAgitation => Some(['s' as u8, 't' as u8, 'a' as u8]),
            StepperState::StartPauseAgitation => Some(['s' as u8, 't' as u8, 'b' as u8]),
            StepperState::StartPausePostAgitation => Some(['s' as u8, 't' as u8, 'c' as u8]),
            StepperState::StepgenRotationError => Some(['e' as u8, 'r' as u8, 'p' as u8]),
            StepperState::StepgenAgitationError => Some(['e' as u8, 'a' as u8, 'p' as u8]),
            StepperState::Invalid => None,
        }
    }

    /// The words shown for a state.
    pub fn label(&self) -> (text: String)
        ensures
            text@ == self.label_text(),
    {
        match self {
            StepperState::CommandReceived => "Command received".to_owned(),
            StepperState::Finished => "Idle".to_owned(),
            StepperState::EmergencyStop => "Emergency stop".to_owned(),
            StepperState::OpenLoad => "Open load".to_owned(),
            StepperState::OverCurrent => "Over current".to_owned(),
            StepperState::OverHeat => "Over heat".to_owned(),
            StepperState::OscillationRotation => "Cycle".to_owned(),
            StepperState::OscillationAgitation => "Cycle".to_owned(),
            StepperState::StartRotation => "Rotation".to_owned(),
            StepperState::StartPauseRotation => "Pause rotation".to_owned(),
            StepperState::StartPausePreAgitation => "Pause pre agitation".to_owned(),
            StepperState::StartAgitation => "Agitation".to_owned(),
            StepperState::StartPauseAgitation => "Pause agitation".to_owned(),
            StepperState::StartPausePostAgitation => "Pause post agitation".to_owned(),
            StepperState::StepgenRotationError => "Error generating rotation steps".to_owned(),
            StepperState::StepgenAgitationError => "Error generating agitation steps".to_owned(),
            StepperState::Invalid => "Invalid".to_owned(),
        }
    }
}

impl Default for StepperState {
    fn default() -> (state: Self)
        ensures
            state == StepperState::Finished,
    {
        StepperState::Finished
    }
}

/// Tells whether three received bytes are the given ASCII characters.
fn spells(bytes: &[u8; 3], a: char, b: char, c: char) -> (same: bool)
    requires
        a as u32 <= 0x7f,
        b as u32 <= 0x7f,
        c as u32 <= 0x7f,
    ensures
        same == (bytes@ == ascii3(a, b, c)),
{
    let same = bytes[0] == a as u8 && bytes[1] == b as u8 && bytes[2] == c as u8;
    assert(same == (bytes@ =~= ascii3(a, b, c)));
    same
}

impl<'a> From<&'a [u8; 3]> for StepperState {
    fn from(bytes: &'a [u8; 3]) -> (state: Self) {
        if spells(bytes, 'o', 'k', '!') {
            StepperState::CommandReceived
        }         else if spells(bytes, 'f', 'i', 'n') {
            StepperState::Finished
        }         else if spells(bytes, 'e', 'm', 'r') {
            StepperState::EmergencyStop
        }         else if spells(bytes, 'e', 'r', '1') {
            StepperState::OpenLoad
        }         else if spells(bytes, 'e', 'r', '2') {
            StepperState::OverCurrent
        }         else if spells(bytes, 'e', 'r', '3') {
            StepperState::OverHeat
        }         else if spells(bytes, 'o', 's', 'r') {
            StepperState::OscillationRotation
        }         else if spells(bytes, 'o', 's', 'a') {
            StepperState::OscillationAgitation
        }         else if spells(bytes, 's', 't', 'r') {
            StepperState::StartRotation
        }         else if spells(bytes, 's', 't', 'p') {
            StepperState::StartPauseRotation
        }         else if spells(bytes, 's', 't', 'q') {
            StepperState::StartPausePreAgitation
        }         else if spells(bytes, 's', 't', 'a') {
            StepperState::StartAgitation
        }         else if spells(bytes, 's', 't', 'b') {
            StepperState::StartPauseAgitation
        }         else if spells(bytes, 's', 't', 'c') {
            StepperState::StartPausePostAgitation
        }         else if spells(bytes, 'e', 'r', 'p') {
            StepperState::StepgenRotationError
        }         else if spells(bytes, 'e', 'a', 'p') {
            StepperState::StepgenAgitationError
        } else {
            StepperState::Invalid
        }
    }
}

impl<'a> vstd::std_specs::convert::FromSpecImpl<&'a [u8; 3]> for StepperState {
    open spec fn obeys_from_spec() -> bool {
        true
    }

    open spec fn from_spec(bytes: &'a [u8; 3]) -> Self {
        StepperState::decode(bytes@)
    }
}

/// A state that has a code is read back from that code, and whatever decodes
/// to a state other than `Invalid` is the code of that state: no two states
/// share a code.
pub proof fn lemma_decode_inverts_code(state: StepperState, bytes: Seq<u8>)
    ensures
        state.code() matches Some(c) ==> c.len() == 3 && StepperState::decode(c) == state,
        StepperState::decode(bytes) != StepperState::Invalid ==> StepperState::decode(
            bytes,
        ).code() == Some(bytes),
        StepperState::decode(bytes) == StepperState::Invalid ==> state.code() != Some(bytes),
{
    if let Some(c) = state.code() {
        lemma_ascii3_tells_apart(c);
    }
}

/// Two codes are the same only if they are made of the same three bytes.
proof fn lemma_ascii3_tells_apart(code: Seq<u8>)
    ensures
        forall|a: char, b: char, c: char|
            code == #[trigger] ascii3(a, b, c) ==> code.len() == 3 && code[0] == a as u8 && code[1]
                == b as u8 && code[2] == c as u8,
{
}

} // verus!
