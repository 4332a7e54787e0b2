use cell_spinner::enums::{Direction, StepMode128, StepperState};
use cell_spinner::limits::{BYTES, MAX_RPM};
use cell_spinner::protocols::{Protocol, Rotation};

fn sample_protocol() -> Protocol {
    Protocol {
        rotation: Rotation {
            rpm: 300,
            acceleration: 1_500,
            step_mode: StepMode128::M8,
            duration_of_one_direction_cycle_ms: 4_000,
            steps_for_one_direction_cycle: 0,
            direction: Direction::Forward,
            pause_before_direction_change_ms: 250,
        },
        rotation_duration_ms: 60_000,
        pause_pre_agitation_ms: 1_000,
        agitation: Rotation {
            rpm: 39,
            acceleration: 20_000,
            step_mode: StepMode128::M128,
            duration_of_one_direction_cycle_ms: 500,
            steps_for_one_direction_cycle: 12_800,
            direction: Direction::Backward,
            pause_before_direction_change_ms: 0,
        },
        agitation_duration_ms: 30_000,
        pause_post_agitation_ms: 2_000,
        global_duration_ms: 31_536_000_000,
    }
}

fn expected_axis(r: &Rotation, mode: u8, direction: u8) -> Vec<u8> {
    let mut out = Vec::new();
    out.extend_from_slice(&r.rpm.to_le_bytes());
    out.extend_from_slice(&r.acceleration.to_le_bytes());
    out.push(mode);
    out.extend_from_slice(&r.duration_of_one_direction_cycle_ms.to_le_bytes());
    out.extend_from_slice(&r.steps_for_one_direction_cycle.to_le_bytes());
    out.push(direction);
    out.extend_from_slice(&r.pause_before_direction_change_ms.to_le_bytes());
    out
}

fn expected_frame(p: &Protocol) -> Vec<u8> {
    let mut out = vec![b'a'];
    out.extend(expected_axis(&p.rotation, 3, 0));
    out.extend_from_slice(&p.rotation_duration_ms.to_le_bytes());
    out.extend_from_slice(&p.pause_pre_agitation_ms.to_le_bytes());
    out.extend(expected_axis(&p.agitation, 7, 1));
    out.extend_from_slice(&p.agitation_duration_ms.to_le_bytes());
    out.extend_from_slice(&p.pause_post_agitation_ms.to_le_bytes());
    out.extend_from_slice(&p.global_duration_ms.to_le_bytes());
    out.push(b'z');
    out
}

#[test]
fn default_protocol_frame_has_sentinels() {
    let protocol = Protocol::default();
    let bytes = protocol.protocol_as_bytes();
    assert_eq!(bytes.len(), 110);
    assert_eq!(BYTES, 110);
    assert_eq!(bytes[0], b'a');
    assert_eq!(bytes[109], b'z');
    assert_eq!(Protocol::from_bytes(&bytes), Some(protocol));
}

#[test]
fn default_protocol_frame_bytes() {
    let bytes = Protocol::default().protocol_as_bytes();
    let mut expected = vec![0u8; 110];
    expected[0] = b'a';
    expected[1] = 1; // rotation rpm
    expected[5] = 1; // rotation acceleration
    expected[51] = 1; // agitation rpm
    expected[55] = 1; // agitation acceleration
    expected[109] = b'z';
    assert_eq!(bytes.to_vec(), expected);
}

#[test]
fn rotation_record_layout() {
    let rotation = Rotation {
        rpm: 0x0403_0201,
        acceleration: 20_000,
        step_mode: StepMode128::M16,
        duration_of_one_direction_cycle_ms: 0x0807_0605_0403_0201,
        steps_for_one_direction_cycle: 3,
        direction: Direction::Backward,
        pause_before_direction_change_ms: 500,
    };
    let bytes = rotation.convert_to_bytes();
    assert_eq!(bytes.len(), 34);
    assert_eq!(&bytes[0..4], &[1, 2, 3, 4]);
    assert_eq!(&bytes[4..8], &20_000u32.to_le_bytes());
    assert_eq!(bytes[8], 4);
    assert_eq!(&bytes[9..17], &[1, 2, 3, 4, 5, 6, 7, 8]);
    assert_eq!(&bytes[17..25], &3u64.to_le_bytes());
    assert_eq!(bytes[25], 1);
    assert_eq!(&bytes[26..34], &500u64.to_le_bytes());
    assert_eq!(Rotation::from_bytes(&bytes), Some(rotation));
}

#[test]
fn protocol_frame_matches_fixture() {
    let protocol = sample_protocol();
    let bytes = protocol.protocol_as_bytes();
    assert_eq!(bytes.to_vec(), expected_frame(&protocol));
    assert_eq!(&bytes[35..43], &60_000u64.to_le_bytes());
    assert_eq!(&bytes[43..51], &1_000u64.to_le_bytes());
    assert_eq!(&bytes[85..93], &30_000u64.to_le_bytes());
    assert_eq!(&bytes[93..101], &2_000u64.to_le_bytes());
    assert_eq!(&bytes[101..109], &31_536_000_000u64.to_le_bytes());
}

#[test]
fn protocol_round_trip() {
    let protocol = sample_protocol();
    assert_eq!(Protocol::from_bytes(&protocol.protocol_as_bytes()), Some(protocol));
}

#[test]
fn protocol_round_trip_at_the_extremes() {
    let axis = Rotation {
        rpm: u32::MAX,
        acceleration: u32::MAX,
        step_mode: StepMode128::M128,
        duration_of_one_direction_cycle_ms: u64::MAX,
        steps_for_one_direction_cycle: u64::MAX,
        direction: Direction::Backward,
        pause_before_direction_change_ms: u64::MAX,
    };
    let protocol = Protocol {
        rotation: axis,
        rotation_duration_ms: u64::MAX,
        pause_pre_agitation_ms: u64::MAX - 1,
        agitation: Rotation { step_mode: StepMode128::Full, direction: Direction::Forward, ..axis },
        agitation_duration_ms: 1,
        pause_post_agitation_ms: 0,
        global_duration_ms: 0x0102_0304_0506_0708,
    };
    let bytes = protocol.protocol_as_bytes();
    assert_eq!(&bytes[101..109], &[8, 7, 6, 5, 4, 3, 2, 1]);
    assert_eq!(Protocol::from_bytes(&bytes), Some(protocol));
}

#[test]
fn frame_of_wrong_length_is_refused() {
    let bytes = sample_protocol().protocol_as_bytes();
    assert_eq!(Protocol::from_bytes(&bytes[..109]), None);
    let mut longer = bytes.to_vec();
    longer.push(0);
    assert_eq!(Protocol::from_bytes(&longer), None);
    assert_eq!(Protocol::from_bytes(&[]), None);
}

#[test]
fn frame_without_sentinels_is_refused() {
    let mut bytes = sample_protocol().protocol_as_bytes();
    bytes[0] = b'b';
    assert_eq!(Protocol::from_bytes(&bytes), None);
    let mut bytes = sample_protocol().protocol_as_bytes();
    bytes[109] = b'a';
    assert_eq!(Protocol::from_bytes(&bytes), None);
}

#[test]
fn frame_with_unknown_mode_or_direction_is_refused() {
    let mut bytes = sample_protocol().protocol_as_bytes();
    bytes[9] = 8; // step mode of the rotation axis
    assert_eq!(Protocol::from_bytes(&bytes), None);
    let mut bytes = sample_protocol().protocol_as_bytes();
    bytes[26] = 2; // direction of the rotation axis
    assert_eq!(Protocol::from_bytes(&bytes), None);
    let mut bytes = sample_protocol().protocol_as_bytes();
    bytes[59] = 200; // step mode of the agitation axis
    assert_eq!(Protocol::from_bytes(&bytes), None);
    let mut bytes = sample_protocol().protocol_as_bytes();
    bytes[76] = 255; // direction of the agitation axis
    assert_eq!(Protocol::from_bytes(&bytes), None);
}

#[test]
fn axis_record_of_wrong_length_is_refused() {
    let bytes = Rotation::default().convert_to_bytes();
    assert_eq!(Rotation::from_bytes(&bytes[..33]), None);
    assert_eq!(Rotation::from_bytes(&bytes), Some(Rotation::default()));
}

#[test]
fn step_mode_bytes_and_multipliers() {
    let modes = StepMode128::Full.get_modes();
    assert_eq!(modes.len(), 8);
    let mut multiplier = 1u32;
    for (i, mode) in modes.iter().enumerate() {
        assert_eq!(mode.to_byte() as usize, i);
        assert_eq!(mode.get_multiplier(), multiplier);
        assert_eq!(StepMode128::from_byte(i as u8), Some(*mode));
        multiplier *= 2;
    }
    assert_eq!(StepMode128::from_byte(8), None);
    assert_eq!(StepMode128::default(), StepMode128::Full);
    assert_eq!(StepMode128::M16.label(), "1/16");
    assert_eq!(StepMode128::Full.label(), "Full");
}

#[test]
fn direction_bytes() {
    assert_eq!(Direction::Forward.to_byte(), 0);
    assert_eq!(Direction::Backward.to_byte(), 1);
    assert_eq!(Direction::from_byte(0), Some(Direction::Forward));
    assert_eq!(Direction::from_byte(1), Some(Direction::Backward));
    assert_eq!(Direction::from_byte(2), None);
    assert_eq!(Direction::Forward.reverse(), Direction::Backward);
    assert_eq!(Direction::Backward.reverse(), Direction::Forward);
    assert_eq!(Direction::default(), Direction::Forward);
    assert_eq!(Direction::Backward.label(), "Backward");
}

#[test]
fn max_rpm_is_divided_by_the_resolution() {
    let mut previous = u32::MAX;
    for mode in StepMode128::Full.get_modes() {
        let axis = Rotation { step_mode: mode, ..Rotation::default() };
        let max = axis.max_rpm_for_stepmode();
        assert_eq!(max, MAX_RPM / mode.get_multiplier());
        assert!(max <= previous);
        previous = max;
    }
    let finest = Rotation { step_mode: StepMode128::M128, ..Rotation::default() };
    assert_eq!(finest.max_rpm_for_stepmode(), 39);
    let full = Rotation::default();
    assert_eq!(full.max_rpm_for_stepmode(), 5_000);
}

#[test]
fn telemetry_codes_decode() {
    let table: [(&[u8; 3], StepperState); 16] = [
        (b"ok!", StepperState::CommandReceived),
        (b"fin", StepperState::Finished),
        (b"emr", StepperState::EmergencyStop),
        (b"er1", StepperState::OpenLoad),
        (b"er2", StepperState::OverCurrent),
        (b"er3", StepperState::OverHeat),
        (b"osr", StepperState::OscillationRotation),
        (b"osa", StepperState::OscillationAgitation),
        (b"str", StepperState::StartRotation),
        (b"stp", StepperState::StartPauseRotation),
        (b"stq", StepperState::StartPausePreAgitation),
        (b"sta", StepperState::StartAgitation),
        (b"stb", StepperState::StartPauseAgitation),
        (b"stc", StepperState::StartPausePostAgitation),
        (b"erp", StepperState::StepgenRotationError),
        (b"eap", StepperState::StepgenAgitationError),
    ];
    for (code, state) in table.iter() {
        assert_eq!(StepperState::from(*code), *state);
        assert_eq!(state.to_code(), Some(**code));
    }
    assert_eq!(StepperState::Invalid.to_code(), None);
}

#[test]
fn unknown_telemetry_codes_are_invalid() {
    assert_eq!(StepperState::from(b"xyz"), StepperState::Invalid);
    assert_eq!(StepperState::from(b"ok?"), StepperState::Invalid);
    assert_eq!(StepperState::from(b"OK!"), StepperState::Invalid);
    assert_eq!(StepperState::from(&[0u8, 0, 0]), StepperState::Invalid);
    assert_eq!(StepperState::from(b"hi?"), StepperState::Invalid);
    assert_eq!(StepperState::from(b"st!"), StepperState::Invalid);
}

#[test]
fn telemetry_labels_and_faults() {
    assert_eq!(StepperState::Finished.label(), "Idle");
    assert_eq!(StepperState::OverCurrent.label(), "Over current");
    assert_eq!(StepperState::StepgenAgitationError.label(), "Error generating agitation steps");
    assert_eq!(StepperState::default(), StepperState::Finished);
    let faults = [
        StepperState::EmergencyStop,
        StepperState::OpenLoad,
        StepperState::OverCurrent,
        StepperState::OverHeat,
        StepperState::StepgenRotationError,
        StepperState::StepgenAgitationError,
    ];
    for fault in faults.iter() {
        assert!(fault.get_is_fault());
    }
    assert!(!StepperState::Finished.get_is_fault());
    assert!(!StepperState::Invalid.get_is_fault());
    assert!(!StepperState::StartRotation.get_is_fault());
}
