use dma_pwm::robot_state::{CoralState, MovementState};

#[test]
fn coral_state_codes_round_trip() {
    let states = [CoralState::Absent, CoralState::Held, CoralState::Transit];
    for state in states {
        assert_eq!(CoralState::from_code(state.code()), Some(state));
    }
    assert_eq!(CoralState::from_code(0), Some(CoralState::Absent));
    assert_eq!(CoralState::from_code(1), Some(CoralState::Held));
    assert_eq!(CoralState::from_code(2), Some(CoralState::Transit));
}

#[test]
fn movement_state_codes_round_trip() {
    let states = [
        MovementState::Driver,
        MovementState::AutoAlignPath,
        MovementState::AutoAlignPid,
        MovementState::SuccessfullyAligned,
    ];
    for state in states {
        assert_eq!(MovementState::from_code(state.code()), Some(state));
    }
    assert_eq!(MovementState::from_code(3), Some(MovementState::SuccessfullyAligned));
}

#[test]
fn out_of_contract_codes_decode_to_nothing() {
    assert_eq!(CoralState::from_code(3), None);
    assert_eq!(CoralState::from_code(-1), None);
    assert_eq!(MovementState::from_code(4), None);
    assert_eq!(MovementState::from_code(i64::MAX), None);
}
