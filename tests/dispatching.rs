use connected_garage_controller::actuator::PressOutcome;
use connected_garage_controller::dispatch::{
    after_measure, after_press, first_step, try_close, try_get_status, try_open, Command,
    CommandError, DispatchResult, DoorTarget, Step,
};
use connected_garage_controller::door::DoorId;
use connected_garage_controller::ranging::DoorState;

/// Runs a command to its end with the door sensed as `sensed`; returns the
/// number of presses and the result.
fn run(cmd: Command, sensed: DoorState) -> (usize, Option<DispatchResult>) {
    let mut presses = 0;
    let mut step = first_step(cmd);
    loop {
        match step {
            Step::Measure(_) => step = after_measure(cmd, sensed),
            Step::Press(d) => {
                presses += 1;
                step = after_press(d, PressOutcome::Pressed);
            }
            Step::Aggregate => return (presses, None),
            Step::Finish(r) => return (presses, Some(r)),
        }
    }
}

#[test]
fn toggle_presses_once_whatever_the_state() {
    for s in [DoorState::Open, DoorState::Closed, DoorState::Unknown] {
        assert_eq!(run(Command::Toggle(DoorId::Middle), s), (1, Some(DispatchResult::Pressed(DoorId::Middle))));
    }
    assert_eq!(first_step(Command::Toggle(DoorId::Left)), Step::Press(DoorId::Left));
}

#[test]
fn open_on_open_door_does_nothing() {
    assert_eq!(
        run(Command::Open(DoorId::Left), DoorState::Open),
        (0, Some(DispatchResult::Unchanged(DoorId::Left, DoorState::Open)))
    );
    assert_eq!(
        run(Command::Close(DoorId::Left), DoorState::Closed),
        (0, Some(DispatchResult::Unchanged(DoorId::Left, DoorState::Closed)))
    );
}

#[test]
fn open_on_unknown_door_is_ambiguous() {
    assert_eq!(run(Command::Open(DoorId::Right), DoorState::Unknown), (0, Some(DispatchResult::Ambiguous(DoorId::Right))));
    assert_eq!(run(Command::Close(DoorId::Right), DoorState::Unknown), (0, Some(DispatchResult::Ambiguous(DoorId::Right))));
}

#[test]
fn open_closed_door_presses_once() {
    assert_eq!(try_open(DoorId::Left, DoorState::Closed), Step::Press(DoorId::Left));
    assert_eq!(try_close(DoorId::Left, DoorState::Open), Step::Press(DoorId::Left));
    assert_eq!(run(Command::Open(DoorId::Left), DoorState::Closed), (1, Some(DispatchResult::Pressed(DoorId::Left))));
    assert_eq!(after_press(DoorId::Left, PressOutcome::PinFault), Step::Finish(DispatchResult::PressFailed(DoorId::Left)));
}

#[test]
fn status_never_presses() {
    assert_eq!(
        run(Command::Status(DoorTarget::One(DoorId::Middle)), DoorState::Unknown),
        (0, Some(DispatchResult::Observed(DoorId::Middle, DoorState::Unknown)))
    );
    assert_eq!(first_step(Command::Status(DoorTarget::All)), Step::Aggregate);
}

#[test]
fn status_answer_refuses_to_guess() {
    assert_eq!(try_get_status(DoorId::Left, DoorState::Open), Ok(true));
    assert_eq!(try_get_status(DoorId::Left, DoorState::Closed), Ok(false));
    assert_eq!(try_get_status(DoorId::Middle, DoorState::Unknown), Err(DispatchResult::Ambiguous(DoorId::Middle)));
}

#[test]
fn decode_messages() {
    assert_eq!(Command::decode("toggle", "left"), Ok(Command::Toggle(DoorId::Left)));
    assert_eq!(Command::decode("open", "middle"), Ok(Command::Open(DoorId::Middle)));
    assert_eq!(Command::decode("close", "right"), Ok(Command::Close(DoorId::Right)));
    assert_eq!(Command::decode("status", "left"), Ok(Command::Status(DoorTarget::One(DoorId::Left))));
    assert_eq!(Command::decode("status", "all"), Ok(Command::Status(DoorTarget::All)));
}

#[test]
fn decode_rejects_bad_messages() {
    assert_eq!(Command::decode("wat", "left"), Err(CommandError::UnknownMessageType));
    assert_eq!(Command::decode("wat", "nowhere"), Err(CommandError::UnknownMessageType));
    assert_eq!(Command::decode("toggle", "all"), Err(CommandError::UnknownDoorId));
    assert_eq!(Command::decode("open", "garage"), Err(CommandError::UnknownDoorId));
}
