use connected_garage_controller::actuator::{PinCommand, PressOutcome, PressPhase, PRESS_MS};

/// Runs a press, answering the commands in turn from `results` (true: succeeded).
fn drive(results: &[bool]) -> (Vec<PinCommand>, PressPhase) {
    let mut phase = PressPhase::start();
    let mut issued = Vec::new();
    for &ok in results {
        match phase.command() {
            Some(c) => {
                issued.push(c);
                phase = phase.after(ok);
            }
            None => break,
        }
    }
    (issued, phase)
}

#[test]
fn press_holds_for_one_second_then_releases() {
    let (issued, phase) = drive(&[true, true, true, true, true]);
    assert_eq!(
        issued,
        vec![
            PinCommand::Claim,
            PinCommand::DriveHigh,
            PinCommand::Hold { ms: 1000 },
            PinCommand::DriveLow
        ]
    );
    assert_eq!(PRESS_MS, 1000);
    assert_eq!(phase.outcome(), Some(PressOutcome::Pressed));
    assert_eq!(phase.command(), None);
}

#[test]
fn fault_during_hold_still_releases() {
    let (issued, phase) = drive(&[true, true, false, true]);
    assert_eq!(issued.last(), Some(&PinCommand::DriveLow));
    assert_eq!(phase.outcome(), Some(PressOutcome::PinFault));
}

#[test]
fn fault_driving_high_releases_without_holding() {
    let (issued, phase) = drive(&[true, false, true]);
    assert_eq!(issued, vec![PinCommand::Claim, PinCommand::DriveHigh, PinCommand::DriveLow]);
    assert_eq!(phase.outcome(), Some(PressOutcome::PinFault));
}

#[test]
fn refused_claim_never_drives_the_pin() {
    let (issued, phase) = drive(&[false, true, true]);
    assert_eq!(issued, vec![PinCommand::Claim]);
    assert_eq!(phase.outcome(), Some(PressOutcome::PinFault));
}

#[test]
fn unconfirmed_release_is_retried() {
    let (issued, phase) = drive(&[true, true, true, false, true]);
    assert_eq!(issued[3], PinCommand::DriveLow);
    assert_eq!(issued[4], PinCommand::DriveLow);
    assert_eq!(phase.outcome(), Some(PressOutcome::PinFault));
    let (_, unfinished) = drive(&[true, true, true, false]);
    assert_eq!(unfinished.outcome(), None);
    assert_eq!(unfinished.command(), Some(PinCommand::DriveLow));
}
