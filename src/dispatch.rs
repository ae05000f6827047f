use vstd::prelude::*;
use crate::actuator::PressOutcome;
use crate::door::{door_named, str_equal, DoorId};
use crate::ranging::DoorState;

verus! {

/// The doors a status query is about.
#[derive(Clone, Copy, Debug, PartialEq, Eq, Structural)]
pub enum DoorTarget {
    One(DoorId),
    All,
}

/// A request to the controller.
#[derive(Clone, Copy, Debug, PartialEq, Eq, Structural)]
pub enum Command {
    /// Press the door's button whatever its state.
    Toggle(DoorId),
    /// Press the button only if the door is sensed closed.
    Open(DoorId),
    /// Press the button only if the door is sensed open.
    Close(DoorId),
    /// Report the sensed state; never presses.
    Status(DoorTarget),
}

/// Why an incoming message could not be turned into a command.
#[derive(Clone, Copy, Debug, PartialEq, Eq, Structural)]
pub enum CommandError {
    UnknownMessageType,
    UnknownDoorId,
}

/// How a command ended.
#[derive(Clone, Copy, Debug, PartialEq, Eq, Structural)]
pub enum DispatchResult {
    /// The button was pressed.
    Pressed(DoorId),
    /// The button press failed on its pin.
    PressFailed(DoorId),
    /// The door was already in the requested state; nothing was pressed.
    Unchanged(DoorId, DoorState),
    /// The door's state could not be sensed; nothing was pressed.
    Ambiguous(DoorId),
    /// A status query about one door.
    Observed(DoorId, DoorState),
}

/// What the caller does next for a command.
#[derive(Clone, Copy, Debug, PartialEq, Eq, Structural)]
pub enum Step {
    /// Range the door and report its state.
    Measure(DoorId),
    /// Press the door's button and report how the press ended.
    Press(DoorId),
    /// Build a status report over every configured door.
    Aggregate,
    Finish(DispatchResult),
}

/// The state of a door that an open or close command leaves unchanged.
pub open spec fn wanted_state(cmd: Command) -> DoorState {
    match cmd {
        Command::Close(_) => DoorState::Closed,
        _ => DoorState::Open,
    }
}

pub open spec fn first_step_spec(cmd: Command) -> Step {
    match cmd {
        Command::Toggle(d) => Step::Press(d),
        Command::Open(d) => Step::Measure(d),
        Command::Close(d) => Step::Measure(d),
        Command::Status(DoorTarget::One(d)) => Step::Measure(d),
        Command::Status(DoorTarget::All) => Step::Aggregate,
    }
}

/// The decision once the door of an open, close or single status command
/// has been sensed.
pub open spec fn after_measure_spec(cmd: Command, sensed: DoorState) -> Step {
    match cmd {
        Command::Status(DoorTarget::One(d)) => Step::Finish(DispatchResult::Observed(d, sensed)),
        Command::Open(d) | Command::Close(d) => if sensed == DoorState::Unknown {
            Step::Finish(DispatchResult::Ambiguous(d))
        } else if sensed == wanted_state(cmd) {
            Step::Finish(DispatchResult::Unchanged(d, sensed))
        } else {
            Step::Press(d)
        },
        _ => first_step_spec(cmd),
    }
}

pub open spec fn after_press_spec(d: DoorId, outcome: PressOutcome) -> Step {
    match outcome {
        PressOutcome::Pressed => Step::Finish(DispatchResult::Pressed(d)),
        PressOutcome::PinFault => Step::Finish(DispatchResult::PressFailed(d)),
    }
}

/// The steps a command goes through when its door is sensed as `sensed` and a
/// press ends as `outcome`.
pub open spec fn trace(cmd: Command, sensed: DoorState, outcome: PressOutcome) -> Seq<Step> {
    let s1 = first_step_spec(cmd);
    match s1 {
        Step::Press(d) => seq![s1, after_press_spec(d, outcome)],
        Step::Measure(_) => {
            let s2 = after_measure_spec(cmd, sensed);
            match s2 {
                Step::Press(d) => seq![s1, s2, after_press_spec(d, outcome)],
                _ => seq![s1, s2],
            }
        },
        _ => seq![s1],
    }
}

/// Number of button presses among `steps`.
pub open spec fn press_count(steps: Seq<Step>) -> nat
    decreases steps.len(),
{
    if steps.len() == 0 {
        0
    } else {
        press_count(steps.drop_last()) + if steps.last() is Press {
            1nat
        } else {
            0nat
        }
    }
}

/// The first step of a command.
pub fn first_step(cmd: Command) -> (r: Step)
    ensures
        r == first_step_spec(cmd),
{
    match cmd {
        Command::Toggle(d) => Step::Press(d),
        Command::Open(d) => Step::Measure(d),
        Command::Close(d) => Step::Measure(d),
        Command::Status(DoorTarget::One(d)) => Step::Measure(d),
        Command::Status(DoorTarget::All) => Step::Aggregate,
    }
}

/// Opens a door that was sensed as `sensed`: a press only if it is closed.
pub fn try_open(door: DoorId, sensed: DoorState) -> (r: Step)
    ensures
        r == after_measure_spec(Command::Open(door), sensed),
{
    match sensed {
        DoorState::Closed => Step::Press(door),
        DoorState::Open => Step::Finish(DispatchResult::Unchanged(door, sensed)),
        DoorState::Unknown => Step::Finish(DispatchResult::Ambiguous(door)),
    }
}

/// Closes a door that was sensed as `sensed`: a press only if it is open.
pub fn try_close(door: DoorId, sensed: DoorState) -> (r: Step)
    ensures
        r == after_measure_spec(Command::Close(door), sensed),
{
    match sensed {
        DoorState::Open => Step::Press(door),
        DoorState::Closed => Step::Finish(DispatchResult::Unchanged(door, sensed)),
        DoorState::Unknown => Step::Finish(DispatchResult::Ambiguous(door)),
    }
}

/// What a status query about one door answers: whether it is open, or
/// `Ambiguous` when its state is unknown.
pub open spec fn status_answer(door: DoorId, sensed: DoorState) -> Result<bool, DispatchResult> {
    match sensed {
        DoorState::Open => Ok(true),
        DoorState::Closed => Ok(false),
        DoorState::Unknown => Err(DispatchResult::Ambiguous(door)),
    }
}

/// Whether `door`, sensed as `sensed`, is open; an unknown state is an
/// error, never a guess.
pub fn try_get_status(door: DoorId, sensed: DoorState) -> (r: Result<bool, DispatchResult>)
    ensures
        r == status_answer(door, sensed),
{
    match sensed {
        DoorState::Open => Ok(true),
        DoorState::Closed => Ok(false),
        DoorState::Unknown => Err(DispatchResult::Ambiguous(door)),
    }
}

/// The step after the door of `cmd` has been sensed as `sensed`; a command
/// that senses nothing stays at its first step.
pub fn after_measure(cmd: Command, sensed: DoorState) -> (r: Step)
    ensures
        r == after_measure_spec(cmd, sensed),
{
    match cmd {
        Command::Open(d) => try_open(d, sensed),
        Command::Close(d) => try_close(d, sensed),
        Command::Status(DoorTarget::One(d)) => Step::Finish(DispatchResult::Observed(d, sensed)),
        _ => first_step(cmd),
    }
}

/// The step after the press of door `d` ended as `outcome`.
pub fn after_press(d: DoorId, outcome: PressOutcome) -> (r: Step)
    ensures
        r == after_press_spec(d, outcome),
{
    match outcome {
        PressOutcome::Pressed => Step::Finish(DispatchResult::Pressed(d)),
        PressOutcome::PinFault => Step::Finish(DispatchResult::PressFailed(d)),
    }
}

/// The command an incoming message asks for, from its message type and the
/// door it names.
pub open spec fn decode_spec(kind: Seq<char>, door: Seq<char>) -> Result<Command, CommandError> {
    let d = door_named(door);
    if kind == seq!['s', 't', 'a', 't', 'u', 's'] && door == seq!['a', 'l', 'l'] {
        Ok(Command::Status(DoorTarget::All))
    } else if kind != seq!['t', 'o', 'g', 'g', 'l', 'e'] && kind != seq!['o', 'p', 'e', 'n']
        && kind != seq!['c', 'l', 'o', 's', 'e'] && kind != seq!['s', 't', 'a', 't', 'u', 's'] {
        Err(CommandError::UnknownMessageType)
    } else if d is None {
        Err(CommandError::UnknownDoorId)
    } else if kind == seq!['t', 'o', 'g', 'g', 'l', 'e'] {
        Ok(Command::Toggle(d->Some_0))
    } else if kind == seq!['o', 'p', 'e', 'n'] {
        Ok(Command::Open(d->Some_0))
    } else if kind == seq!['c', 'l', 'o', 's', 'e'] {
        Ok(Command::Close(d->Some_0))
    } else {
        Ok(Command::Status(DoorTarget::One(d->Some_0)))
    }
}

impl Command {
    /// Reads a command from a message type (`toggle`, `open`, `close` or
    /// `status`) and a door identifier; `all` names every door in a status
    /// query.
    pub fn decode(kind: &str, door: &str) -> (r: Result<Command, CommandError>)
        ensures
            r == decode_spec(kind@, door@),
    {
        proof {
            reveal_strlit("toggle");
            reveal_strlit("open");
            reveal_strlit("close");
            reveal_strlit("status");
            reveal_strlit("all");
            assert("toggle"@ =~= seq!['t', 'o', 'g', 'g', 'l', 'e']);
            assert("open"@ =~= seq!['o', 'p', 'e', 'n']);
            assert("close"@ =~= seq!['c', 'l', 'o', 's', 'e']);
            assert("status"@ =~= seq!['s', 't', 'a', 't', 'u', 's']);
            assert("all"@ =~= seq!['a', 'l', 'l']);
        }
        let is_toggle = str_equal(kind, "toggle");
        let is_open = str_equal(kind, "open");
        let is_close = str_equal(kind, "close");
        let is_status = str_equal(kind, "status");
        if is_status && str_equal(door, "all") {
            return Ok(Command::Status(DoorTarget::All));
        }
        if !is_toggle && !is_open && !is_close && !is_status {
            return Err(CommandError::UnknownMessageType);
        }
        let d = if str_equal(door, DoorId::Left.name()) {
            DoorId::Left
        } else if str_equal(door, DoorId::Middle.name()) {
            DoorId::Middle
        } else if str_equal(door, DoorId::Right.name()) {
            DoorId::Right
        } else {
            return Err(CommandError::UnknownDoorId);
        };
        if is_toggle {
            Ok(Command::Toggle(d))
        } else if is_open {
            Ok(Command::Open(d))
        } else if is_close {
            Ok(Command::Close(d))
        } else {
            Ok(Command::Status(DoorTarget::One(d)))
        }
    }
}

proof fn lemma_press_count_small(a: Step, b: Step, c: Step)
    ensures
        press_count(seq![a]) == (if a is Press { 1nat } else { 0nat }),
        press_count(seq![a, b]) == press_count(seq![a]) + (if b is Press { 1nat } else { 0nat }),
        press_count(seq![a, b, c]) == press_count(seq![a, b]) + (if c is Press { 1nat } else { 0nat }),
{
    reveal_with_fuel(press_count, 4);
    assert(seq![a].drop_last() =~= Seq::<Step>::empty());
    assert(seq![a, b].drop_last() =~= seq![a]);
    assert(seq![a, b, c].drop_last() =~= seq![a, b]);
}

/// A toggle presses the button exactly once, and what the door was sensed as
/// plays no part.
pub proof fn lemma_toggle_presses_once(d: DoorId, sensed: DoorState, other: DoorState, outcome: PressOutcome)
    ensures
        press_count(trace(Command::Toggle(d), sensed, outcome)) == 1,
        trace(Command::Toggle(d), sensed, outcome) == trace(Command::Toggle(d), other, outcome),
        trace(Command::Toggle(d), sensed, outcome)[0] == Step::Press(d),
{
    let t = trace(Command::Toggle(d), sensed, outcome);
    lemma_press_count_small(t[0], t[1], t[1]);
    assert(t =~= seq![t[0], t[1]]);
}

/// Opening an open door, or closing a closed one, presses nothing.
pub proof fn lemma_already_in_state_is_idempotent(d: DoorId, outcome: PressOutcome)
    ensures
        press_count(trace(Command::Open(d), DoorState::Open, outcome)) == 0,
        trace(Command::Open(d), DoorState::Open, outcome).last() == Step::Finish(
            DispatchResult::Unchanged(d, DoorState::Open),
        ),
        press_count(trace(Command::Close(d), DoorState::Closed, outcome)) == 0,
        trace(Command::Close(d), DoorState::Closed, outcome).last() == Step::Finish(
            DispatchResult::Unchanged(d, DoorState::Closed),
        ),
{
    let t = trace(Command::Open(d), DoorState::Open, outcome);
    lemma_press_count_small(t[0], t[1], t[1]);
    assert(t =~= seq![t[0], t[1]]);
    let u = trace(Command::Close(d), DoorState::Closed, outcome);
    lemma_press_count_small(u[0], u[1], u[1]);
    assert(u =~= seq![u[0], u[1]]);
}

/// Opening or closing a door whose state is unknown presses nothing and ends
/// ambiguous, rather than treating the door as closed or open.
pub proof fn lemma_unknown_state_never_presses(d: DoorId, outcome: PressOutcome)
    ensures
        press_count(trace(Command::Open(d), DoorState::Unknown, outcome)) == 0,
        trace(Command::Open(d), DoorState::Unknown, outcome).last() == Step::Finish(
            DispatchResult::Ambiguous(d),
        ),
        press_count(trace(Command::Close(d), DoorState::Unknown, outcome)) == 0,
        trace(Command::Close(d), DoorState::Unknown, outcome).last() == Step::Finish(
            DispatchResult::Ambiguous(d),
        ),
{
    let t = trace(Command::Open(d), DoorState::Unknown, outcome);
    lemma_press_count_small(t[0], t[1], t[1]);
    assert(t =~= seq![t[0], t[1]]);
    let u = trace(Command::Close(d), DoorState::Unknown, outcome);
    lemma_press_count_small(u[0], u[1], u[1]);
    assert(u =~= seq![u[0], u[1]]);
}

/// Opening a closed door, or closing an open one, presses exactly once; a
/// status query never presses.
pub proof fn lemma_change_presses_once(d: DoorId, target: DoorTarget, sensed: DoorState, outcome: PressOutcome)
    ensures
        press_count(trace(Command::Open(d), DoorState::Closed, outcome)) == 1,
        press_count(trace(Command::Close(d), DoorState::Open, outcome)) == 1,
        press_count(trace(Command::Status(target), sensed, outcome)) == 0,
{
    let t = trace(Command::Open(d), DoorState::Closed, outcome);
    lemma_press_count_small(t[0], t[1], t[2]);
    assert(t =~= seq![t[0], t[1], t[2]]);
    let u = trace(Command::Close(d), DoorState::Open, outcome);
    lemma_press_count_small(u[0], u[1], u[2]);
    assert(u =~= seq![u[0], u[1], u[2]]);
    let v = trace(Command::Status(target), sensed, outcome);
    lemma_press_count_small(v[0], v[0], v[0]);
    if target is All {
        assert(v =~= seq![v[0]]);
    } else {
        lemma_press_count_small(v[0], v[1], v[1]);
        assert(v =~= seq![v[0], v[1]]);
    }
}

} // verus!
