use vstd::prelude::*;

verus! {

/// How long the relay is held engaged for one button press.
pub const PRESS_MS: u64 = 1000;

/// One operation on a door's actuator pin, carried out by the caller.
#[derive(Clone, Copy, Debug, PartialEq, Eq, Structural)]
pub enum PinCommand {
    /// Take exclusive ownership of the pin as an output.
    Claim,
    /// Drive the pin high, engaging the relay.
    DriveHigh,
    /// Keep the pin as it is for `ms` milliseconds.
    Hold { ms: u64 },
    /// Drive the pin low and read back that it is low.
    DriveLow,
}

/// How a press ended.
#[derive(Clone, Copy, Debug, PartialEq, Eq, Structural)]
pub enum PressOutcome {
    Pressed,
    /// The pin could not be claimed or driven.
    PinFault,
}

/// Progress of one button press.
#[derive(Clone, Copy, Debug, PartialEq, Eq, Structural)]
pub enum PressPhase {
    Unclaimed,
    Claimed,
    Engaged,
    /// The pin must be driven low; `faulted` records an earlier failure.
    Releasing { faulted: bool },
    Finished { outcome: PressOutcome },
}

/// The command to carry out in phase `p`; none once the press is finished.
pub open spec fn command_of(p: PressPhase) -> Option<PinCommand> {
    match p {
        PressPhase::Unclaimed => Some(PinCommand::Claim),
        PressPhase::Claimed => Some(PinCommand::DriveHigh),
        PressPhase::Engaged => Some(PinCommand::Hold { ms: PRESS_MS }),
        PressPhase::Releasing { .. } => Some(PinCommand::DriveLow),
        PressPhase::Finished { .. } => None,
    }
}

/// The phase after the command of `p` succeeded or failed. Once the pin is
/// claimed every failure leads to a release, and a release that could not be
/// confirmed is tried again.
pub open spec fn step(p: PressPhase, succeeded: bool) -> PressPhase {
    match p {
        PressPhase::Unclaimed => if succeeded {
            PressPhase::Claimed
        } else {
            PressPhase::Finished { outcome: PressOutcome::PinFault }
        },
        PressPhase::Claimed => if succeeded {
            PressPhase::Engaged
        } else {
            PressPhase::Releasing { faulted: true }
        },
        PressPhase::Engaged => PressPhase::Releasing { faulted: !succeeded },
        PressPhase::Releasing { faulted } => if !succeeded {
            PressPhase::Releasing { faulted: true }
        } else if faulted {
            PressPhase::Finished { outcome: PressOutcome::PinFault }
        } else {
            PressPhase::Finished { outcome: PressOutcome::Pressed }
        },
        PressPhase::Finished { .. } => p,
    }
}

/// Whether the relay may be engaged in phase `p`.
pub open spec fn may_be_active(p: PressPhase) -> bool {
    p is Engaged || p is Releasing
}

/// The phase reached from `p` when the commands succeed or fail as `results` says.
pub open spec fn run(p: PressPhase, results: Seq<bool>) -> PressPhase
    decreases results.len(),
{
    if results.len() == 0 || p is Finished {
        p
    } else {
        run(step(p, results[0]), results.drop_first())
    }
}

/// The commands carried out from `p` when they succeed or fail as `results` says.
pub open spec fn commands(p: PressPhase, results: Seq<bool>) -> Seq<PinCommand>
    decreases results.len(),
{
    if results.len() == 0 || p is Finished {
        Seq::empty()
    } else {
        seq![command_of(p)->Some_0] + commands(step(p, results[0]), results.drop_first())
    }
}

impl PressPhase {
    /// The phase a press starts in.
    pub fn start() -> (r: PressPhase)
        ensures
            r == PressPhase::Unclaimed,
    {
        PressPhase::Unclaimed
    }

    /// The next command to carry out, or `None` when the press is over.
    pub fn command(&self) -> (r: Option<PinCommand>)
        ensures
            r == command_of(*self),
    {
        match self {
            PressPhase::Unclaimed => Some(PinCommand::Claim),
            PressPhase::Claimed => Some(PinCommand::DriveHigh),
            PressPhase::Engaged => Some(PinCommand::Hold { ms: PRESS_MS }),
            PressPhase::Releasing { .. } => Some(PinCommand::DriveLow),
            PressPhase::Finished { .. } => None,
        }
    }

    /// The phase after the current command succeeded or failed.
    pub fn after(&self, succeeded: bool) -> (r: PressPhase)
        ensures
            r == step(*self, succeeded),
    {
        match *self {
            PressPhase::Unclaimed => if succeeded {
                PressPhase::Claimed
            } else {
                PressPhase::Finished { outcome: PressOutcome::PinFault }
            },
            PressPhase::Claimed => if succeeded {
                PressPhase::Engaged
            } else {
                PressPhase::Releasing { faulted: true }
            },
            PressPhase::Engaged => PressPhase::Releasing { faulted: !succeeded },
            PressPhase::Releasing { faulted } => if !succeeded {
                PressPhase::Releasing { faulted: true }
            } else if faulted {
                PressPhase::Finished { outcome: PressOutcome::PinFault }
            } else {
                PressPhase::Finished { outcome: PressOutcome::Pressed }
            },
            PressPhase::Finished { .. } => *self,
        }
    }

    /// How the press ended, once it has.
    pub fn outcome(&self) -> (r: Option<PressOutcome>)
        ensures
            r == (match *self {
                PressPhase::Finished { outcome } => Some(outcome),
                _ => None,
            }),
    {
        match self {
            PressPhase::Finished { outcome } => Some(*outcome),
            _ => None,
        }
    }
}

/// The relay is held for exactly `PRESS_MS`, and only once it has been engaged.
pub proof fn lemma_hold_is_press_duration(p: PressPhase)
    ensures
        command_of(p) matches Some(PinCommand::Hold { ms }) ==> ms == PRESS_MS && p is Engaged,
        may_be_active(p) ==> command_of(p) == Some(PinCommand::Hold { ms: PRESS_MS })
            || command_of(p) == Some(PinCommand::DriveLow),
{
}

/// When every command succeeds, a press is: claim, drive high, hold for
/// `PRESS_MS`, drive low; it then ends `Pressed` with the relay released.
pub proof fn lemma_press_success_path()
    ensures
        commands(PressPhase::Unclaimed, seq![true, true, true, true]) == seq![
            PinCommand::Claim,
            PinCommand::DriveHigh,
            PinCommand::Hold { ms: PRESS_MS },
            PinCommand::DriveLow,
        ],
        run(PressPhase::Unclaimed, seq![true, true, true, true]) == (PressPhase::Finished {
            outcome: PressOutcome::Pressed,
        }),
        !may_be_active(run(PressPhase::Unclaimed, seq![true, true, true, true])),
{
    let r = seq![true, true, true, true];
    assert(r.drop_first() =~= seq![true, true, true]);
    assert(seq![true, true, true].drop_first() =~= seq![true, true]);
    assert(seq![true, true].drop_first() =~= seq![true]);
    assert(seq![true].drop_first() =~= Seq::<bool>::empty());
    reveal_with_fuel(commands, 5);
    reveal_with_fuel(run, 5);
    assert(commands(PressPhase::Unclaimed, r) =~= seq![
        PinCommand::Claim,
        PinCommand::DriveHigh,
        PinCommand::Hold { ms: PRESS_MS },
        PinCommand::DriveLow,
    ]);
}

/// A fault while the relay is held still ends with the relay driven low and
/// the fault reported.
pub proof fn lemma_press_fault_path_releases()
    ensures
        commands(PressPhase::Unclaimed, seq![true, true, false, true]) == seq![
            PinCommand::Claim,
            PinCommand::DriveHigh,
            PinCommand::Hold { ms: PRESS_MS },
            PinCommand::DriveLow,
        ],
        run(PressPhase::Unclaimed, seq![true, true, false, true]) == (PressPhase::Finished {
            outcome: PressOutcome::PinFault,
        }),
        !may_be_active(run(PressPhase::Unclaimed, seq![true, true, false, true])),
{
    let r = seq![true, true, false, true];
    assert(r.drop_first() =~= seq![true, false, true]);
    assert(seq![true, false, true].drop_first() =~= seq![false, true]);
    assert(seq![false, true].drop_first() =~= seq![true]);
    assert(seq![true].drop_first() =~= Seq::<bool>::empty());
    reveal_with_fuel(commands, 5);
    reveal_with_fuel(run, 5);
    assert(commands(PressPhase::Unclaimed, r) =~= seq![
        PinCommand::Claim,
        PinCommand::DriveHigh,
        PinCommand::Hold { ms: PRESS_MS },
        PinCommand::DriveLow,
    ]);
}

/// Whatever succeeds or fails, a press that has finished either never got
/// its pin, or ended with a confirmed drive low; the relay is never left
/// engaged.
pub proof fn lemma_finished_press_is_released(p: PressPhase, results: Seq<bool>)
    requires
        !(p is Finished),
        run(p, results) is Finished,
    ensures
        !may_be_active(run(p, results)),
        ({
            let c = commands(p, results);
            (p is Unclaimed && c == seq![PinCommand::Claim] && run(p, results) == (
            PressPhase::Finished { outcome: PressOutcome::PinFault }))
            || (c.len() > 0 && c.last() == PinCommand::DriveLow)
        }),
    decreases results.len(),
{
    let q = step(p, results[0]);
    let rest = results.drop_first();
    if q is Finished {
        assert(run(q, rest) == q);
        assert(commands(q, rest) == Seq::<PinCommand>::empty());
        assert(commands(p, results) =~= seq![command_of(p)->Some_0]);
    } else {
        lemma_finished_press_is_released(q, rest);
        let c = commands(p, results);
        assert(c == seq![command_of(p)->Some_0] + commands(q, rest));
        assert(q is Unclaimed ==> false);
        assert(c.last() == commands(q, rest).last());
    }
}

} // verus!
