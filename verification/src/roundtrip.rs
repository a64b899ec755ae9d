use vstd::prelude::*;

verus! {

/// How far a database round trip (connect, write a key, read it back) has
/// gone.
#[derive(PartialEq, Eq, Structural, Debug, Clone, Copy)]
pub enum RoundTripStage {
    /// Waiting for the connection.
    Connecting,
    /// Waiting for the write of the key.
    Writing,
    /// Waiting for the read of the key.
    Reading,
    /// The outcome has been decided.
    Finished,
}

/// What the caller does next on behalf of a round trip.
#[derive(Debug)]
pub enum RoundTripAction {
    /// Open a connection to the database.
    Connect,
    /// Write the value under the key.
    Write,
    /// Read the key back.
    Read,
    /// The round trip is over, with this outcome.
    Complete(Result<(), String>),
}

/// The stage that follows `stage` once its step came back with `outcome`:
/// any failure ends the round trip, a success moves it on.
pub open spec fn next_stage(stage: RoundTripStage, outcome: Result<(), String>) -> RoundTripStage {
    match outcome {
        Err(_) => RoundTripStage::Finished,
        Ok(()) => match stage {
            RoundTripStage::Connecting => RoundTripStage::Writing,
            RoundTripStage::Writing => RoundTripStage::Reading,
            _ => RoundTripStage::Finished,
        },
    }
}

/// What comes after the step of `stage` came back with `outcome`: the first
/// failure completes the round trip with its message; after the read
/// succeeds the round trip completes successfully.
pub open spec fn next_action(stage: RoundTripStage, outcome: Result<(), String>) -> RoundTripAction {
    match outcome {
        Err(msg) => RoundTripAction::Complete(Err(msg)),
        Ok(()) => match stage {
            RoundTripStage::Connecting => RoundTripAction::Write,
            RoundTripStage::Writing => RoundTripAction::Read,
            _ => RoundTripAction::Complete(Ok(())),
        },
    }
}

/// The outcome of a round trip started at `stage` whose steps come back with
/// `outcomes`, in order; `None` where they run out before it completes.
pub open spec fn drive(stage: RoundTripStage, outcomes: Seq<Result<(), String>>) -> Option<Result<(), String>>
    decreases outcomes.len(),
{
    if outcomes.len() == 0 {
        None
    } else {
        match next_action(stage, outcomes[0]) {
            RoundTripAction::Complete(r) => Some(r),
            _ => drive(next_stage(stage, outcomes[0]), outcomes.drop_first()),
        }
    }
}

/// The outcome of a whole round trip: the first failure among connecting,
/// writing and reading, or success where all three succeed.
pub open spec fn round_trip_outcome(
    connect: Result<(), String>,
    write: Result<(), String>,
    read: Result<(), String>,
) -> Result<(), String> {
    match connect {
        Err(msg) => Err(msg),
        Ok(()) => match write {
            Err(msg) => Err(msg),
            Ok(()) => match read {
                Err(msg) => Err(msg),
                Ok(()) => Ok(()),
            },
        },
    }
}

/// A round trip completes after at most three steps, and completes with the
/// first failure among them, or successfully where none failed.
pub proof fn lemma_round_trip_outcome(
    connect: Result<(), String>,
    write: Result<(), String>,
    read: Result<(), String>,
)
    ensures
        drive(RoundTripStage::Connecting, seq![connect, write, read]) == Some(
            round_trip_outcome(connect, write, read),
        ),
        connect is Err ==> drive(RoundTripStage::Connecting, seq![connect, write, read]) == Some(connect),
        connect is Ok && write is Err ==> drive(RoundTripStage::Connecting, seq![connect, write, read])
            == Some(write),
        connect is Ok && write is Ok && read is Err ==> drive(RoundTripStage::Connecting, seq![connect, write, read])
            == Some(read),
        connect is Ok && write is Ok && read is Ok ==> drive(RoundTripStage::Connecting, seq![connect, write, read])
            == Some(Ok::<(), String>(())),
        connect is Err ==> drive(RoundTripStage::Connecting, seq![connect]) == Some(connect),
        connect is Ok && write is Err ==> drive(RoundTripStage::Connecting, seq![connect, write]) == Some(write),
        connect is Ok && write is Ok ==> drive(RoundTripStage::Connecting, seq![connect, write]) is None,
{
    let s = seq![connect, write, read];
    assert(s.drop_first() =~= seq![write, read]);
    assert(s.drop_first().drop_first() =~= seq![read]);
    assert(s.drop_first().drop_first().drop_first() =~= Seq::<Result<(), String>>::empty());
    reveal_with_fuel(drive, 4);
    let s2 = seq![connect, write];
    assert(s2.drop_first() =~= seq![write]);
    assert(s2.drop_first().drop_first() =~= Seq::<Result<(), String>>::empty());
    let s1 = seq![connect];
    assert(s1.drop_first() =~= Seq::<Result<(), String>>::empty());
}

/// One database round trip of the synthetic workload, as a state machine:
/// the caller performs each action and hands back how it went.
pub struct RoundTrip {
    stage: RoundTripStage,
}

impl View for RoundTrip {
    type V = RoundTripStage;

    closed spec fn view(&self) -> RoundTripStage {
        self.stage
    }
}

impl RoundTrip {
    /// A round trip that has not begun, with its first action: connecting.
    pub fn start() -> (r: (RoundTrip, RoundTripAction))
        ensures
            r.0@ == RoundTripStage::Connecting,
            r.1 is Connect,
    {
        (RoundTrip { stage: RoundTripStage::Connecting }, RoundTripAction::Connect)
    }

    /// Whether the outcome has been decided.
    pub fn is_finished(&self) -> (b: bool)
        ensures
            b == (self@ == RoundTripStage::Finished),
    {
        self.stage == RoundTripStage::Finished
    }

    /// Takes in how the last action went and gives the next one.
    pub fn advance(&mut self, outcome: Result<(), String>) -> (action: RoundTripAction)
        requires
            old(self)@ != RoundTripStage::Finished,
        ensures
            final(self)@ == next_stage(old(self)@, outcome),
            action == next_action(old(self)@, outcome),
            outcome is Err ==> final(self)@ == RoundTripStage::Finished
                && action == RoundTripAction::Complete(outcome),
            outcome is Ok && old(self)@ == RoundTripStage::Connecting ==> final(self)@ == RoundTripStage::Writing
                && action is Write,
            outcome is Ok && old(self)@ == RoundTripStage::Writing ==> final(self)@ == RoundTripStage::Reading
                && action is Read,
            outcome is Ok && old(self)@ == RoundTripStage::Reading ==> final(self)@ == RoundTripStage::Finished
                && action == RoundTripAction::Complete(Ok(())),
    {
        match outcome {
            Err(msg) => {
                self.stage = RoundTripStage::Finished;
                RoundTripAction::Complete(Err(msg))
            },
            Ok(()) => match self.stage {
                RoundTripStage::Connecting => {
                    self.stage = RoundTripStage::Writing;
                    RoundTripAction::Write
                },
                RoundTripStage::Writing => {
                    self.stage = RoundTripStage::Reading;
                    RoundTripAction::Read
                },
                _ => {
                    self.stage = RoundTripStage::Finished;
                    RoundTripAction::Complete(Ok(()))
                },
            },
        }
    }
}

} // verus!
