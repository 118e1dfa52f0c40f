//! The order in which a packet goes to the device.
//!
//! Sending is the caller's work: it opens the device, sends the reports and
//! sleeps. What to do next is decided here. The caller performs the [`Action`]
//! it was given and hands its outcome to [`Transmission::next`], which answers
//! with the action that follows, until that action is [`Action::Finish`].

use vstd::prelude::*;

verus! {

/// What the caller of a transmission does next.
#[derive(Debug)]
pub enum Action {
    /// Open the device.
    Open,
    /// Send step `step` of the packet as one feature report.
    Send { step: usize },
    /// Wait for `millis` milliseconds.
    Pause { millis: u64 },
    /// End the transmission: `result` is how it went.
    Finish { result: Result<(), hidapi::HidError> },
}

/// How far a transmission has come.
#[derive(Debug)]
pub enum Stage {
    /// The device is being opened.
    Opening,
    /// Step `step` is being sent.
    Sending { step: usize },
    /// The pause after step `step`. Where sending that step failed, `failure`
    /// holds the error.
    Pausing { step: usize, failure: Option<hidapi::HidError> },
    /// Nothing is left to do.
    Finished,
}

/// A packet on its way to the device.
#[derive(Debug)]
pub struct Transmission {
    /// The number of steps of the packet.
    pub step_count: usize,
    /// The pause that follows every step, in milliseconds, if there is one.
    pub pause: Option<u64>,
    pub stage: Stage,
}

/// What follows when step `step` has been dealt with and nothing has failed:
/// the next step, or the end.
pub open spec fn after_step(step_count: usize, pause: Option<u64>, step: usize) -> (
    Transmission,
    Action,
) {
    if step + 1 < step_count {
        (
            Transmission { step_count, pause, stage: Stage::Sending { step: (step + 1) as usize } },
            Action::Send { step: (step + 1) as usize },
        )
    } else {
        (
            Transmission { step_count, pause, stage: Stage::Finished },
            Action::Finish { result: Ok(()) },
        )
    }
}

/// The transmission at its end, with the error that ended it.
pub open spec fn failed(step_count: usize, pause: Option<u64>, error: hidapi::HidError) -> (
    Transmission,
    Action,
) {
    (
        Transmission { step_count, pause, stage: Stage::Finished },
        Action::Finish { result: Err(error) },
    )
}

impl Transmission {
    /// The stage has a step only if the packet has that step.
    pub open spec fn wf(&self) -> bool {
        match self.stage {
            Stage::Sending { step } => step < self.step_count,
            Stage::Pausing { step, .. } => step < self.step_count,
            _ => true,
        }
    }

    /// Nothing is left to do.
    pub open spec fn finished(&self) -> bool {
        self.stage is Finished
    }

    /// Whether the stage has a step only if the packet has that step.
    pub fn is_wf(&self) -> (out: bool)
        ensures
            out == self.wf(),
    {
        match &self.stage {
            Stage::Sending { step } => *step < self.step_count,
            Stage::Pausing { step, .. } => *step < self.step_count,
            _ => true,
        }
    }

    /// Whether nothing is left to do.
    pub fn is_finished(&self) -> (out: bool)
        ensures
            out == self.finished(),
    {
        match &self.stage {
            Stage::Finished => true,
            _ => false,
        }
    }

    /// What follows when the action that was asked for ended with `outcome`.
    ///
    /// - The device could not be opened: the transmission ends with that error, and
    ///   nothing was sent.
    /// - The device is open: the first step is sent, or, where the packet has no
    ///   step, the transmission ends well.
    /// - A step was sent, or could not be sent: where every step is followed by
    ///   a pause, the pause comes first, also after a failure.
    /// - After that the next step is sent; after the last step the transmission
    ///   ends well; after a failure it ends with the error, and no later step
    ///   is sent.
    pub open spec fn spec_next(self, outcome: Result<(), hidapi::HidError>) -> (
        Transmission,
        Action,
    ) {
        let step_count = self.step_count;
        let pause = self.pause;
        match self.stage {
            Stage::Opening => match outcome {
                Ok(_) => if 0 < step_count {
                    (
                        Transmission { step_count, pause, stage: Stage::Sending { step: 0 } },
                        Action::Send { step: 0 },
                    )
                } else {
                    (
                        Transmission { step_count, pause, stage: Stage::Finished },
                        Action::Finish { result: Ok(()) },
                    )
                },
                Err(error) => failed(step_count, pause, error),
            },
            Stage::Sending { step } => match pause {
                Some(millis) => (
                    Transmission {
                        step_count,
                        pause,
                        stage: Stage::Pausing {
                            step,
                            failure: match outcome {
                                Ok(_) => None,
                                Err(error) => Some(error),
                            },
                        },
                    },
                    Action::Pause { millis },
                ),
                None => match outcome {
                    Ok(_) => after_step(step_count, pause, step),
                    Err(error) => failed(step_count, pause, error),
                },
            },
            Stage::Pausing { step, failure } => match failure {
                Some(error) => failed(step_count, pause, error),
                None => match outcome {
                    Ok(_) => after_step(step_count, pause, step),
                    Err(error) => failed(step_count, pause, error),
                },
            },
            Stage::Finished => (self, Action::Finish { result: outcome }),
        }
    }

    /// Starts the transmission of a packet of `step_count` steps, each of them
    /// followed by a pause of `pause` milliseconds if `pause` holds a number.
    /// The first thing to do is to open the device.
    pub fn start(step_count: usize, pause: Option<u64>) -> (out: (Transmission, Action))
        ensures
            out.0 == (Transmission { step_count, pause, stage: Stage::Opening }),
            out.1 == Action::Open,
            out.0.wf(),
    {
        (Transmission { step_count, pause, stage: Stage::Opening }, Action::Open)
    }

    /// What follows when the action that was asked for ended with `outcome`.
    pub fn next(self, outcome: Result<(), hidapi::HidError>) -> (out: (Transmission, Action))
        requires
            self.wf(),
            !self.finished(),
        ensures
            out == self.spec_next(outcome),
            out.0.wf(),
    {
        let step_count = self.step_count;
        let pause = self.pause;
        match self.stage {
            Stage::Opening => match outcome {
                Ok(_) => Self::first_step(step_count, pause),
                Err(error) => Self::fail(step_count, pause, error),
            },
            Stage::Sending { step } => match pause {
                Some(millis) => {
                    let failure = match outcome {
                        Ok(_) => None,
                        Err(error) => Some(error),
                    };
                    (
                        Transmission { step_count, pause, stage: Stage::Pausing { step, failure } },
                        Action::Pause { millis },
                    )
                },
                None => match outcome {
                    Ok(_) => Self::step_done(step_count, pause, step),
                    Err(error) => Self::fail(step_count, pause, error),
                },
            },
            Stage::Pausing { step, failure } => match failure {
                Some(error) => Self::fail(step_count, pause, error),
                None => match outcome {
                    Ok(_) => Self::step_done(step_count, pause, step),
                    Err(error) => Self::fail(step_count, pause, error),
                },
            },
            Stage::Finished => (
                Transmission { step_count, pause, stage: Stage::Finished },
                Action::Finish { result: outcome },
            ),
        }
    }

    fn first_step(step_count: usize, pause: Option<u64>) -> (out: (Transmission, Action))
        ensures
            out == (Transmission { step_count, pause, stage: Stage::Opening }).spec_next(Ok(())),
            out.0.wf(),
    {
        if 0 < step_count {
            (
                Transmission { step_count, pause, stage: Stage::Sending { step: 0 } },
                Action::Send { step: 0 },
            )
        } else {
            (
                Transmission { step_count, pause, stage: Stage::Finished },
                Action::Finish { result: Ok(()) },
            )
        }
    }

    fn step_done(step_count: usize, pause: Option<u64>, step: usize) -> (out: (
        Transmission,
        Action,
    ))
        requires
            step < step_count,
        ensures
            out == after_step(step_count, pause, step),
            out.0.wf(),
    {
        if step + 1 < step_count {
            (
                Transmission { step_count, pause, stage: Stage::Sending { step: step + 1 } },
                Action::Send { step: step + 1 },
            )
        } else {
            (
                Transmission { step_count, pause, stage: Stage::Finished },
                Action::Finish { result: Ok(()) },
            )
        }
    }

    fn fail(step_count: usize, pause: Option<u64>, error: hidapi::HidError) -> (out: (
        Transmission,
        Action,
    ))
        ensures
            out == failed(step_count, pause, error),
            out.0.wf(),
    {
        (
            Transmission { step_count, pause, stage: Stage::Finished },
            Action::Finish { result: Err(error) },
        )
    }
}

/// Where the device cannot be opened, the transmission ends at once with
/// that error: no step is sent, and nothing else is asked for.
pub proof fn lemma_open_failure(step_count: usize, pause: Option<u64>, error: hidapi::HidError)
    ensures
        (Transmission { step_count, pause, stage: Stage::Opening }).spec_next(Err(error)).1
            == (Action::Finish { result: Err(error) }),
        (Transmission { step_count, pause, stage: Stage::Opening }).spec_next(Err(error)).0.finished(),
{
}

/// The steps go out in their order, one by one: a step is sent only when the
/// last outcome was a good one, it is the first step when the device was just
/// opened and else the step after the last one, and it is a step of the packet.
pub proof fn lemma_steps_in_order(transmission: Transmission, outcome: Result<(), hidapi::HidError>)
    requires
        transmission.wf(),
        !transmission.finished(),
    ensures
        transmission.spec_next(outcome).1 matches Action::Send { step } ==> {
            &&& outcome is Ok
            &&& step < transmission.step_count
            &&& match transmission.stage {
                Stage::Opening => step == 0,
                Stage::Sending { step: sent } => step == sent + 1 && transmission.pause is None,
                Stage::Pausing { step: sent, failure } => step == sent + 1 && failure is None,
                Stage::Finished => false,
            }
        },
{
}

/// Where sending a step fails, no later step is sent: the transmission ends
/// with that error, after the pause that follows every step if there is one.
pub proof fn lemma_send_failure(transmission: Transmission, error: hidapi::HidError)
    requires
        transmission.wf(),
        transmission.stage is Sending,
    ensures
        match transmission.pause {
            Some(millis) => {
                let (paused, action) = transmission.spec_next(Err(error));
                &&& action == Action::Pause { millis }
                &&& forall|outcome: Result<(), hidapi::HidError>|
                    #[trigger] paused.spec_next(outcome) == failed(
                        transmission.step_count,
                        transmission.pause,
                        error,
                    )
            },
            None => transmission.spec_next(Err(error)) == failed(
                transmission.step_count,
                transmission.pause,
                error,
            ),
        },
{
}

/// After every step that was sent comes the pause, where there is one, also
/// after the last step.
pub proof fn lemma_pause_after_step(
    transmission: Transmission,
    outcome: Result<(), hidapi::HidError>,
)
    requires
        transmission.wf(),
        transmission.stage is Sending,
        transmission.pause is Some,
    ensures
        transmission.spec_next(outcome).1 == (Action::Pause { millis: transmission.pause->Some_0 }),
{
}

/// The actions that are asked for, one after the other, when the caller's
/// actions end with `outcomes` in this order, from `transmission` on. After
/// the end nothing is asked for.
pub open spec fn actions(
    transmission: Transmission,
    outcomes: Seq<Result<(), hidapi::HidError>>,
) -> Seq<Action>
    decreases outcomes.len(),
{
    if outcomes.len() == 0 || transmission.finished() {
        Seq::empty()
    } else {
        let (next, action) = transmission.spec_next(outcomes.first());
        seq![action] + actions(next, outcomes.drop_first())
    }
}

/// What is asked for after step `step` was sent, where nothing fails: the
/// pause, if there is one, then the next step and what comes after it, or,
/// after the last step, the end.
pub open spec fn rest_of_run(step_count: usize, pause: Option<u64>, step: usize) -> Seq<Action>
    decreases step_count - step,
{
    let paused = match pause {
        Some(millis) => seq![Action::Pause { millis }],
        None => Seq::empty(),
    };
    if step + 1 < step_count {
        paused + seq![Action::Send { step: (step + 1) as usize }] + rest_of_run(
            step_count,
            pause,
            (step + 1) as usize,
        )
    } else {
        paused + seq![Action::Finish { result: Ok(()) }]
    }
}

/// What is asked for after the device was opened, where nothing fails: the
/// steps in their order, each followed by the pause if there is one, and then
/// the end.
pub open spec fn whole_run(step_count: usize, pause: Option<u64>) -> Seq<Action> {
    if 0 < step_count {
        seq![Action::Send { step: 0 }] + rest_of_run(step_count, pause, 0)
    } else {
        seq![Action::Finish { result: Ok(()) }]
    }
}

/// Where nothing fails after step `step` was sent, the rest of the run is
/// asked for, action by action.
proof fn lemma_rest_of_run(
    step_count: usize,
    pause: Option<u64>,
    step: usize,
    outcomes: Seq<Result<(), hidapi::HidError>>,
)
    requires
        step < step_count,
        outcomes.len() >= rest_of_run(step_count, pause, step).len(),
        forall|i: int| 0 <= i < outcomes.len() ==> (#[trigger] outcomes[i]) is Ok,
    ensures
        actions(Transmission { step_count, pause, stage: Stage::Sending { step } }, outcomes)
            == rest_of_run(step_count, pause, step),
    decreases step_count - step,
{
    let sending = Transmission { step_count, pause, stage: Stage::Sending { step } };
    assert(outcomes.first() is Ok);
    // Where there is a pause, it is asked for first and takes the first outcome.
    let resumed = if pause is Some {
        sending.spec_next(outcomes.first()).0
    } else {
        sending
    };
    let left = if pause is Some {
        outcomes.drop_first()
    } else {
        outcomes
    };
    assert(left.first() is Ok);
    let (next, action) = resumed.spec_next(left.first());
    assert((next, action) == after_step(step_count, pause, step));
    let later = left.drop_first();
    assert forall|i: int| 0 <= i < later.len() implies (#[trigger] later[i]) is Ok by {
        assert(left[i + 1] is Ok);
    }
    if step + 1 < step_count {
        lemma_rest_of_run(step_count, pause, (step + 1) as usize, later);
    } else {
        assert(actions(next, later) =~= Seq::<Action>::empty());
    }
    assert(actions(resumed, left) =~= seq![action] + actions(next, later));
    if pause is Some {
        assert(actions(sending, outcomes) =~= seq![Action::Pause { millis: pause->Some_0 }]
            + actions(resumed, left));
    }
    assert(actions(sending, outcomes) =~= rest_of_run(step_count, pause, step));
}

/// Where nothing fails, a packet goes out whole: after the device was
/// opened, every step is sent, in its order and once, each followed by the
/// pause if there is one, also the last, and then the transmission ends well.
pub proof fn lemma_whole_run(
    step_count: usize,
    pause: Option<u64>,
    outcomes: Seq<Result<(), hidapi::HidError>>,
)
    requires
        outcomes.len() >= whole_run(step_count, pause).len(),
        forall|i: int| 0 <= i < outcomes.len() ==> (#[trigger] outcomes[i]) is Ok,
    ensures
        actions(Transmission { step_count, pause, stage: Stage::Opening }, outcomes) == whole_run(
            step_count,
            pause,
        ),
{
    let opening = Transmission { step_count, pause, stage: Stage::Opening };
    assert(outcomes.first() is Ok);
    let (next, action) = opening.spec_next(outcomes.first());
    let later = outcomes.drop_first();
    assert forall|i: int| 0 <= i < later.len() implies (#[trigger] later[i]) is Ok by {
        assert(outcomes[i + 1] is Ok);
    }
    if 0 < step_count {
        lemma_rest_of_run(step_count, pause, 0, later);
    } else {
        assert(actions(next, later) =~= Seq::<Action>::empty());
    }
    assert(actions(opening, outcomes) =~= seq![action] + actions(next, later));
}

} // verus!
