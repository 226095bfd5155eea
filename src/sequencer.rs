use vstd::prelude::*;

use crate::pattern::{HapticPattern, PulseError, PulseStep};

verus! {

/// What the host does next while playing a sequence.
#[derive(Clone, Copy, Debug, PartialEq, Eq)]
pub enum Action {
    /// Fire one pulse of this strength now.
    Fire(HapticPattern),
    /// Block the calling context for this many milliseconds.
    Sleep(u64),
    /// The sequence is over; the result reports the last failed pulse, if any.
    Done(Result<(), PulseError>),
}

/// What the host reports after performing an action.
#[derive(Clone, Copy, Debug, PartialEq, Eq)]
pub enum Event {
    /// A pulse was requested, with the platform's answer.
    Fired(Result<(), PulseError>),
    /// A pause has elapsed.
    Slept,
}

/// The pause taken after a step that is not the last: none for a zero delay.
pub open spec fn pause(s: PulseStep) -> Seq<Action> {
    if s.delay_after_ms > 0 {
        seq![Action::Sleep(s.delay_after_ms)]
    } else {
        seq![]
    }
}

/// The actions that play `steps`: each step's pulse in order, with the step's
/// pause between it and the next one.
pub open spec fn schedule(steps: Seq<PulseStep>) -> Seq<Action>
    decreases steps.len(),
{
    if steps.len() == 0 {
        seq![]
    } else if steps.len() == 1 {
        seq![Action::Fire(steps[0].pattern)]
    } else {
        schedule(steps.drop_last()) + pause(steps[steps.len() - 2]) + seq![
            Action::Fire(steps.last().pattern),
        ]
    }
}

/// The result a finished run reports.
pub open spec fn outcome(last_error: Option<PulseError>) -> Result<(), PulseError> {
    match last_error {
        Some(e) => Err(e),
        None => Ok(()),
    }
}

/// The last failure after `event`, given the one before it.
pub open spec fn failure_after(last_error: Option<PulseError>, event: Event) -> Option<PulseError> {
    match event {
        Event::Fired(Err(e)) => Some(e),
        _ => last_error,
    }
}

/// Builds the fire and sleep actions for a non-empty list of steps.
pub fn plan(steps: &Vec<PulseStep>) -> (r: Vec<Action>)
    requires
        steps@.len() > 0,
    ensures
        r@ == schedule(steps@),
{
    let mut r: Vec<Action> = Vec::new();
    r.push(Action::Fire(steps[0].pattern));
    assert(steps@.take(1).drop_last() =~= seq![]);
    let mut i: usize = 1;
    while i < steps.len()
        invariant
            1 <= i <= steps@.len(),
            r@ == schedule(steps@.take(i as int)),
        decreases steps@.len() - i,
    {
        let prev = steps[i - 1];
        if prev.delay_after_ms > 0 {
            r.push(Action::Sleep(prev.delay_after_ms));
        }
        r.push(Action::Fire(steps[i].pattern));
        proof {
            let t = steps@.take(i + 1);
            assert(t.drop_last() =~= steps@.take(i as int));
            assert(t[t.len() - 2] == steps@[i - 1]);
            assert(t.last() == steps@[i as int]);
        }
        i = i + 1;
    }
    assert(steps@.take(steps@.len() as int) =~= steps@);
    r
}

/// One play of a sequence of steps. The host asks for the current action,
/// performs it, and reports the event back; the sequencer answers with the
/// next action. Every planned action is handed out exactly once and in order,
/// whatever the events report, so a failed pulse never stops the ones after it.
pub struct Sequencer {
    steps: Ghost<Seq<PulseStep>>,
    plan: Vec<Action>,
    pos: usize,
    last_error: Option<PulseError>,
}

impl Sequencer {
    /// The steps being played.
    pub closed spec fn steps(&self) -> Seq<PulseStep> {
        self.steps@
    }

    /// How many planned actions have been handed out and reported back.
    pub closed spec fn position(&self) -> nat {
        self.pos as nat
    }

    /// The last pulse failure reported so far.
    pub closed spec fn last_failure(&self) -> Option<PulseError> {
        self.last_error
    }

    pub closed spec fn wf(&self) -> bool {
        &&& self.steps@.len() > 0
        &&& self.plan@ == schedule(self.steps@)
        &&& self.pos <= self.plan@.len()
    }

    /// Whether every planned action has been reported back.
    pub open spec fn finished(&self) -> bool {
        self.position() >= schedule(self.steps()).len()
    }

    /// The action the host should perform now.
    pub open spec fn action(&self) -> Action {
        if self.finished() {
            Action::Done(outcome(self.last_failure()))
        } else {
            schedule(self.steps())[self.position() as int]
        }
    }

    /// Starts a fresh play of `steps`.
    pub fn new(steps: Vec<PulseStep>) -> (r: Sequencer)
        requires
            steps@.len() > 0,
        ensures
            r.wf(),
            r.steps() == steps@,
            r.position() == 0,
            r.last_failure() == None::<PulseError>,
    {
        let plan = plan(&steps);
        Sequencer { steps: Ghost(steps@), plan, pos: 0, last_error: None }
    }

    /// The action the host should perform now.
    pub fn current(&self) -> (a: Action)
        requires
            self.wf(),
        ensures
            a == self.action(),
    {
        if self.pos < self.plan.len() {
            self.plan[self.pos]
        } else {
            match self.last_error {
                Some(e) => Action::Done(Err(e)),
                None => Action::Done(Ok(())),
            }
        }
    }

    /// Whether every planned action has been reported back.
    pub fn is_finished(&self) -> (r: bool)
        requires
            self.wf(),
        ensures
            r == self.finished(),
    {
        self.pos >= self.plan.len()
    }

    /// Takes the report on the current action and returns the next action.
    /// Whatever the event says, play moves on to the next planned action; a
    /// failed pulse is only remembered for the final result.
    pub fn on_event(&mut self, event: Event) -> (a: Action)
        requires
            old(self).wf(),
        ensures
            final(self).wf(),
            final(self).steps() == old(self).steps(),
            final(self).position() == if old(self).finished() {
                old(self).position()
            } else {
                old(self).position() + 1
            },
            final(self).last_failure() == failure_after(old(self).last_failure(), event),
            a == final(self).action(),
    {
        if let Event::Fired(Err(e)) = event {
            self.last_error = Some(e);
        }
        if self.pos < self.plan.len() {
            self.pos = self.pos + 1;
        }
        self.current()
    }
}

} // verus!
