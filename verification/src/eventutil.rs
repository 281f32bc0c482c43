//! The decisions of the frame loop: what to do with an event of the
//! windowing layer, and how many simulation ticks a frame owes.

use vstd::prelude::*;

verus! {

/// What the frame callback asks of the event loop once a frame is done.
#[derive(Clone, Copy, Debug, PartialEq, Eq, Structural)]
pub enum LoopAction {
    Stop,
    Continue,
}

/// Why the event loop woke up.
#[derive(Clone, Copy, Debug, PartialEq, Eq, Structural)]
pub enum StartCause {
    /// The loop has just started.
    Init,
    /// The time asked for has come.
    ResumeTimeReached,
    /// An event came in before the time asked for.
    WaitCancelled,
    /// The loop was not waiting at all.
    Poll,
}

/// An event as the frame loop sees it.
#[derive(Clone, Copy, Debug, PartialEq, Eq, Structural)]
pub enum LoopEvent {
    /// The loop woke up; events follow.
    NewEvents(StartCause),
    /// Anything else.
    Other,
}

/// What the frame loop does with an event.
#[derive(Clone, Copy, Debug, PartialEq, Eq, Structural)]
pub enum Dispatch {
    /// Hand the kept events to the frame callback, then forget them.
    RunFrame,
    /// Keep the event for the next frame.
    Keep,
    /// Nothing.
    Skip,
}

/// What the event loop is told after an event.
#[derive(Clone, Copy, Debug, PartialEq, Eq, Structural)]
pub enum Flow {
    /// Sleep until the next frame is due.
    WaitUntilNextFrame,
    /// Leave the loop.
    Exit,
}

/// What the frame loop does with `event`.
pub open spec fn dispatch_of(event: LoopEvent) -> Dispatch {
    match event {
        LoopEvent::NewEvents(StartCause::Init) => Dispatch::RunFrame,
        LoopEvent::NewEvents(StartCause::ResumeTimeReached) => Dispatch::RunFrame,
        LoopEvent::NewEvents(_) => Dispatch::Skip,
        LoopEvent::Other => Dispatch::Keep,
    }
}

/// What the event loop is told once `action` is known.
pub open spec fn flow_of(action: LoopAction) -> Flow {
    match action {
        LoopAction::Continue => Flow::WaitUntilNextFrame,
        LoopAction::Stop => Flow::Exit,
    }
}

/// Decides what the frame loop does with `event`: a frame runs when the loop
/// starts and whenever the time it asked for has come; a wake-up for any
/// other reason is passed over; every other event is kept for the next frame.
#[verifier::when_used_as_spec(dispatch_of)]
pub fn dispatch(event: LoopEvent) -> (d: Dispatch)
    ensures
        d == dispatch_of(event),
{
    match event {
        LoopEvent::NewEvents(cause) => match cause {
            StartCause::ResumeTimeReached | StartCause::Init => Dispatch::RunFrame,
            _ => Dispatch::Skip,
        },
        LoopEvent::Other => Dispatch::Keep,
    }
}

/// The action that stands after an event: that of the frame callback if a
/// frame ran, and to go on otherwise.
pub fn action_after(d: Dispatch, frame: LoopAction) -> (action: LoopAction)
    ensures
        action == if d == Dispatch::RunFrame {
            frame
        } else {
            LoopAction::Continue
        },
{
    match d {
        Dispatch::RunFrame => frame,
        _ => LoopAction::Continue,
    }
}

/// Decides what the event loop is told once `action` is known.
#[verifier::when_used_as_spec(flow_of)]
pub fn flow(action: LoopAction) -> (f: Flow)
    ensures
        f == flow_of(action),
{
    match action {
        LoopAction::Continue => Flow::WaitUntilNextFrame,
        LoopAction::Stop => Flow::Exit,
    }
}

/// The accumulator of a fixed simulation step: it takes the time that has
/// passed and says how many whole steps it holds.
#[derive(Clone, Copy, Debug, PartialEq, Eq)]
pub struct FrameClock {
    step: u64,
    lag: u64,
}

impl FrameClock {
    #[verifier::type_invariant]
    spec fn inv(self) -> bool {
        0 < self.step && self.lag < self.step
    }

    /// The length of a simulation step, in nanoseconds.
    pub closed spec fn step(self) -> u64 {
        self.step
    }

    /// The time that no step has consumed yet, in nanoseconds.
    pub closed spec fn lag(self) -> u64 {
        self.lag
    }

    /// A clock with nothing accumulated. A step of no length has no clock.
    pub fn new(step_ns: u64) -> (r: Option<FrameClock>)
        ensures
            r is Some <==> step_ns > 0,
            r matches Some(c) ==> c.step() == step_ns && c.lag() == 0,
    {
        if step_ns == 0 {
            None
        } else {
            Some(FrameClock { step: step_ns, lag: 0 })
        }
    }

    /// The length of a simulation step, in nanoseconds; never zero.
    pub fn step_ns(&self) -> (r: u64)
        ensures
            r == self.step(),
            r > 0,
    {
        proof {
            use_type_invariant(self);
        }
        self.step
    }

    /// The time that no step has consumed yet, in nanoseconds; always less than a step.
    pub fn lag_ns(&self) -> (r: u64)
        ensures
            r == self.lag(),
            r < self.step(),
    {
        proof {
            use_type_invariant(self);
        }
        self.lag
    }

    /// Adds the time that has passed and takes out the whole steps: the
    /// answer is how many simulation ticks are due now.
    pub fn advance(&mut self, elapsed_ns: u64) -> (ticks: u64)
        ensures
            final(self).step() == old(self).step(),
            ticks == (old(self).lag() + elapsed_ns) / (old(self).step() as int),
            final(self).lag() == (old(self).lag() + elapsed_ns) % (old(self).step() as int),
    {
        proof {
            use_type_invariant(&*self);
        }
        let step: u128 = self.step as u128;
        let total: u128 = self.lag as u128 + elapsed_ns as u128;
        let ticks: u128 = total / step;
        let rest: u128 = total % step;
        assert(ticks <= elapsed_ns) by (nonlinear_arith)
            requires
                ticks == total / step,
                0 < step,
                total < step + elapsed_ns,
        ;
        self.lag = rest as u64;
        ticks as u64
    }
}

} // verus!
