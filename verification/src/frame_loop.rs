//! The frame loop as a state machine.

use vstd::prelude::*;
use crate::budget::{adjust_iteration_cap, adjusted_cap};
use crate::input::{command_for, command_of, Command, InputEvent};

verus! {

/// Length of one tick in nanoseconds: a sixtieth of a second, rounded down.
pub const FRAME_INTERVAL_NANOS: u64 = 16_666_666;

/// How long a tick still has to sleep once `elapsed_nanos` of it are gone:
/// the rest of the interval, and nothing when the interval is over.
pub fn remaining_sleep_nanos(elapsed_nanos: u64) -> (out: u64)
    ensures
        elapsed_nanos <= FRAME_INTERVAL_NANOS ==> out == FRAME_INTERVAL_NANOS - elapsed_nanos,
        elapsed_nanos > FRAME_INTERVAL_NANOS ==> out == 0,
{
    if elapsed_nanos >= FRAME_INTERVAL_NANOS {
        0
    } else {
        FRAME_INTERVAL_NANOS - elapsed_nanos
    }
}

/// Where the loop stands between two ticks.
#[derive(Clone, Copy, Debug, PartialEq, Eq, Structural)]
pub enum Phase {
    /// The viewport changed since the last frame was drawn, or none was yet.
    Dirty,
    /// The frame on screen shows the current viewport.
    Idle,
    /// The loop has ended.
    Terminal,
}

/// What the caller does after a tick's events are handled.
#[derive(Clone, Copy, Debug, PartialEq, Eq, Structural)]
pub enum Action {
    /// Generate the samples, run the kernel and present the image.
    Render,
    /// Nothing to draw: wait for the next tick.
    Wait,
    /// Leave the loop.
    Exit,
}

/// The loop's state: its phase and the iteration cap that the user set.
#[derive(Clone, Copy, Debug, PartialEq, Eq, Structural)]
pub struct FrameLoop {
    pub phase: Phase,
    pub iteration_cap: u32,
}

/// What one tick gives back.
#[derive(Debug)]
pub struct Tick {
    /// The commands that the caller carries out, in the order of their events.
    pub forwarded: Vec<Command>,
    /// What to do before the tick's sleep.
    pub action: Action,
}

impl FrameLoop {
    /// The cap is never 0.
    pub open spec fn wf(self) -> bool {
        self.iteration_cap >= 1
    }

    /// The state after one event. A terminated loop takes no event.
    pub open spec fn step(self, event: InputEvent) -> FrameLoop {
        if self.phase is Terminal {
            self
        } else {
            match command_of(event) {
                Command::Terminate => FrameLoop { phase: Phase::Terminal, ..self },
                Command::Pan { .. } => FrameLoop { phase: Phase::Dirty, ..self },
                Command::Zoom { .. } => FrameLoop { phase: Phase::Dirty, ..self },
                Command::AdjustCap { delta } => FrameLoop {
                    phase: Phase::Dirty,
                    iteration_cap: adjusted_cap(self.iteration_cap, delta) as u32,
                },
                Command::SaveImage => self,
                Command::Ignore => self,
            }
        }
    }

    /// The command that one event hands on to the caller, if any.
    pub open spec fn handed_on(self, event: InputEvent) -> Option<Command> {
        if !(self.phase is Terminal) && command_of(event).is_forwarded() {
            Some(command_of(event))
        } else {
            None
        }
    }

    /// The state after a run of events, taken in order.
    pub open spec fn poll(self, events: Seq<InputEvent>) -> FrameLoop
        decreases events.len(),
    {
        if events.len() == 0 {
            self
        } else {
            self.poll(events.drop_last()).step(events.last())
        }
    }

    /// The commands that a run of events hands on, in order. Events behind
    /// the one that ends the loop hand on nothing.
    pub open spec fn forwarded(self, events: Seq<InputEvent>) -> Seq<Command>
        decreases events.len(),
    {
        if events.len() == 0 {
            Seq::empty()
        } else {
            let earlier = self.forwarded(events.drop_last());
            match self.poll(events.drop_last()).handed_on(events.last()) {
                Some(command) => earlier.push(command),
                None => earlier,
            }
        }
    }

    /// What a loop in this state does next.
    pub open spec fn pending(self) -> Action {
        match self.phase {
            Phase::Dirty => Action::Render,
            Phase::Idle => Action::Wait,
            Phase::Terminal => Action::Exit,
        }
    }

    /// The state once a due frame was drawn.
    pub open spec fn settled(self) -> FrameLoop {
        if self.phase is Dirty {
            FrameLoop { phase: Phase::Idle, ..self }
        } else {
            self
        }
    }

    /// The state after one whole tick: its events handled and the frame drawn
    /// if one was due.
    pub open spec fn after_tick(self, events: Seq<InputEvent>) -> FrameLoop {
        self.poll(events).settled()
    }

    /// The number of frames that one tick draws: 1 or 0.
    pub open spec fn draws(self, events: Seq<InputEvent>) -> nat {
        if self.poll(events).pending() == Action::Render {
            1
        } else {
            0
        }
    }

    /// The state after a run of ticks, each given by its events.
    pub open spec fn after(self, ticks: Seq<Seq<InputEvent>>) -> FrameLoop
        decreases ticks.len(),
    {
        if ticks.len() == 0 {
            self
        } else {
            self.after(ticks.drop_last()).after_tick(ticks.last())
        }
    }

    /// The number of frames drawn over a run of ticks.
    pub open spec fn renders(self, ticks: Seq<Seq<InputEvent>>) -> nat
        decreases ticks.len(),
    {
        if ticks.len() == 0 {
            0
        } else {
            self.renders(ticks.drop_last()) + self.after(ticks.drop_last()).draws(ticks.last())
        }
    }

    /// A loop before its first tick: the first frame is always drawn.
    /// `None` exactly for a cap of 0.
    pub fn new(iteration_cap: u32) -> (out: Option<FrameLoop>)
        ensures
            iteration_cap == 0 <==> out.is_none(),
            out matches Some(s) ==> s == (FrameLoop { phase: Phase::Dirty, iteration_cap })
                && s.wf(),
    {
        if iteration_cap == 0 {
            None
        } else {
            Some(FrameLoop { phase: Phase::Dirty, iteration_cap })
        }
    }

    /// Takes one event: changes the state and says what the caller has to
    /// carry out for it, if anything.
    pub fn on_event(&mut self, event: InputEvent) -> (out: Option<Command>)
        ensures
            *final(self) == old(self).step(event),
            old(self).wf() ==> final(self).wf(),
            out == old(self).handed_on(event),
    {
        if self.phase == Phase::Terminal {
            return None;
        }
        let command = command_for(event);
        match command {
            Command::Terminate => {
                self.phase = Phase::Terminal;
                None
            },
            Command::Pan { .. } | Command::Zoom { .. } => {
                self.phase = Phase::Dirty;
                Some(command)
            },
            Command::AdjustCap { delta } => {
                self.phase = Phase::Dirty;
                self.iteration_cap = adjust_iteration_cap(self.iteration_cap, delta);
                None
            },
            Command::SaveImage => Some(command),
            Command::Ignore => None,
        }
    }

    /// Handles the events of one tick in order and says what to do before
    /// the tick's sleep.
    pub fn tick(&mut self, events: &Vec<InputEvent>) -> (out: Tick)
        ensures
            *final(self) == old(self).poll(events@),
            old(self).wf() ==> final(self).wf(),
            out.forwarded@ == old(self).forwarded(events@),
            out.action == old(self).poll(events@).pending(),
    {
        let mut forwarded: Vec<Command> = Vec::new();
        let mut i: usize = 0;
        while i < events.len()
            invariant
                i <= events.len(),
                old(self).wf() ==> self.wf(),
                *self == old(self).poll(events@.take(i as int)),
                forwarded@ == old(self).forwarded(events@.take(i as int)),
            decreases events.len() - i,
        {
            let handed = self.on_event(events[i]);
            proof {
                let next = events@.take(i + 1);
                assert(next.drop_last() == events@.take(i as int));
                assert(next.last() == events@[i as int]);
            }
            if let Some(command) = handed {
                forwarded.push(command);
            }
            i += 1;
        }
        assert(events@.take(events@.len() as int) == events@);
        let action = match self.phase {
            Phase::Dirty => Action::Render,
            Phase::Idle => Action::Wait,
            Phase::Terminal => Action::Exit,
        };
        Tick { forwarded, action }
    }

    /// Records that the frame that was due has been drawn.
    pub fn render_done(&mut self)
        ensures
            *final(self) == old(self).settled(),
            old(self).wf() ==> final(self).wf(),
    {
        if self.phase == Phase::Dirty {
            self.phase = Phase::Idle;
        }
    }

    /// Records that drawing a frame failed: the loop ends.
    pub fn render_failed(&mut self)
        ensures
            *final(self) == (FrameLoop { phase: Phase::Terminal, ..*old(self) }),
    {
        self.phase = Phase::Terminal;
    }
}

} // verus!
