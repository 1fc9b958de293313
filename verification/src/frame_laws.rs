//! What holds of the frame loop over whole runs of ticks.

use vstd::prelude::*;
use crate::frame_loop::{Action, FrameLoop, Phase};
use crate::input::{command_of, Command, InputEvent};

verus! {

/// `n` ticks in which no event arrives.
pub open spec fn quiet(n: nat) -> Seq<Seq<InputEvent>> {
    Seq::new(n, |i: int| Seq::<InputEvent>::empty())
}

/// Running two runs of ticks one after the other draws the frames of the
/// first and then those of the second, started where the first ended.
pub proof fn lemma_runs_compose(
    s: FrameLoop,
    first: Seq<Seq<InputEvent>>,
    second: Seq<Seq<InputEvent>>,
)
    ensures
        s.after(first + second) == s.after(first).after(second),
        s.renders(first + second) == s.renders(first) + s.after(first).renders(second),
    decreases second.len(),
{
    if second.len() == 0 {
        assert(first + second == first);
    } else {
        lemma_runs_compose(s, first, second.drop_last());
        assert((first + second).drop_last() == first + second.drop_last());
        assert((first + second).last() == second.last());
    }
}

/// A loop that has no frame due draws nothing while no event arrives, and
/// stays as it is.
pub proof fn lemma_quiet_ticks_draw_nothing(s: FrameLoop, n: nat)
    requires
        !(s.phase is Dirty),
    ensures
        s.renders(quiet(n)) == 0,
        s.after(quiet(n)) == s,
    decreases n,
{
    if n > 0 {
        lemma_quiet_ticks_draw_nothing(s, (n - 1) as nat);
        assert(quiet(n).drop_last() == quiet((n - 1) as nat));
        assert(quiet(n).last() == Seq::<InputEvent>::empty());
        assert(s.poll(Seq::<InputEvent>::empty()) == s);
    }
}

/// A loop with a frame due, such as a new one, draws exactly one frame over
/// any number of ticks without events, and is idle afterwards.
pub proof fn lemma_quiet_loop_draws_once(s: FrameLoop, n: nat)
    requires
        s.phase is Dirty,
        n >= 1,
    ensures
        s.renders(quiet(n)) == 1,
        s.after(quiet(n)) == s.settled(),
        s.after(quiet(n)).phase is Idle,
{
    let empty = Seq::<InputEvent>::empty();
    let rest = quiet((n - 1) as nat);
    assert(quiet(n) == seq![empty] + rest);
    lemma_runs_compose(s, seq![empty], rest);
    assert(seq![empty].drop_last() == Seq::<Seq<InputEvent>>::empty());
    assert(seq![empty].last() == empty);
    assert(s.after(seq![empty].drop_last()) == s);
    assert(s.renders(seq![empty].drop_last()) == 0);
    assert(s.poll(empty) == s);
    assert(s.after(seq![empty]) == s.settled());
    assert(s.renders(seq![empty]) == 1);
    lemma_quiet_ticks_draw_nothing(s.settled(), (n - 1) as nat);
}

/// One event that changes the view, arriving alone in a tick of an idle
/// loop, makes that tick draw one frame; the ticks without events around it
/// draw none.
pub proof fn lemma_change_draws_once(s: FrameLoop, before: nat, event: InputEvent, behind: nat)
    requires
        s.phase is Idle,
        command_of(event).changes_view(),
    ensures
        s.renders(quiet(before)) == 0,
        s.renders(quiet(before).push(seq![event])) == 1,
        s.renders(quiet(before).push(seq![event]) + quiet(behind)) == 1,
        s.after(quiet(before).push(seq![event]) + quiet(behind)).phase is Idle,
{
    let run = quiet(before).push(seq![event]);
    lemma_quiet_ticks_draw_nothing(s, before);
    assert(run.drop_last() == quiet(before));
    assert(run.last() == seq![event]);
    assert(seq![event].drop_last() == Seq::<InputEvent>::empty());
    assert(seq![event].last() == event);
    assert(s.poll(seq![event].drop_last()) == s);
    assert(s.poll(seq![event]) == s.step(event));
    assert(s.step(event).phase is Dirty);
    lemma_runs_compose(s, run, quiet(behind));
    lemma_quiet_ticks_draw_nothing(s.after(run), behind);
}

/// From a new loop: the first tick draws, the ticks without events behind
/// it draw nothing, one event that changes the view draws once more, and
/// the ticks without events behind that draw nothing again.
pub proof fn lemma_one_render_per_change(
    s: FrameLoop,
    idle_ticks: nat,
    event: InputEvent,
    behind: nat,
)
    requires
        s.phase is Dirty,
        command_of(event).changes_view(),
    ensures
        s.renders(quiet(1 + idle_ticks)) == 1,
        s.renders(quiet(1 + idle_ticks).push(seq![event])) == 2,
        s.renders(quiet(1 + idle_ticks).push(seq![event]) + quiet(behind)) == 2,
{
    let start = quiet(1 + idle_ticks);
    let tail = Seq::<Seq<InputEvent>>::empty().push(seq![event]);
    lemma_quiet_loop_draws_once(s, 1 + idle_ticks);
    lemma_change_draws_once(s.settled(), 0, event, behind);
    assert(quiet(0) == Seq::<Seq<InputEvent>>::empty());
    assert(quiet(0).push(seq![event]) == tail);
    assert(start.push(seq![event]) == start + tail);
    assert(start.push(seq![event]) + quiet(behind) == start + (tail + quiet(behind)));
    lemma_runs_compose(s, start, tail);
    lemma_runs_compose(s, start, tail + quiet(behind));
}

/// Once an event that ends the loop is among a tick's events, the tick ends
/// in the terminal state, whatever else arrived with it: the loop is left and
/// no frame is drawn.
pub proof fn lemma_terminate_ends_tick(s: FrameLoop, events: Seq<InputEvent>, i: int)
    requires
        0 <= i < events.len(),
        command_of(events[i]) is Terminate,
    ensures
        s.poll(events).phase is Terminal,
        s.poll(events).pending() == Action::Exit,
        s.draws(events) == 0,
        s.after_tick(events).phase is Terminal,
    decreases events.len(),
{
    if i < events.len() - 1 {
        lemma_terminate_ends_tick(s, events.drop_last(), i);
    }
}

/// Events that arrive behind the one that ends the loop change nothing and
/// hand nothing on: the tick is over with the event that ends it.
pub proof fn lemma_events_behind_terminate_are_dropped(
    s: FrameLoop,
    events: Seq<InputEvent>,
    i: int,
)
    requires
        0 <= i < events.len(),
        command_of(events[i]) is Terminate,
    ensures
        s.poll(events) == s.poll(events.take(i + 1)),
        s.forwarded(events) == s.forwarded(events.take(i + 1)),
    decreases events.len(),
{
    if i == events.len() - 1 {
        assert(events.take(i + 1) == events);
    } else {
        let shorter = events.drop_last();
        lemma_events_behind_terminate_are_dropped(s, shorter, i);
        lemma_terminate_ends_tick(s, shorter, i);
        assert(shorter.take(i + 1) == events.take(i + 1));
    }
}

/// A loop that has ended never draws again and never leaves the terminal
/// state, whatever events arrive.
pub proof fn lemma_terminal_is_final(s: FrameLoop, ticks: Seq<Seq<InputEvent>>)
    requires
        s.phase is Terminal,
    ensures
        s.after(ticks) == s,
        s.renders(ticks) == 0,
    decreases ticks.len(),
{
    if ticks.len() > 0 {
        lemma_terminal_is_final(s, ticks.drop_last());
        lemma_terminal_ignores_events(s, ticks.last());
    }
}

/// A loop that has ended takes no event and hands nothing on.
pub proof fn lemma_terminal_ignores_events(s: FrameLoop, events: Seq<InputEvent>)
    requires
        s.phase is Terminal,
    ensures
        s.poll(events) == s,
        s.forwarded(events) == Seq::<Command>::empty(),
    decreases events.len(),
{
    if events.len() > 0 {
        lemma_terminal_ignores_events(s, events.drop_last());
    }
}

/// The iteration cap stays at 1 or above over any run of events.
pub proof fn lemma_poll_keeps_cap(s: FrameLoop, events: Seq<InputEvent>)
    requires
        s.wf(),
    ensures
        s.poll(events).wf(),
    decreases events.len(),
{
    if events.len() > 0 {
        lemma_poll_keeps_cap(s, events.drop_last());
    }
}

} // verus!
