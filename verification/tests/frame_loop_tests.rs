use mandy::frame_loop::{
    remaining_sleep_nanos, Action, FrameLoop, Phase, FRAME_INTERVAL_NANOS,
};
use mandy::input::{Command, InputEvent, Key};

/// Runs the ticks as a caller would, drawing whenever a tick asks for it,
/// and counts the frames drawn.
fn run(state: &mut FrameLoop, ticks: &[Vec<InputEvent>]) -> u32 {
    let mut renders = 0;
    for events in ticks {
        let tick = state.tick(events);
        match tick.action {
            Action::Exit => break,
            Action::Render => {
                renders += 1;
                state.render_done();
            }
            Action::Wait => {}
        }
    }
    renders
}

#[test]
fn new_loop_is_dirty() {
    let state = FrameLoop::new(100).unwrap();
    assert_eq!(state, FrameLoop { phase: Phase::Dirty, iteration_cap: 100 });
    assert_eq!(FrameLoop::new(1).unwrap().iteration_cap, 1);
}

#[test]
fn new_loop_refuses_cap_zero() {
    assert_eq!(FrameLoop::new(0), None);
}

#[test]
fn first_tick_renders() {
    let mut state = FrameLoop::new(100).unwrap();
    let tick = state.tick(&vec![]);
    assert_eq!(tick.action, Action::Render);
    assert!(tick.forwarded.is_empty());
    assert_eq!(state.phase, Phase::Dirty);
    state.render_done();
    assert_eq!(state.phase, Phase::Idle);
}

#[test]
fn quiet_ticks_render_exactly_once() {
    for n in [1usize, 2, 5, 60] {
        let mut state = FrameLoop::new(100).unwrap();
        let ticks = vec![Vec::new(); n];
        assert_eq!(run(&mut state, &ticks), 1);
        assert_eq!(state.phase, Phase::Idle);
    }
}

#[test]
fn one_pan_after_idle_ticks_renders_once_more() {
    for n in [0usize, 1, 7] {
        let mut state = FrameLoop::new(100).unwrap();
        let mut ticks = vec![Vec::new(); n + 1];
        assert_eq!(run(&mut state, &ticks), 1);
        ticks.push(vec![InputEvent::KeyDown(Key::A)]);
        let mut state = FrameLoop::new(100).unwrap();
        assert_eq!(run(&mut state, &ticks), 2);
        ticks.extend(vec![Vec::new(); 3]);
        let mut state = FrameLoop::new(100).unwrap();
        assert_eq!(run(&mut state, &ticks), 2);
        assert_eq!(state.phase, Phase::Idle);
    }
}

#[test]
fn every_changing_event_makes_the_loop_dirty() {
    for key in [Key::W, Key::S, Key::A, Key::D, Key::I, Key::O, Key::Equals, Key::Minus] {
        let mut state = FrameLoop { phase: Phase::Idle, iteration_cap: 50 };
        let tick = state.tick(&vec![InputEvent::KeyDown(key)]);
        assert_eq!(tick.action, Action::Render);
        assert_eq!(state.phase, Phase::Dirty);
    }
}

#[test]
fn other_events_leave_the_loop_idle() {
    for event in [InputEvent::Other, InputEvent::KeyDown(Key::Other), InputEvent::KeyDown(Key::P)] {
        let mut state = FrameLoop { phase: Phase::Idle, iteration_cap: 50 };
        let tick = state.tick(&vec![event]);
        assert_eq!(tick.action, Action::Wait);
        assert_eq!(state, FrameLoop { phase: Phase::Idle, iteration_cap: 50 });
    }
}

#[test]
fn quit_exits_before_any_render() {
    let mut state = FrameLoop::new(100).unwrap();
    let tick = state.tick(&vec![InputEvent::Quit]);
    assert_eq!(tick.action, Action::Exit);
    assert_eq!(state.phase, Phase::Terminal);

    let mut state = FrameLoop::new(100).unwrap();
    let ticks = vec![vec![], vec![InputEvent::KeyDown(Key::W), InputEvent::KeyDown(Key::Escape)], vec![]];
    assert_eq!(run(&mut state, &ticks), 1);
    assert_eq!(state.phase, Phase::Terminal);
}

#[test]
fn events_behind_quit_are_not_taken() {
    let mut state = FrameLoop { phase: Phase::Idle, iteration_cap: 10 };
    let events = vec![
        InputEvent::KeyDown(Key::Equals),
        InputEvent::KeyDown(Key::A),
        InputEvent::Quit,
        InputEvent::KeyDown(Key::Equals),
        InputEvent::KeyDown(Key::I),
    ];
    let tick = state.tick(&events);
    assert_eq!(tick.action, Action::Exit);
    assert_eq!(tick.forwarded, vec![Command::Pan { dx: 1, dy: 0 }]);
    assert_eq!(state, FrameLoop { phase: Phase::Terminal, iteration_cap: 11 });
}

#[test]
fn terminal_loop_stays_terminal() {
    let mut state = FrameLoop { phase: Phase::Terminal, iteration_cap: 10 };
    let tick = state.tick(&vec![InputEvent::KeyDown(Key::A), InputEvent::KeyDown(Key::Equals)]);
    assert_eq!(tick.action, Action::Exit);
    assert!(tick.forwarded.is_empty());
    assert_eq!(state, FrameLoop { phase: Phase::Terminal, iteration_cap: 10 });
    state.render_done();
    assert_eq!(state.phase, Phase::Terminal);
}

#[test]
fn tick_forwards_commands_in_order() {
    let mut state = FrameLoop { phase: Phase::Idle, iteration_cap: 10 };
    let events = vec![
        InputEvent::KeyDown(Key::I),
        InputEvent::Other,
        InputEvent::KeyDown(Key::W),
        InputEvent::KeyDown(Key::P),
        InputEvent::KeyDown(Key::Minus),
        InputEvent::KeyDown(Key::O),
        InputEvent::KeyDown(Key::D),
    ];
    let tick = state.tick(&events);
    assert_eq!(
        tick.forwarded,
        vec![
            Command::Zoom { percent: 80 },
            Command::Pan { dx: 0, dy: 1 },
            Command::SaveImage,
            Command::Zoom { percent: 120 },
            Command::Pan { dx: -1, dy: 0 },
        ]
    );
    assert_eq!(tick.action, Action::Render);
    assert_eq!(state, FrameLoop { phase: Phase::Dirty, iteration_cap: 9 });
}

#[test]
fn cap_keys_move_the_cap_and_never_reach_zero() {
    let mut state = FrameLoop { phase: Phase::Idle, iteration_cap: 2 };
    let down = InputEvent::KeyDown(Key::Minus);
    let tick = state.tick(&vec![down, down, down]);
    assert_eq!(state.iteration_cap, 1);
    assert_eq!(tick.action, Action::Render);
    let up = InputEvent::KeyDown(Key::Equals);
    state.tick(&vec![up, up]);
    assert_eq!(state.iteration_cap, 3);
}

#[test]
fn on_event_returns_what_the_caller_carries_out() {
    let mut state = FrameLoop { phase: Phase::Idle, iteration_cap: 10 };
    assert_eq!(state.on_event(InputEvent::KeyDown(Key::P)), Some(Command::SaveImage));
    assert_eq!(state.phase, Phase::Idle);
    assert_eq!(state.on_event(InputEvent::KeyDown(Key::S)), Some(Command::Pan { dx: 0, dy: -1 }));
    assert_eq!(state.phase, Phase::Dirty);
    assert_eq!(state.on_event(InputEvent::KeyDown(Key::Equals)), None);
    assert_eq!(state.iteration_cap, 11);
    assert_eq!(state.on_event(InputEvent::Other), None);
    assert_eq!(state.on_event(InputEvent::Quit), None);
    assert_eq!(state.phase, Phase::Terminal);
    assert_eq!(state.on_event(InputEvent::KeyDown(Key::S)), None);
    assert_eq!(state, FrameLoop { phase: Phase::Terminal, iteration_cap: 11 });
}

#[test]
fn render_done_settles_only_a_dirty_loop() {
    let mut state = FrameLoop { phase: Phase::Idle, iteration_cap: 10 };
    state.render_done();
    assert_eq!(state.phase, Phase::Idle);
    let mut state = FrameLoop { phase: Phase::Dirty, iteration_cap: 10 };
    state.render_done();
    assert_eq!(state, FrameLoop { phase: Phase::Idle, iteration_cap: 10 });
}

#[test]
fn failed_render_ends_the_loop() {
    let mut state = FrameLoop::new(100).unwrap();
    let tick = state.tick(&vec![]);
    assert_eq!(tick.action, Action::Render);
    state.render_failed();
    assert_eq!(state, FrameLoop { phase: Phase::Terminal, iteration_cap: 100 });
    assert_eq!(state.tick(&vec![]).action, Action::Exit);
}

#[test]
fn sleep_fills_the_interval() {
    assert_eq!(FRAME_INTERVAL_NANOS, 1_000_000_000 / 60);
    assert_eq!(remaining_sleep_nanos(0), 16_666_666);
    assert_eq!(remaining_sleep_nanos(1_000_000), 15_666_666);
    assert_eq!(remaining_sleep_nanos(16_666_665), 1);
    assert_eq!(remaining_sleep_nanos(16_666_666), 0);
    assert_eq!(remaining_sleep_nanos(20_000_000), 0);
    assert_eq!(remaining_sleep_nanos(u64::MAX), 0);
}

#[test]
fn runs_of_ticks_compose() {
    let first = vec![vec![], vec![InputEvent::KeyDown(Key::I)], vec![]];
    let second = vec![vec![InputEvent::KeyDown(Key::P)], vec![InputEvent::KeyDown(Key::Minus)]];
    let mut whole = first.clone();
    whole.extend(second.clone());

    let mut split = FrameLoop::new(3).unwrap();
    let in_first = run(&mut split, &first);
    let in_second = run(&mut split, &second);
    let mut joined = FrameLoop::new(3).unwrap();
    let in_whole = run(&mut joined, &whole);
    assert_eq!((in_first, in_second), (2, 1));
    assert_eq!(in_whole, 3);
    assert_eq!(split, joined);
    assert_eq!(joined, FrameLoop { phase: Phase::Idle, iteration_cap: 2 });
}
