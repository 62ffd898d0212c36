use textured_quad::frame_loop::{
    advance, Action, Event, FrameLoop, LoopState, Pass, Phase, Step, FIRST_FENCE_VALUE,
    SYNC_INTERVAL,
};

const EVENTS: [Event; 12] = [
    Event::Setup,
    Event::CloseRequested,
    Event::Tick,
    Event::Other,
    Event::Recorded,
    Event::Executed,
    Event::Shown,
    Event::FenceRead(0),
    Event::FenceRead(5),
    Event::FenceRead(u64::MAX),
    Event::WaitReturned,
    Event::Retired,
];

const STEPS: [Step; 7] = [
    Step::Idle,
    Step::Recording,
    Step::Submitted,
    Step::Presented,
    Step::Signaled,
    Step::Waiting,
    Step::Synced,
];

// Carries a cycle out the way the loop does, with a fence that lags behind when
// `lagging` is set, and gives back the actions it was told to do.
fn run_cycle(frame_loop: &mut FrameLoop, first: Event, lagging: bool) -> Vec<Action> {
    let mut done = Vec::new();
    let mut action = frame_loop.step(first);
    loop {
        done.push(action);
        action = match action {
            Action::Nothing | Action::Exit => return done,
            Action::Record(_) => frame_loop.step(Event::Recorded),
            Action::Execute => frame_loop.step(Event::Executed),
            Action::Present { .. } => frame_loop.step(Event::Shown),
            Action::Signal { value } => {
                frame_loop.step(Event::FenceRead(if lagging { value - 1 } else { value }))
            }
            Action::Wait { .. } => frame_loop.step(Event::WaitReturned),
            Action::Retire => frame_loop.step(Event::Retired),
        };
    }
}

fn uploaded() -> FrameLoop {
    let mut frame_loop = FrameLoop::new();
    run_cycle(&mut frame_loop, Event::Setup, true);
    frame_loop
}

#[test]
fn a_new_loop_is_open_and_idle_with_the_fence_at_one() {
    let frame_loop = FrameLoop::new();
    assert_eq!(
        frame_loop.state(),
        LoopState {
            closed: false,
            step: Step::Idle,
            pass: Pass::Upload,
            texture_ready: false,
            fence_value: 1,
            completed: 0,
        }
    );
    assert!(!frame_loop.closed());
    assert_eq!(frame_loop.phase(), Phase::Idle);
    assert_eq!(frame_loop.fence_value(), FIRST_FENCE_VALUE);
    assert_eq!(SYNC_INTERVAL, 1);
}

#[test]
fn the_upload_goes_through_every_phase() {
    let mut frame_loop = FrameLoop::new();
    assert_eq!(frame_loop.step(Event::Setup), Action::Record(Pass::Upload));
    assert_eq!(frame_loop.phase(), Phase::Recording);
    assert_eq!(frame_loop.step(Event::Recorded), Action::Execute);
    assert_eq!(frame_loop.phase(), Phase::Submitted);
    assert_eq!(frame_loop.step(Event::Executed), Action::Present { sync_interval: 1 });
    assert_eq!(frame_loop.phase(), Phase::Presented);
    assert_eq!(frame_loop.step(Event::Shown), Action::Signal { value: 1 });
    assert_eq!(frame_loop.phase(), Phase::Presented);
    assert_eq!(frame_loop.step(Event::FenceRead(0)), Action::Wait { value: 1 });
    assert_eq!(frame_loop.phase(), Phase::Presented);
    assert_eq!(frame_loop.step(Event::WaitReturned), Action::Retire);
    assert_eq!(frame_loop.phase(), Phase::Synced);
    assert_eq!(frame_loop.state().completed, 1);
    assert!(!frame_loop.state().texture_ready);
    assert_eq!(frame_loop.step(Event::Retired), Action::Nothing);
    assert_eq!(frame_loop.phase(), Phase::Idle);
    assert_eq!(frame_loop.fence_value(), 2);
    assert!(frame_loop.state().texture_ready);
}

#[test]
fn a_frame_does_what_the_upload_did_with_the_next_fence_value() {
    let mut frame_loop = uploaded();
    let actions = run_cycle(&mut frame_loop, Event::Tick, true);
    assert_eq!(
        actions,
        vec![
            Action::Record(Pass::Frame),
            Action::Execute,
            Action::Present { sync_interval: 1 },
            Action::Signal { value: 2 },
            Action::Wait { value: 2 },
            Action::Retire,
            Action::Nothing,
        ]
    );
    assert_eq!(frame_loop.fence_value(), 3);
    assert_eq!(frame_loop.state().completed, 2);
}

#[test]
fn a_fence_that_has_passed_the_value_is_not_waited_for() {
    let mut frame_loop = uploaded();
    let actions = run_cycle(&mut frame_loop, Event::Tick, false);
    assert_eq!(
        actions,
        vec![
            Action::Record(Pass::Frame),
            Action::Execute,
            Action::Present { sync_interval: 1 },
            Action::Signal { value: 2 },
            Action::Retire,
            Action::Nothing,
        ]
    );
    assert_eq!(frame_loop.state().completed, 2);
    assert_eq!(frame_loop.fence_value(), 3);
}

#[test]
fn a_fence_read_beyond_the_value_counts_as_the_value() {
    let mut frame_loop = uploaded();
    frame_loop.step(Event::Tick);
    frame_loop.step(Event::Recorded);
    frame_loop.step(Event::Executed);
    frame_loop.step(Event::Shown);
    assert_eq!(frame_loop.step(Event::FenceRead(900)), Action::Retire);
    assert_eq!(frame_loop.state().completed, 2);
}

#[test]
fn the_fence_values_of_a_thousand_frames_go_up_by_one() {
    let mut frame_loop = uploaded();
    let mut last = 1;
    for frame in 0..1000u64 {
        let actions = run_cycle(&mut frame_loop, Event::Tick, frame % 3 != 0);
        let completed_before = last;
        for action in actions {
            if let Action::Signal { value } = action {
                assert_eq!(value, last + 1);
                assert!(value > completed_before);
                last = value;
            }
            if let Action::Wait { value } = action {
                assert_eq!(value, last);
            }
        }
        assert_eq!(frame_loop.state().completed, last);
        assert_eq!(frame_loop.fence_value(), last + 1);
    }
    assert_eq!(last, 1001);
}

#[test]
fn no_frame_is_drawn_before_the_texture_is_uploaded() {
    let mut frame_loop = FrameLoop::new();
    assert_eq!(frame_loop.step(Event::Tick), Action::Nothing);
    assert_eq!(frame_loop.phase(), Phase::Idle);
    frame_loop.step(Event::Setup);
    assert_eq!(frame_loop.step(Event::Tick), Action::Nothing);
    assert_eq!(frame_loop.phase(), Phase::Recording);
}

#[test]
fn the_texture_is_uploaded_once() {
    let mut frame_loop = uploaded();
    assert_eq!(frame_loop.step(Event::Setup), Action::Nothing);
    assert_eq!(frame_loop.phase(), Phase::Idle);
}

#[test]
fn a_close_request_exits_at_once_and_no_frame_follows() {
    let mut frame_loop = uploaded();
    run_cycle(&mut frame_loop, Event::Tick, true);
    let before = frame_loop.state();
    assert_eq!(frame_loop.step(Event::CloseRequested), Action::Exit);
    assert!(frame_loop.closed());
    let closed = frame_loop.state();
    assert_eq!(closed, LoopState { closed: true, ..before });
    for _ in 0..3 {
        for event in EVENTS {
            let action = frame_loop.step(event);
            assert!(action == Action::Nothing || action == Action::Exit);
            assert_eq!(action == Action::Exit, event == Event::CloseRequested);
            assert_eq!(frame_loop.state(), closed);
        }
    }
}

#[test]
fn a_close_request_before_the_upload_keeps_the_upload_from_starting() {
    let mut frame_loop = FrameLoop::new();
    assert_eq!(frame_loop.step(Event::CloseRequested), Action::Exit);
    assert_eq!(frame_loop.step(Event::Setup), Action::Nothing);
    assert_eq!(frame_loop.step(Event::Tick), Action::Nothing);
    assert_eq!(frame_loop.phase(), Phase::Idle);
}

#[test]
fn a_cycle_under_way_when_the_close_comes_is_still_brought_to_its_end() {
    let mut frame_loop = uploaded();
    frame_loop.step(Event::Tick);
    frame_loop.step(Event::Recorded);
    assert_eq!(frame_loop.step(Event::CloseRequested), Action::Exit);
    assert_eq!(frame_loop.phase(), Phase::Submitted);
    assert_eq!(frame_loop.step(Event::Executed), Action::Present { sync_interval: 1 });
    assert_eq!(frame_loop.step(Event::Shown), Action::Signal { value: 2 });
    assert_eq!(frame_loop.step(Event::FenceRead(1)), Action::Wait { value: 2 });
    assert_eq!(frame_loop.step(Event::WaitReturned), Action::Retire);
    assert_eq!(frame_loop.step(Event::Retired), Action::Nothing);
    assert_eq!(frame_loop.step(Event::Tick), Action::Nothing);
    assert_eq!(frame_loop.phase(), Phase::Idle);
}

#[test]
fn an_event_that_the_step_does_not_wait_for_changes_nothing() {
    for step in STEPS {
        let state = LoopState {
            closed: false,
            step,
            pass: Pass::Frame,
            texture_ready: true,
            fence_value: 7,
            completed: if step == Step::Synced { 7 } else { 6 },
        };
        for event in EVENTS {
            let awaited = matches!(
                (step, event),
                (Step::Idle, Event::Tick)
                    | (Step::Recording, Event::Recorded)
                    | (Step::Submitted, Event::Executed)
                    | (Step::Presented, Event::Shown)
                    | (Step::Signaled, Event::FenceRead(_))
                    | (Step::Waiting, Event::WaitReturned)
                    | (Step::Synced, Event::Retired)
                    | (_, Event::CloseRequested)
            );
            let (after, action) = advance(state, event);
            if awaited {
                assert_ne!(after, state);
                assert_eq!(action == Action::Nothing, event == Event::Retired);
            } else {
                assert_eq!(after, state);
                assert_eq!(action, Action::Nothing);
            }
        }
    }
}

#[test]
fn retiring_a_cycle_adds_one_to_the_fence_value() {
    let synced = LoopState {
        closed: false,
        step: Step::Synced,
        pass: Pass::Frame,
        texture_ready: true,
        fence_value: 41,
        completed: 41,
    };
    assert_eq!(
        advance(synced, Event::Retired),
        (LoopState { step: Step::Idle, fence_value: 42, ..synced }, Action::Nothing)
    );
}

#[test]
fn a_fence_with_no_value_left_closes_the_loop() {
    let spent = LoopState {
        closed: false,
        step: Step::Idle,
        pass: Pass::Frame,
        texture_ready: true,
        fence_value: u64::MAX,
        completed: u64::MAX - 1,
    };
    assert_eq!(advance(spent, Event::Tick), (LoopState { closed: true, ..spent }, Action::Exit));
    let last = LoopState { fence_value: u64::MAX - 1, completed: u64::MAX - 2, ..spent };
    assert_eq!(
        advance(last, Event::Tick),
        (LoopState { step: Step::Recording, ..last }, Action::Record(Pass::Frame))
    );
}

#[test]
fn the_loop_and_the_transition_function_agree() {
    let mut frame_loop = FrameLoop::new();
    let script = [
        Event::Tick,
        Event::Setup,
        Event::Other,
        Event::Recorded,
        Event::Recorded,
        Event::Executed,
        Event::Shown,
        Event::WaitReturned,
        Event::FenceRead(0),
        Event::FenceRead(1),
        Event::WaitReturned,
        Event::Retired,
        Event::Tick,
        Event::CloseRequested,
        Event::Recorded,
    ];
    for event in script {
        let before = frame_loop.state();
        let action = frame_loop.step(event);
        assert_eq!((frame_loop.state(), action), advance(before, event));
    }
}
