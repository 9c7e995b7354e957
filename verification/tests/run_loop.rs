use clear_frame::error::RenderError;
use clear_frame::run::{LoopAction, LoopEvent, LoopState};
use clear_frame::window::UserInput;

fn go_on() -> LoopEvent {
    LoopEvent::Polled(UserInput { end_requested: false })
}

fn close() -> LoopEvent {
    LoopEvent::Polled(UserInput { end_requested: true })
}

#[test]
fn loop_begins_by_polling() {
    let mut state = LoopState::new();
    assert_eq!(state, LoopState::Start);
    assert_eq!(state.step(LoopEvent::Start), Some(LoopAction::PollInput));
    assert_eq!(state, LoopState::AwaitingInput);
}

#[test]
fn loop_draws_when_the_window_stays_open() {
    let mut state = LoopState::AwaitingInput;
    assert_eq!(state.step(go_on()), Some(LoopAction::Render));
    assert_eq!(state, LoopState::AwaitingFrame);
}

#[test]
fn loop_polls_again_after_a_frame() {
    let mut state = LoopState::AwaitingFrame;
    assert_eq!(state.step(LoopEvent::FrameDone(Ok(()))), Some(LoopAction::PollInput));
    assert_eq!(state, LoopState::AwaitingInput);
}

#[test]
fn close_request_stops_the_loop_before_drawing() {
    let mut state = LoopState::new();
    state.step(LoopEvent::Start);
    assert_eq!(state.step(close()), Some(LoopAction::Stop(Ok(()))));
    assert_eq!(state, LoopState::Stopped);
}

#[test]
fn acquire_error_stops_the_loop() {
    let mut state = LoopState::AwaitingFrame;
    assert_eq!(
        state.step(LoopEvent::FrameDone(Err(RenderError::ImageNotAcquired))),
        Some(LoopAction::Stop(Err(RenderError::ImageNotAcquired)))
    );
    assert_eq!(state, LoopState::Stopped);
}

#[test]
fn present_error_stops_the_loop() {
    let mut state = LoopState::AwaitingFrame;
    assert_eq!(
        state.step(LoopEvent::FrameDone(Err(RenderError::NotPresented))),
        Some(LoopAction::Stop(Err(RenderError::NotPresented)))
    );
    assert_eq!(state, LoopState::Stopped);
}

#[test]
fn loop_runs_round_after_round_until_closed() {
    let mut state = LoopState::new();
    assert_eq!(state.step(LoopEvent::Start), Some(LoopAction::PollInput));
    for _ in 0..3 {
        assert_eq!(state.step(go_on()), Some(LoopAction::Render));
        assert_eq!(state.step(LoopEvent::FrameDone(Ok(()))), Some(LoopAction::PollInput));
    }
    assert_eq!(state.step(close()), Some(LoopAction::Stop(Ok(()))));
    assert_eq!(state, LoopState::Stopped);
}

#[test]
fn stopped_loop_accepts_nothing() {
    let events = vec![
        LoopEvent::Start,
        go_on(),
        close(),
        LoopEvent::FrameDone(Ok(())),
        LoopEvent::FrameDone(Err(RenderError::NotPresented)),
    ];
    for event in events {
        let mut state = LoopState::Stopped;
        assert_eq!(state.step(event), None);
        assert_eq!(state, LoopState::Stopped);
    }
}

#[test]
fn loop_ignores_events_out_of_turn() {
    let mut state = LoopState::new();
    assert_eq!(state.step(go_on()), None);
    assert_eq!(state.step(LoopEvent::FrameDone(Ok(()))), None);
    assert_eq!(state, LoopState::Start);

    state.step(LoopEvent::Start);
    assert_eq!(state.step(LoopEvent::Start), None);
    assert_eq!(state.step(LoopEvent::FrameDone(Err(RenderError::NotPresented))), None);
    assert_eq!(state, LoopState::AwaitingInput);

    state.step(go_on());
    assert_eq!(state.step(LoopEvent::Start), None);
    assert_eq!(state.step(close()), None);
    assert_eq!(state, LoopState::AwaitingFrame);
}
