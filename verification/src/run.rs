//! The main loop: poll the window, draw a frame, and stop when the window is
//! to close or a frame fails.

use crate::error::RenderError;
use crate::frame::{FrameAction, FrameEvent, HalState};
use crate::window::UserInput;
use vstd::prelude::*;

verus! {

/// Where the main loop stands.
#[derive(Clone, Copy, Debug, PartialEq, Eq)]
pub enum LoopState {
    /// The loop has not begun.
    Start,
    /// The window's events are being polled.
    AwaitingInput,
    /// A frame is being drawn.
    AwaitingFrame,
    /// The loop has ended.
    Stopped,
}

/// What the driver reports.
#[derive(Clone, Copy, Debug, PartialEq, Eq)]
pub enum LoopEvent {
    /// The loop is to begin.
    Start,
    /// The window's events were polled and ask for this.
    Polled(UserInput),
    /// The frame is over, with this result.
    FrameDone(Result<(), RenderError>),
}

/// What the driver is to do next.
#[derive(Clone, Copy, Debug, PartialEq, Eq)]
pub enum LoopAction {
    /// Poll the window's events.
    PollInput,
    /// Bring the local state up to date with the input, then draw a frame.
    Render,
    /// Leave the loop: `Ok` because the window is to close, `Err` because a
    /// frame failed with this error, which is to be reported.
    Stop(Result<(), RenderError>),
}

impl LoopState {
    /// Whether `event` is what the state waits for.
    pub open spec fn accepts(self, event: LoopEvent) -> bool {
        match self {
            LoopState::Start => event is Start,
            LoopState::AwaitingInput => event is Polled,
            LoopState::AwaitingFrame => event is FrameDone,
            LoopState::Stopped => false,
        }
    }

    /// The state after `event`. An event that the state does not wait for
    /// changes nothing.
    pub open spec fn after(self, event: LoopEvent) -> LoopState {
        match (self, event) {
            (LoopState::Start, LoopEvent::Start) => LoopState::AwaitingInput,
            (LoopState::AwaitingInput, LoopEvent::Polled(input)) => if input.end_requested {
                LoopState::Stopped
            } else {
                LoopState::AwaitingFrame
            },
            (LoopState::AwaitingFrame, LoopEvent::FrameDone(result)) => if result is Ok {
                LoopState::AwaitingInput
            } else {
                LoopState::Stopped
            },
            _ => self,
        }
    }

    /// What the driver is told to do on `event`; nothing for an event that
    /// the state does not wait for.
    pub open spec fn action(self, event: LoopEvent) -> Option<LoopAction> {
        match (self, event) {
            (LoopState::Start, LoopEvent::Start) => Some(LoopAction::PollInput),
            (LoopState::AwaitingInput, LoopEvent::Polled(input)) => if input.end_requested {
                Some(LoopAction::Stop(Ok(())))
            } else {
                Some(LoopAction::Render)
            },
            (LoopState::AwaitingFrame, LoopEvent::FrameDone(result)) => match result {
                Ok(_) => Some(LoopAction::PollInput),
                Err(error) => Some(LoopAction::Stop(Err(error))),
            },
            _ => None,
        }
    }

    /// The state in which the loop begins.
    pub fn new() -> (state: LoopState)
        ensures
            state == LoopState::Start,
    {
        LoopState::Start
    }

    /// Takes the loop one step further on `event` and says what to do next.
    ///
    /// Each round polls the window first. A request to close the window ends
    /// the loop before anything is drawn. Otherwise one frame is drawn, and
    /// any error of that frame ends the loop: there is no second attempt.
    ///
    /// Returns `None`, and changes nothing, for an event that the state does
    /// not wait for; so for every event once the loop has ended.
    pub fn step(&mut self, event: LoopEvent) -> (action: Option<LoopAction>)
        ensures
            *final(self) == old(self).after(event),
            action == old(self).action(event),
            action is Some <==> old(self).accepts(event),
    {
        match (*self, event) {
            (LoopState::Start, LoopEvent::Start) => {
                *self = LoopState::AwaitingInput;
                Some(LoopAction::PollInput)
            },
            (LoopState::AwaitingInput, LoopEvent::Polled(input)) => {
                if input.end_requested {
                    *self = LoopState::Stopped;
                    Some(LoopAction::Stop(Ok(())))
                } else {
                    *self = LoopState::AwaitingFrame;
                    Some(LoopAction::Render)
                }
            },
            (LoopState::AwaitingFrame, LoopEvent::FrameDone(result)) => {
                match result {
                    Ok(_) => {
                        *self = LoopState::AwaitingInput;
                        Some(LoopAction::PollInput)
                    },
                    Err(error) => {
                        *self = LoopState::Stopped;
                        Some(LoopAction::Stop(Err(error)))
                    },
                }
            },
            _ => None,
        }
    }
}

/// Takes the drawing of the current frame one step further: what
/// [`HalState::draw_clear_frame`] does.
pub fn do_the_render(hal: &mut HalState, event: FrameEvent) -> (action: Option<FrameAction>)
    requires
        old(hal)@.admits(event),
    ensures
        final(hal)@ == old(hal)@.after(event),
        final(hal)@.wf(),
        action is Some <==> old(hal)@.accepts(event),
        match action {
            Some(a) => old(hal)@.action(event) == Some(a@),
            None => old(hal)@.action(event) is None,
        },
{
    hal.draw_clear_frame(event)
}

/// One round of the loop: it goes on to the next round exactly when the
/// window is not to close and the frame was drawn. It stops without drawing
/// when the window is to close, and with the frame's error when the frame
/// failed. Once stopped, the loop accepts no event.
pub proof fn lemma_round(input: UserInput, result: Result<(), RenderError>, event: LoopEvent)
    ensures
        ({
            let polled = LoopState::AwaitingInput.after(LoopEvent::Polled(input));
            let drawn = polled.after(LoopEvent::FrameDone(result));
            &&& input.end_requested ==> polled == LoopState::Stopped
                && LoopState::AwaitingInput.action(LoopEvent::Polled(input)) == Some(
                LoopAction::Stop(Ok(())),
            )
            &&& !input.end_requested ==> polled == LoopState::AwaitingFrame
            &&& drawn == LoopState::AwaitingInput <==> !input.end_requested && result is Ok
            &&& drawn != LoopState::AwaitingInput ==> drawn == LoopState::Stopped
            &&& !input.end_requested && result is Err ==> polled.action(
                LoopEvent::FrameDone(result),
            ) == Some(LoopAction::Stop(result))
        }),
        !LoopState::Stopped.accepts(event),
        LoopState::Stopped.after(event) == LoopState::Stopped,
        LoopState::Stopped.action(event) is None,
{
}

/// The state after all of `events`, taken in order.
pub open spec fn after_all(state: LoopState, events: Seq<LoopEvent>) -> LoopState
    decreases events.len(),
{
    if events.len() == 0 {
        state
    } else {
        after_all(state, events.drop_last()).after(events.last())
    }
}

/// A loop that has stopped stays stopped, whatever events follow. So a loop
/// that was told to close, or whose frame failed, never polls or draws
/// again.
pub proof fn lemma_stopped_for_good(state: LoopState, events: Seq<LoopEvent>, later: Seq<LoopEvent>)
    requires
        after_all(state, events) == LoopState::Stopped,
    ensures
        after_all(state, events + later) == LoopState::Stopped,
    decreases later.len(),
{
    if later.len() == 0 {
        assert(events + later == events);
    } else {
        lemma_stopped_for_good(state, events, later.drop_last());
        assert((events + later).drop_last() == events + later.drop_last());
        assert((events + later).last() == later.last());
    }
}

} // verus!
