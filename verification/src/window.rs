//! The window that is opened, and what its events ask for.

use vstd::prelude::*;

verus! {

/// The title of the window.
pub const WINDOW_NAME: &'static str = "Hello Winit";

/// The width of the window, in logical pixels.
pub const WINDOW_WIDTH: u32 = 800;

/// The height of the window, in logical pixels.
pub const WINDOW_HEIGHT: u32 = 600;

/// How a window is to be opened: its title and its size in logical pixels.
#[derive(Debug, PartialEq, Eq)]
pub struct WindowConfig {
    pub title: String,
    pub width: u32,
    pub height: u32,
}

impl Default for WindowConfig {
    /// A window of 800 by 600 logical pixels with the title "Hello Winit".
    fn default() -> (config: WindowConfig)
        ensures
            config.title@ == WINDOW_NAME@,
            config.width == 800,
            config.height == 600,
    {
        WindowConfig { title: WINDOW_NAME.to_owned(), width: WINDOW_WIDTH, height: WINDOW_HEIGHT }
    }
}

/// An event of the window, as far as the main loop cares.
#[derive(Clone, Copy, Debug, PartialEq, Eq)]
pub enum InputEvent {
    /// The user asked for the window to be closed.
    CloseRequested,
    /// Anything else.
    Other,
}

/// What the events of one round of polling ask for.
#[derive(Clone, Copy, Debug, PartialEq, Eq)]
pub struct UserInput {
    /// Whether the program is to end.
    pub end_requested: bool,
}

/// Some event of `events` asks for the window to be closed.
pub open spec fn close_requested(events: Seq<InputEvent>) -> bool {
    exists|k: int| 0 <= k < events.len() && #[trigger] events[k] is CloseRequested
}

impl UserInput {
    /// Sums up the events of one round of polling: the end is requested
    /// exactly when one of them is a request to close the window.
    pub fn from_events(events: &Vec<InputEvent>) -> (input: UserInput)
        ensures
            input.end_requested == close_requested(events@),
    {
        let mut end_requested = false;
        let mut at: usize = 0;
        while at < events.len()
            invariant
                at <= events.len(),
                end_requested == close_requested(events@.take(at as int)),
            decreases events.len() - at,
        {
            match events[at] {
                InputEvent::CloseRequested => {
                    end_requested = true;
                },
                InputEvent::Other => {},
            }
            proof {
                lemma_close_requested_push(events@.take(at as int), events@[at as int]);
                assert(events@.take(at + 1) == events@.take(at as int).push(events@[at as int]));
            }
            at += 1;
        }
        proof {
            assert(events@.take(at as int) == events@);
        }
        UserInput { end_requested }
    }
}

/// A close request is among the events and one more exactly when it was
/// among the events or is the one more.
pub proof fn lemma_close_requested_push(events: Seq<InputEvent>, event: InputEvent)
    ensures
        close_requested(events.push(event)) <==> close_requested(events) || event is CloseRequested,
{
    let all = events.push(event);
    if close_requested(events) {
        let k = choose|k: int| 0 <= k < events.len() && #[trigger] events[k] is CloseRequested;
        assert(all[k] is CloseRequested);
    }
    if event is CloseRequested {
        assert(all[events.len() as int] is CloseRequested);
    }
    if close_requested(all) {
        let k = choose|k: int| 0 <= k < all.len() && #[trigger] all[k] is CloseRequested;
        if k < events.len() {
            assert(events[k] is CloseRequested);
        }
    }
}

} // verus!
