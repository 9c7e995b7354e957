//! Setting up the device: from listing the adapters to a queue group with a
//! command queue in it.
//!
//! Setup is a state machine. The driver does the work that each
//! [`SetupAction`] names and reports the outcome as a [`SetupEvent`]. The
//! first failure ends setup for good.

use crate::adapter::{
    chosen, choose_device, has_graphical_adapter, lemma_choice_unique, AdapterInfo, DeviceChoice,
};
use crate::error::SetupError;
use crate::window::WINDOW_NAME;
use vstd::prelude::*;

verus! {

/// The version that the instance is created with.
pub const INSTANCE_VERSION: u32 = 1;

/// The number of queues that the device is opened with.
pub const QUEUES_TO_OPEN: usize = 1;

/// How far setup has come.
#[derive(Clone, Copy, Debug, PartialEq, Eq)]
pub enum SetupState {
    /// Nothing was done yet.
    Start,
    /// The adapters are being listed.
    ListingAdapters,
    /// The chosen device is being opened.
    OpeningDevice { choice: DeviceChoice },
    /// The queue group of the chosen family is being taken from the device.
    TakingQueueGroup { choice: DeviceChoice },
    /// The device is open and its queue group holds `queues` command queues.
    Ready { choice: DeviceChoice, queues: usize },
    /// Setup failed.
    Failed { error: SetupError },
}

/// What the driver reports.
#[derive(Debug, PartialEq, Eq)]
pub enum SetupEvent {
    /// Setup is to begin.
    Start,
    /// These are the adapters, in the order in which the instance lists them.
    AdaptersListed(Vec<AdapterInfo>),
    /// The device was opened.
    DeviceOpened,
    /// The device could not be opened.
    DeviceNotOpened,
    /// The device handed out the queue group, which holds `queues` command
    /// queues.
    QueueGroupTaken { queues: usize },
    /// The device handed out no queue group for the family.
    QueueGroupNotTaken,
}

/// What the driver is to do next.
#[derive(Clone, Copy, Debug, PartialEq, Eq)]
pub enum SetupAction {
    /// Create the instance with the name `instance_name` and the version
    /// `instance_version`, create the surface of the window, and list the
    /// adapters: for each queue family, its identifier, whether it supports
    /// graphics and whether the surface accepts it.
    ListAdapters { instance_name: &'static str, instance_version: u32 },
    /// Open the physical device of the chosen adapter with `queues` queues of
    /// the chosen family.
    OpenDevice { choice: DeviceChoice, queues: usize },
    /// Take the graphics queue group of the family `family_id` from the
    /// opened device.
    TakeQueueGroup { family_id: usize },
    /// Setup is over, with this result.
    Finish(Result<DeviceChoice, SetupError>),
}

impl SetupState {
    /// Whether `event` is what the state waits for.
    pub open spec fn accepts(self, event: SetupEvent) -> bool {
        match self {
            SetupState::Start => event is Start,
            SetupState::ListingAdapters => event is AdaptersListed,
            SetupState::OpeningDevice { .. } => event is DeviceOpened || event is DeviceNotOpened,
            SetupState::TakingQueueGroup { .. } => event is QueueGroupTaken
                || event is QueueGroupNotTaken,
            SetupState::Ready { .. } => false,
            SetupState::Failed { .. } => false,
        }
    }

    /// Setup is over, one way or the other.
    pub open spec fn finished(self) -> bool {
        self is Ready || self is Failed
    }

    /// `event` takes setup from `self` to `next`, and the driver is told
    /// `action`.
    ///
    /// An event that the state does not wait for changes nothing and has no
    /// action. A failure ends setup with its error. The device is the one
    /// that [`chosen`] names.
    pub open spec fn steps(
        self,
        event: SetupEvent,
        next: SetupState,
        action: Option<SetupAction>,
    ) -> bool {
        match (self, event) {
            (SetupState::Start, SetupEvent::Start) => {
                &&& next == SetupState::ListingAdapters
                &&& action == Some(
                    SetupAction::ListAdapters {
                        instance_name: WINDOW_NAME,
                        instance_version: INSTANCE_VERSION,
                    },
                )
            },
            (SetupState::ListingAdapters, SetupEvent::AdaptersListed(adapters)) => {
                if has_graphical_adapter(adapters@) {
                    &&& next matches SetupState::OpeningDevice { choice }
                    &&& chosen(adapters@, choice)
                    &&& action == Some(SetupAction::OpenDevice { choice, queues: QUEUES_TO_OPEN })
                } else {
                    failure(SetupError::NoGraphicalAdapter, next, action)
                }
            },
            (SetupState::OpeningDevice { choice }, SetupEvent::DeviceOpened) => {
                &&& next == SetupState::TakingQueueGroup { choice }
                &&& action == Some(SetupAction::TakeQueueGroup { family_id: choice.family_id })
            },
            (SetupState::OpeningDevice { .. }, SetupEvent::DeviceNotOpened) => failure(
                SetupError::DeviceNotOpened,
                next,
                action,
            ),
            (SetupState::TakingQueueGroup { choice }, SetupEvent::QueueGroupTaken { queues }) => {
                if queues > 0 {
                    &&& next == SetupState::Ready { choice, queues }
                    &&& action == Some(SetupAction::Finish(Ok(choice)))
                } else {
                    failure(SetupError::NoCommandQueue, next, action)
                }
            },
            (SetupState::TakingQueueGroup { .. }, SetupEvent::QueueGroupNotTaken) => failure(
                SetupError::QueueGroupNotTaken,
                next,
                action,
            ),
            _ => next == self && action is None,
        }
    }

    /// The state in which setup begins.
    pub fn new() -> (state: SetupState)
        ensures
            state == SetupState::Start,
    {
        SetupState::Start
    }

    /// Takes setup one step further on `event` and says what to do next.
    ///
    /// Returns `None`, and changes nothing, for an event that the state does
    /// not wait for; so for every event once setup is over.
    pub fn step(&mut self, event: SetupEvent) -> (action: Option<SetupAction>)
        ensures
            old(self).steps(event, *final(self), action),
            action is Some <==> old(self).accepts(event),
    {
        match (*self, event) {
            (SetupState::Start, SetupEvent::Start) => {
                *self = SetupState::ListingAdapters;
                Some(
                    SetupAction::ListAdapters {
                        instance_name: WINDOW_NAME,
                        instance_version: INSTANCE_VERSION,
                    },
                )
            },
            (SetupState::ListingAdapters, SetupEvent::AdaptersListed(adapters)) => {
                match choose_device(&adapters) {
                    Ok(choice) => {
                        *self = SetupState::OpeningDevice { choice };
                        Some(SetupAction::OpenDevice { choice, queues: QUEUES_TO_OPEN })
                    },
                    Err(error) => self.fail(error),
                }
            },
            (SetupState::OpeningDevice { choice }, SetupEvent::DeviceOpened) => {
                *self = SetupState::TakingQueueGroup { choice };
                Some(SetupAction::TakeQueueGroup { family_id: choice.family_id })
            },
            (SetupState::OpeningDevice { .. }, SetupEvent::DeviceNotOpened) => {
                self.fail(SetupError::DeviceNotOpened)
            },
            (SetupState::TakingQueueGroup { choice }, SetupEvent::QueueGroupTaken { queues }) => {
                if queues > 0 {
                    *self = SetupState::Ready { choice, queues };
                    Some(SetupAction::Finish(Ok(choice)))
                } else {
                    self.fail(SetupError::NoCommandQueue)
                }
            },
            (SetupState::TakingQueueGroup { .. }, SetupEvent::QueueGroupNotTaken) => {
                self.fail(SetupError::QueueGroupNotTaken)
            },
            _ => None,
        }
    }

    /// Ends setup with `error`.
    fn fail(&mut self, error: SetupError) -> (action: Option<SetupAction>)
        ensures
            failure(error, *final(self), action),
    {
        *self = SetupState::Failed { error };
        Some(SetupAction::Finish(Err(error)))
    }
}

/// Setup has ended in `next` with `error`, and the driver is told so.
pub open spec fn failure(error: SetupError, next: SetupState, action: Option<SetupAction>) -> bool {
    &&& next == SetupState::Failed { error }
    &&& action == Some(SetupAction::Finish(Err(error)))
}

/// What a step leads to is determined by the state and the event.
pub proof fn lemma_step_determined(
    state: SetupState,
    event: SetupEvent,
    next: SetupState,
    action: Option<SetupAction>,
    other_next: SetupState,
    other_action: Option<SetupAction>,
)
    requires
        state.steps(event, next, action),
        state.steps(event, other_next, other_action),
    ensures
        next == other_next,
        action == other_action,
{
    if state is ListingAdapters {
        if let SetupEvent::AdaptersListed(adapters) = event {
            if has_graphical_adapter(adapters@) {
                lemma_choice_unique(
                    adapters@,
                    next->OpeningDevice_choice,
                    other_next->OpeningDevice_choice,
                );
            }
        }
    }
}

/// Once setup is over, no event changes the state or has an action.
pub proof fn lemma_finished_stays(
    state: SetupState,
    event: SetupEvent,
    next: SetupState,
    action: Option<SetupAction>,
)
    requires
        state.finished(),
        state.steps(event, next, action),
    ensures
        next == state,
        action is None,
        !state.accepts(event),
{
}

/// Setup gets ready in four steps when an adapter is graphical, the device
/// opens and its queue group holds a command queue: the device that is
/// opened, and whose queue group is taken, is the chosen one.
pub proof fn lemma_setup_gets_ready(
    adapters: Vec<AdapterInfo>,
    queues: usize,
    listing: SetupState,
    opening: SetupState,
    taking: SetupState,
    ready: SetupState,
    list: Option<SetupAction>,
    open: Option<SetupAction>,
    take: Option<SetupAction>,
    finish: Option<SetupAction>,
)
    requires
        has_graphical_adapter(adapters@),
        queues > 0,
        SetupState::Start.steps(SetupEvent::Start, listing, list),
        listing.steps(SetupEvent::AdaptersListed(adapters), opening, open),
        opening.steps(SetupEvent::DeviceOpened, taking, take),
        taking.steps(SetupEvent::QueueGroupTaken { queues }, ready, finish),
    ensures
        ready matches SetupState::Ready { choice, queues: held } && held == queues && chosen(
            adapters@,
            choice,
        ) && open == Some(SetupAction::OpenDevice { choice, queues: QUEUES_TO_OPEN }) && take
            == Some(SetupAction::TakeQueueGroup { family_id: choice.family_id }) && finish == Some(
            SetupAction::Finish(Ok(choice)),
        ),
{
}

} // verus!
