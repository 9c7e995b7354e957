//! Errors of device setup and of drawing a frame, with their messages.

use vstd::prelude::*;

verus! {

/// Why device setup stopped.
#[derive(Clone, Copy, Debug, PartialEq, Eq)]
pub enum SetupError {
    /// No adapter offers a queue family that supports graphics and that the
    /// surface accepts.
    NoGraphicalAdapter,
    /// The chosen adapter offers no such queue family.
    NoGraphicsQueueFamily,
    /// The physical device could not be opened.
    DeviceNotOpened,
    /// The opened device handed out no queue group for the chosen family.
    QueueGroupNotTaken,
    /// The queue group holds no command queue.
    NoCommandQueue,
    /// No frame may be in flight, so there is no slot to draw a frame with.
    NoFrameInFlight,
}

/// Why a frame was not drawn.
#[derive(Clone, Copy, Debug, PartialEq, Eq)]
pub enum RenderError {
    /// The swapchain handed out no image.
    ImageNotAcquired,
    /// The finished image could not be presented.
    NotPresented,
}

impl SetupError {
    /// The text of each setup error.
    pub open spec fn text(self) -> Seq<char> {
        match self {
            SetupError::NoGraphicalAdapter => "Couldn't find a graphical adapter!"@,
            SetupError::NoGraphicsQueueFamily => "Couldn't find a QueueFamily with graphics!"@,
            SetupError::DeviceNotOpened => "Couldn't open the PhysicalDevice!"@,
            SetupError::QueueGroupNotTaken => "Couldn't take ownership of the QueueGroup!"@,
            SetupError::NoCommandQueue => "The QueueGroup did not have any CommandQueues available!"@,
            SetupError::NoFrameInFlight => "There were no frames in flight to draw with!"@,
        }
    }

    /// The message shown for this error.
    pub fn message(&self) -> (text: &'static str)
        ensures
            text@ == self.text(),
    {
        match self {
            SetupError::NoGraphicalAdapter => "Couldn't find a graphical adapter!",
            SetupError::NoGraphicsQueueFamily => "Couldn't find a QueueFamily with graphics!",
            SetupError::DeviceNotOpened => "Couldn't open the PhysicalDevice!",
            SetupError::QueueGroupNotTaken => "Couldn't take ownership of the QueueGroup!",
            SetupError::NoCommandQueue => "The QueueGroup did not have any CommandQueues available!",
            SetupError::NoFrameInFlight => "There were no frames in flight to draw with!",
        }
    }
}

impl RenderError {
    /// The text of each drawing error.
    pub open spec fn text(self) -> Seq<char> {
        match self {
            RenderError::ImageNotAcquired => "Couldn't acquire an image from the swapchain!"@,
            RenderError::NotPresented => "Failed to present into the swapchain!"@,
        }
    }

    /// The message shown for this error.
    pub fn message(&self) -> (text: &'static str)
        ensures
            text@ == self.text(),
    {
        match self {
            RenderError::ImageNotAcquired => "Couldn't acquire an image from the swapchain!",
            RenderError::NotPresented => "Failed to present into the swapchain!",
        }
    }
}

} // verus!
