use clear_frame::error::{RenderError, SetupError};

#[test]
fn setup_error_messages() {
    assert_eq!(SetupError::NoGraphicalAdapter.message(), "Couldn't find a graphical adapter!");
    assert_eq!(
        SetupError::NoGraphicsQueueFamily.message(),
        "Couldn't find a QueueFamily with graphics!"
    );
    assert_eq!(SetupError::DeviceNotOpened.message(), "Couldn't open the PhysicalDevice!");
    assert_eq!(
        SetupError::QueueGroupNotTaken.message(),
        "Couldn't take ownership of the QueueGroup!"
    );
    assert_eq!(
        SetupError::NoCommandQueue.message(),
        "The QueueGroup did not have any CommandQueues available!"
    );
    assert_eq!(
        SetupError::NoFrameInFlight.message(),
        "There were no frames in flight to draw with!"
    );
}

#[test]
fn render_error_messages() {
    assert_eq!(
        RenderError::ImageNotAcquired.message(),
        "Couldn't acquire an image from the swapchain!"
    );
    assert_eq!(RenderError::NotPresented.message(), "Failed to present into the swapchain!");
}

#[test]
fn messages_are_all_different() {
    let messages = vec![
        SetupError::NoGraphicalAdapter.message(),
        SetupError::NoGraphicsQueueFamily.message(),
        SetupError::DeviceNotOpened.message(),
        SetupError::QueueGroupNotTaken.message(),
        SetupError::NoCommandQueue.message(),
        SetupError::NoFrameInFlight.message(),
        RenderError::ImageNotAcquired.message(),
        RenderError::NotPresented.message(),
    ];
    for (i, a) in messages.iter().enumerate() {
        for b in messages.iter().skip(i + 1) {
            assert_ne!(a, b);
        }
    }
}
