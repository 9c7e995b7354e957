use clear_frame::error::{RenderError, SetupError};
use clear_frame::frame::{
    FrameAction, FrameEvent, FramePhase, HalState, ACQUIRE_TIMEOUT_NS, COLOR_ATTACHMENT_OUTPUT,
};
use clear_frame::run::do_the_render;
use gfx_hal::pso::PipelineStage;

fn state(frames_in_flight: usize, framebuffers: usize) -> HalState {
    HalState::new(frames_in_flight, framebuffers).unwrap()
}

fn draw_whole_frame(hal: &mut HalState, image: u32) {
    assert!(hal.draw_clear_frame(FrameEvent::Start).is_some());
    assert!(hal.draw_clear_frame(FrameEvent::ImageAcquired(image)).is_some());
    assert_eq!(
        hal.draw_clear_frame(FrameEvent::Presented),
        Some(FrameAction::Finish(Ok(())))
    );
}

#[test]
fn frame_constants() {
    assert_eq!(ACQUIRE_TIMEOUT_NS, u64::MAX);
    assert_eq!(COLOR_ATTACHMENT_OUTPUT, 0x400);
}

#[test]
fn submission_waits_at_the_colour_output_stage() {
    let mut hal = state(2, 2);
    hal.draw_clear_frame(FrameEvent::Start);
    match hal.draw_clear_frame(FrameEvent::ImageAcquired(0)) {
        Some(FrameAction::RecordAndSubmit { submission, .. }) => {
            assert_eq!(
                PipelineStage::from_bits(submission.wait_stage),
                Some(PipelineStage::COLOR_ATTACHMENT_OUTPUT)
            );
            assert_eq!(submission.wait_stage, COLOR_ATTACHMENT_OUTPUT);
        }
        other => panic!("unexpected action: {:?}", other),
    }
}

#[test]
fn new_state_has_one_of_each_per_frame_in_flight() {
    let hal = state(3, 5);
    assert_eq!(hal.current_frame(), 0);
    assert_eq!(hal.frames_in_flight(), 3);
    assert_eq!(hal.in_flight_fences(), 3);
    assert_eq!(hal.render_finished_semaphores(), 3);
    assert_eq!(hal.image_available_semaphores(), 3);
    assert_eq!(hal.command_buffers(), 3);
    assert_eq!(hal.framebuffers(), 5);
    assert_eq!(hal.phase(), FramePhase::Idle);
}

#[test]
fn start_asks_for_an_image_and_moves_to_the_next_slot() {
    let mut hal = state(3, 3);
    assert_eq!(
        hal.draw_clear_frame(FrameEvent::Start),
        Some(FrameAction::AcquireImage { timeout_ns: u64::MAX, signal: 0 })
    );
    assert_eq!(hal.current_frame(), 1);
    assert_eq!(hal.phase(), FramePhase::AwaitingImage { slot: 0 });
}

#[test]
fn acquired_image_is_recorded_submitted_and_presented() {
    let mut hal = state(3, 3);
    draw_whole_frame(&mut hal, 0);
    hal.draw_clear_frame(FrameEvent::Start);
    let action = hal.draw_clear_frame(FrameEvent::ImageAcquired(2));
    match action {
        Some(FrameAction::RecordAndSubmit {
            image,
            target,
            submission,
            fence,
            present_wait_semaphores,
        }) => {
            assert_eq!(image, 2);
            assert_eq!(target, 2);
            assert_eq!(submission.command_buffers.indices(), vec![2]);
            assert_eq!(submission.wait_semaphores.indices(), vec![1]);
            assert_eq!(submission.wait_stage, 0x400);
            assert_eq!(submission.signal_semaphores.indices(), vec![1]);
            assert_eq!(fence, 1);
            assert_eq!(present_wait_semaphores.indices(), vec![1]);
        }
        other => panic!("unexpected action: {:?}", other),
    }
    assert_eq!(hal.phase(), FramePhase::AwaitingPresent);
    assert_eq!(hal.current_frame(), 2);
}

#[test]
fn presented_frame_finishes_well() {
    let mut hal = state(2, 2);
    hal.draw_clear_frame(FrameEvent::Start);
    hal.draw_clear_frame(FrameEvent::ImageAcquired(1));
    assert_eq!(
        hal.draw_clear_frame(FrameEvent::Presented),
        Some(FrameAction::Finish(Ok(())))
    );
    assert_eq!(hal.phase(), FramePhase::Idle);
    assert_eq!(hal.current_frame(), 1);
}

#[test]
fn missing_image_ends_the_frame_with_its_error() {
    let mut hal = state(2, 2);
    hal.draw_clear_frame(FrameEvent::Start);
    assert_eq!(
        hal.draw_clear_frame(FrameEvent::ImageNotAcquired),
        Some(FrameAction::Finish(Err(RenderError::ImageNotAcquired)))
    );
    assert_eq!(hal.phase(), FramePhase::Idle);
}

#[test]
fn slot_moves_on_even_when_the_frame_fails() {
    let mut hal = state(3, 3);
    hal.draw_clear_frame(FrameEvent::Start);
    hal.draw_clear_frame(FrameEvent::ImageNotAcquired);
    assert_eq!(hal.current_frame(), 1);
    assert_eq!(
        hal.draw_clear_frame(FrameEvent::Start),
        Some(FrameAction::AcquireImage { timeout_ns: u64::MAX, signal: 1 })
    );
    assert_eq!(hal.current_frame(), 2);
}

#[test]
fn failed_presentation_ends_the_frame_with_its_error() {
    let mut hal = state(2, 2);
    hal.draw_clear_frame(FrameEvent::Start);
    hal.draw_clear_frame(FrameEvent::ImageAcquired(0));
    assert_eq!(
        hal.draw_clear_frame(FrameEvent::NotPresented),
        Some(FrameAction::Finish(Err(RenderError::NotPresented)))
    );
    assert_eq!(hal.phase(), FramePhase::Idle);
    assert_eq!(hal.current_frame(), 1);
}

#[test]
fn slots_go_round_the_frames_in_flight() {
    let mut hal = state(3, 3);
    let mut slots = Vec::new();
    for _ in 0..7 {
        slots.push(hal.current_frame());
        draw_whole_frame(&mut hal, 0);
    }
    assert_eq!(slots, vec![0, 1, 2, 0, 1, 2, 0]);
    assert_eq!(hal.current_frame(), 1);
}

#[test]
fn slot_is_back_after_as_many_frames_as_are_in_flight() {
    let mut hal = state(4, 4);
    draw_whole_frame(&mut hal, 3);
    let before = hal.current_frame();
    for _ in 0..4 {
        draw_whole_frame(&mut hal, 1);
    }
    assert_eq!(hal.current_frame(), before);
}

#[test]
fn single_frame_in_flight_always_uses_slot_zero() {
    let mut hal = state(1, 2);
    for _ in 0..3 {
        assert_eq!(
            hal.draw_clear_frame(FrameEvent::Start),
            Some(FrameAction::AcquireImage { timeout_ns: u64::MAX, signal: 0 })
        );
        assert_eq!(hal.current_frame(), 0);
        assert!(hal.admits(FrameEvent::ImageAcquired(0)));
        assert!(!hal.admits(FrameEvent::ImageAcquired(1)));
        hal.draw_clear_frame(FrameEvent::ImageAcquired(0));
        hal.draw_clear_frame(FrameEvent::Presented);
    }
}

#[test]
fn slot_counts_started_frames_whatever_else_happens() {
    let mut hal = state(3, 3);
    let events = vec![
        FrameEvent::Presented,
        FrameEvent::Start,
        FrameEvent::Start,
        FrameEvent::ImageNotAcquired,
        FrameEvent::ImageNotAcquired,
        FrameEvent::Start,
        FrameEvent::ImageAcquired(2),
        FrameEvent::ImageAcquired(1),
        FrameEvent::NotPresented,
        FrameEvent::Start,
        FrameEvent::ImageAcquired(0),
        FrameEvent::Start,
        FrameEvent::Presented,
        FrameEvent::Start,
    ];
    let mut started = 0;
    for event in events {
        assert!(hal.admits(event));
        if hal.phase() == FramePhase::Idle && event == FrameEvent::Start {
            started += 1;
        }
        hal.draw_clear_frame(event);
        assert_eq!(hal.current_frame(), started % 3);
    }
    assert_eq!(started, 4);
    assert_eq!(hal.current_frame(), 1);
}

#[test]
fn counts_stay_as_they_were_made() {
    let mut hal = state(2, 3);
    for _ in 0..5 {
        draw_whole_frame(&mut hal, 1);
        assert_eq!(hal.frames_in_flight(), 2);
        assert_eq!(hal.in_flight_fences(), 2);
        assert_eq!(hal.render_finished_semaphores(), 2);
        assert_eq!(hal.image_available_semaphores(), 2);
        assert_eq!(hal.command_buffers(), 2);
        assert_eq!(hal.framebuffers(), 3);
        assert!(hal.current_frame() < 2);
    }
}

#[test]
fn events_out_of_turn_change_nothing() {
    let mut hal = state(2, 2);
    assert_eq!(hal.draw_clear_frame(FrameEvent::Presented), None);
    assert_eq!(hal.draw_clear_frame(FrameEvent::NotPresented), None);
    assert_eq!(hal.draw_clear_frame(FrameEvent::ImageAcquired(0)), None);
    assert_eq!(hal.draw_clear_frame(FrameEvent::ImageNotAcquired), None);
    assert_eq!(hal.phase(), FramePhase::Idle);
    assert_eq!(hal.current_frame(), 0);

    hal.draw_clear_frame(FrameEvent::Start);
    assert_eq!(hal.draw_clear_frame(FrameEvent::Start), None);
    assert_eq!(hal.draw_clear_frame(FrameEvent::Presented), None);
    assert_eq!(hal.phase(), FramePhase::AwaitingImage { slot: 0 });
    assert_eq!(hal.current_frame(), 1);

    hal.draw_clear_frame(FrameEvent::ImageAcquired(1));
    assert_eq!(hal.draw_clear_frame(FrameEvent::Start), None);
    assert!(hal.admits(FrameEvent::ImageAcquired(7)));
    assert_eq!(hal.draw_clear_frame(FrameEvent::ImageAcquired(7)), None);
    assert_eq!(hal.draw_clear_frame(FrameEvent::ImageNotAcquired), None);
    assert_eq!(hal.phase(), FramePhase::AwaitingPresent);
    assert_eq!(hal.current_frame(), 1);
}

#[test]
fn no_state_without_a_frame_in_flight() {
    assert_eq!(HalState::new(0, 0).err(), Some(SetupError::NoFrameInFlight));
    assert_eq!(HalState::new(0, 2).err(), Some(SetupError::NoFrameInFlight));
    assert_eq!(HalState::new(0, usize::MAX).err(), Some(SetupError::NoFrameInFlight));
}

#[test]
fn one_frame_in_flight_is_enough_for_a_state() {
    assert!(HalState::new(1, 0).is_ok());
    assert!(HalState::new(1, 1).is_ok());
    assert!(HalState::new(usize::MAX, usize::MAX).is_ok());
}

#[test]
fn every_state_has_a_slot_below_its_frames_in_flight() {
    for frames_in_flight in 1..6 {
        let mut hal = state(frames_in_flight, frames_in_flight);
        for _ in 0..13 {
            assert!(hal.frames_in_flight() > 0);
            assert!(hal.current_frame() < hal.frames_in_flight());
            assert_eq!(hal.in_flight_fences(), hal.frames_in_flight());
            assert_eq!(hal.render_finished_semaphores(), hal.frames_in_flight());
            assert_eq!(hal.image_available_semaphores(), hal.frames_in_flight());
            assert_eq!(hal.command_buffers(), hal.frames_in_flight());
            assert!(hal.admits(FrameEvent::Start));
            draw_whole_frame(&mut hal, 0);
        }
    }
}

#[test]
fn image_needs_a_command_buffer_and_a_framebuffer() {
    let mut few_buffers = state(2, 4);
    few_buffers.draw_clear_frame(FrameEvent::Start);
    assert!(few_buffers.admits(FrameEvent::ImageAcquired(0)));
    assert!(few_buffers.admits(FrameEvent::ImageAcquired(1)));
    assert!(!few_buffers.admits(FrameEvent::ImageAcquired(2)));
    assert!(!few_buffers.admits(FrameEvent::ImageAcquired(u32::MAX)));

    let mut few_images = state(4, 2);
    few_images.draw_clear_frame(FrameEvent::Start);
    assert!(few_images.admits(FrameEvent::ImageAcquired(1)));
    assert!(!few_images.admits(FrameEvent::ImageAcquired(2)));
    assert!(!few_images.admits(FrameEvent::ImageAcquired(3)));
    assert!(few_images.admits(FrameEvent::ImageNotAcquired));
}

#[test]
fn do_the_render_draws_like_the_state_itself() {
    let mut by_state = state(2, 2);
    let mut by_function = state(2, 2);
    let events = vec![
        FrameEvent::Presented,
        FrameEvent::Start,
        FrameEvent::ImageAcquired(1),
        FrameEvent::Start,
        FrameEvent::NotPresented,
        FrameEvent::Start,
        FrameEvent::ImageNotAcquired,
    ];
    for event in events {
        assert_eq!(do_the_render(&mut by_function, event), by_state.draw_clear_frame(event));
        assert_eq!(by_function.phase(), by_state.phase());
        assert_eq!(by_function.current_frame(), by_state.current_frame());
    }
    assert_eq!(by_function.current_frame(), 0);
}
