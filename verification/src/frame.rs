//! Drawing one clear-colour frame with a fixed number of frames in flight.
//!
//! [`HalState`] is the bookkeeping of the GPU context: how many frames may be
//! in flight, how many synchronisation objects and buffers exist, and which
//! slot the next frame uses. Drawing is a small state machine. The driver
//! hands in what happened ([`FrameEvent`]) and is told what to do next
//! ([`FrameAction`]).

use crate::error::{RenderError, SetupError};
use crate::slots::SlotList;
use gfx_hal::pso::PipelineStage;
use vstd::prelude::*;

verus! {

/// How long to wait for a swapchain image, in nanoseconds: without limit.
pub const ACQUIRE_TIMEOUT_NS: u64 = 0xffff_ffff_ffff_ffff;

/// The pipeline stage in which final colour values are written, as its bit
/// in the set of pipeline stages.
pub const COLOR_ATTACHMENT_OUTPUT: u32 = 0x400;

/// `PipelineStage::COLOR_ATTACHMENT_OUTPUT` of `gfx_hal::pso`, by
/// `PipelineStage::bits`: the stage is the single flag `0x400` of the set.
#[verifier::external_body]
fn color_attachment_output() -> (bits: u32)
    ensures
        bits == COLOR_ATTACHMENT_OUTPUT,
{
    PipelineStage::COLOR_ATTACHMENT_OUTPUT.bits()
}

/// Where the drawing of the current frame stands.
#[derive(Clone, Copy, Debug, PartialEq, Eq)]
pub enum FramePhase {
    /// No frame is being drawn.
    Idle,
    /// A swapchain image was asked for; `slot` is the frame's slot.
    AwaitingImage { slot: usize },
    /// The frame was submitted and its image handed over for presentation.
    AwaitingPresent,
}

/// What the driver reports.
#[derive(Clone, Copy, Debug, PartialEq, Eq)]
pub enum FrameEvent {
    /// A new frame is to be drawn.
    Start,
    /// The swapchain handed out the image with this index.
    ImageAcquired(u32),
    /// The swapchain handed out no image.
    ImageNotAcquired,
    /// The image was presented.
    Presented,
    /// The image could not be presented.
    NotPresented,
}

/// What a queue submission consists of. Every list holds positions: of
/// command buffers, or of semaphores among those of their kind.
#[derive(Debug, PartialEq, Eq)]
pub struct Submission {
    /// The command buffers to execute.
    pub command_buffers: SlotList,
    /// The image-available semaphores to wait for.
    pub wait_semaphores: SlotList,
    /// The pipeline stage at which the wait takes place.
    pub wait_stage: u32,
    /// The render-finished semaphores to signal.
    pub signal_semaphores: SlotList,
}

/// What the driver is to do next.
#[derive(Debug, PartialEq, Eq)]
pub enum FrameAction {
    /// Acquire the next swapchain image, waiting at most `timeout_ns`, and
    /// have the image-available semaphore at `signal` signalled when the
    /// image can be used.
    AcquireImage { timeout_ns: u64, signal: usize },
    /// Record the clearing render pass into the command buffer at `target`,
    /// for the framebuffer at `target`. Submit `submission`, with the
    /// in-flight fence at `fence` to be signalled on completion. Then present
    /// the swapchain image `image` once the render-finished semaphores of
    /// `present_wait_semaphores` are signalled.
    RecordAndSubmit {
        image: u32,
        target: usize,
        submission: Submission,
        fence: usize,
        present_wait_semaphores: SlotList,
    },
    /// The frame is over, with this result.
    Finish(Result<(), RenderError>),
}

/// A submission as the sequences it holds.
pub ghost struct SubmissionView {
    pub command_buffers: Seq<usize>,
    pub wait_semaphores: Seq<usize>,
    pub wait_stage: u32,
    pub signal_semaphores: Seq<usize>,
}

/// An action as the values it holds.
pub ghost enum FrameActionView {
    AcquireImage { timeout_ns: u64, signal: usize },
    RecordAndSubmit {
        image: u32,
        target: usize,
        submission: SubmissionView,
        fence: usize,
        present_wait_semaphores: Seq<usize>,
    },
    Finish(Result<(), RenderError>),
}

impl View for Submission {
    type V = SubmissionView;

    open spec fn view(&self) -> SubmissionView {
        SubmissionView {
            command_buffers: self.command_buffers@,
            wait_semaphores: self.wait_semaphores@,
            wait_stage: self.wait_stage,
            signal_semaphores: self.signal_semaphores@,
        }
    }
}

impl View for FrameAction {
    type V = FrameActionView;

    open spec fn view(&self) -> FrameActionView {
        match *self {
            FrameAction::AcquireImage { timeout_ns, signal } => FrameActionView::AcquireImage {
                timeout_ns,
                signal,
            },
            FrameAction::RecordAndSubmit {
                image,
                target,
                submission,
                fence,
                present_wait_semaphores,
            } => FrameActionView::RecordAndSubmit {
                image,
                target,
                submission: submission@,
                fence,
                present_wait_semaphores: present_wait_semaphores@,
            },
            FrameAction::Finish(result) => FrameActionView::Finish(result),
        }
    }
}

/// The slot after `current` among `frames_in_flight` slots, going round.
pub open spec fn next_frame(current: nat, frames_in_flight: nat) -> nat {
    (current + 1) % frames_in_flight
}

/// The bookkeeping of the GPU context as plain numbers.
pub ghost struct HalStateView {
    pub current_frame: nat,
    pub frames_in_flight: nat,
    pub in_flight_fences: nat,
    pub render_finished_semaphores: nat,
    pub image_available_semaphores: nat,
    pub command_buffers: nat,
    pub framebuffers: nat,
    pub phase: FramePhase,
}

impl HalStateView {
    /// At least one frame may be in flight. There is one fence, one
    /// semaphore of each kind and one command buffer per frame in flight, and
    /// the current slot and every slot in use is one of those frames. All
    /// counts fit a machine word.
    pub open spec fn wf(self) -> bool {
        &&& 0 < self.frames_in_flight <= usize::MAX
        &&& self.framebuffers <= usize::MAX
        &&& self.in_flight_fences == self.frames_in_flight
        &&& self.render_finished_semaphores == self.frames_in_flight
        &&& self.image_available_semaphores == self.frames_in_flight
        &&& self.command_buffers == self.frames_in_flight
        &&& self.current_frame < self.frames_in_flight
        &&& self.phase matches FramePhase::AwaitingImage { slot } ==> slot < self.frames_in_flight
    }

    /// Whether `event` is what the current phase waits for.
    pub open spec fn accepts(self, event: FrameEvent) -> bool {
        match self.phase {
            FramePhase::Idle => event is Start,
            FramePhase::AwaitingImage { .. } => event is ImageAcquired || event is ImageNotAcquired,
            FramePhase::AwaitingPresent => event is Presented || event is NotPresented,
        }
    }

    /// Whether `event` can be handled: an acquired image needs a command
    /// buffer and a framebuffer of its own.
    pub open spec fn admits(self, event: FrameEvent) -> bool {
        match (self.phase, event) {
            (FramePhase::AwaitingImage { .. }, FrameEvent::ImageAcquired(image)) => {
                image < self.command_buffers && image < self.framebuffers
            },
            _ => true,
        }
    }

    /// The state after `event`. An event that the phase does not wait for
    /// changes nothing.
    pub open spec fn after(self, event: FrameEvent) -> HalStateView {
        match (self.phase, event) {
            (FramePhase::Idle, FrameEvent::Start) => HalStateView {
                current_frame: next_frame(self.current_frame, self.frames_in_flight),
                phase: FramePhase::AwaitingImage { slot: self.current_frame as usize },
                ..self
            },
            (FramePhase::AwaitingImage { .. }, FrameEvent::ImageAcquired(_)) => HalStateView {
                phase: FramePhase::AwaitingPresent,
                ..self
            },
            (FramePhase::AwaitingImage { .. }, FrameEvent::ImageNotAcquired) => HalStateView {
                phase: FramePhase::Idle,
                ..self
            },
            (FramePhase::AwaitingPresent, FrameEvent::Presented) => HalStateView {
                phase: FramePhase::Idle,
                ..self
            },
            (FramePhase::AwaitingPresent, FrameEvent::NotPresented) => HalStateView {
                phase: FramePhase::Idle,
                ..self
            },
            _ => self,
        }
    }

    /// What the driver is told to do on `event`; nothing for an event that
    /// the phase does not wait for.
    pub open spec fn action(self, event: FrameEvent) -> Option<FrameActionView> {
        match (self.phase, event) {
            (FramePhase::Idle, FrameEvent::Start) => Some(
                FrameActionView::AcquireImage {
                    timeout_ns: ACQUIRE_TIMEOUT_NS,
                    signal: self.current_frame as usize,
                },
            ),
            (FramePhase::AwaitingImage { slot }, FrameEvent::ImageAcquired(image)) => Some(
                FrameActionView::RecordAndSubmit {
                    image,
                    target: image as usize,
                    submission: SubmissionView {
                        command_buffers: seq![image as usize],
                        wait_semaphores: seq![slot],
                        wait_stage: COLOR_ATTACHMENT_OUTPUT,
                        signal_semaphores: seq![slot],
                    },
                    fence: slot,
                    present_wait_semaphores: seq![slot],
                },
            ),
            (FramePhase::AwaitingImage { .. }, FrameEvent::ImageNotAcquired) => Some(
                FrameActionView::Finish(Err(RenderError::ImageNotAcquired)),
            ),
            (FramePhase::AwaitingPresent, FrameEvent::Presented) => Some(
                FrameActionView::Finish(Ok(())),
            ),
            (FramePhase::AwaitingPresent, FrameEvent::NotPresented) => Some(
                FrameActionView::Finish(Err(RenderError::NotPresented)),
            ),
            _ => None,
        }
    }
}

/// The bookkeeping of the GPU context.
pub struct HalState {
    current_frame: usize,
    frames_in_flight: usize,
    in_flight_fences: usize,
    render_finished_semaphores: usize,
    image_available_semaphores: usize,
    command_buffers: usize,
    framebuffers: usize,
    phase: FramePhase,
}

impl View for HalState {
    type V = HalStateView;

    closed spec fn view(&self) -> HalStateView {
        HalStateView {
            current_frame: self.current_frame as nat,
            frames_in_flight: self.frames_in_flight as nat,
            in_flight_fences: self.in_flight_fences as nat,
            render_finished_semaphores: self.render_finished_semaphores as nat,
            image_available_semaphores: self.image_available_semaphores as nat,
            command_buffers: self.command_buffers as nat,
            framebuffers: self.framebuffers as nat,
            phase: self.phase,
        }
    }
}

impl HalState {
    #[verifier::type_invariant]
    spec fn inv(self) -> bool {
        self@.wf()
    }

    /// The state for `frames_in_flight` frames in flight and a swapchain of
    /// `framebuffers` images: one fence, one semaphore of each kind and one
    /// command buffer per frame in flight, the first slot up next, no frame
    /// being drawn.
    ///
    /// Fails with `NoFrameInFlight` exactly when `frames_in_flight` is zero:
    /// a state needs a slot for its frames to take turns in.
    pub fn new(frames_in_flight: usize, framebuffers: usize) -> (made: Result<HalState, SetupError>)
        ensures
            made is Ok <==> frames_in_flight > 0,
            match made {
                Ok(state) => {
                    &&& state@ == (HalStateView {
                        current_frame: 0,
                        frames_in_flight: frames_in_flight as nat,
                        in_flight_fences: frames_in_flight as nat,
                        render_finished_semaphores: frames_in_flight as nat,
                        image_available_semaphores: frames_in_flight as nat,
                        command_buffers: frames_in_flight as nat,
                        framebuffers: framebuffers as nat,
                        phase: FramePhase::Idle,
                    })
                    &&& state@.wf()
                },
                Err(error) => error == SetupError::NoFrameInFlight,
            },
    {
        if frames_in_flight == 0 {
            return Err(SetupError::NoFrameInFlight);
        }
        Ok(
            HalState {
                current_frame: 0,
                frames_in_flight,
                in_flight_fences: frames_in_flight,
                render_finished_semaphores: frames_in_flight,
                image_available_semaphores: frames_in_flight,
                command_buffers: frames_in_flight,
                framebuffers,
                phase: FramePhase::Idle,
            },
        )
    }

    /// The slot that the next frame will use: one of the frames in flight.
    pub fn current_frame(&self) -> (slot: usize)
        ensures
            slot == self@.current_frame,
            slot < self@.frames_in_flight,
    {
        proof {
            use_type_invariant(self);
        }
        self.current_frame
    }

    /// How many frames may be in flight: at least one.
    pub fn frames_in_flight(&self) -> (count: usize)
        ensures
            count == self@.frames_in_flight,
            count > 0,
    {
        proof {
            use_type_invariant(self);
        }
        self.frames_in_flight
    }

    /// How many in-flight fences there are.
    pub fn in_flight_fences(&self) -> (count: usize)
        ensures
            count == self@.in_flight_fences,
            count == self@.frames_in_flight,
    {
        proof {
            use_type_invariant(self);
        }
        self.in_flight_fences
    }

    /// How many render-finished semaphores there are.
    pub fn render_finished_semaphores(&self) -> (count: usize)
        ensures
            count == self@.render_finished_semaphores,
            count == self@.frames_in_flight,
    {
        proof {
            use_type_invariant(self);
        }
        self.render_finished_semaphores
    }

    /// How many image-available semaphores there are.
    pub fn image_available_semaphores(&self) -> (count: usize)
        ensures
            count == self@.image_available_semaphores,
            count == self@.frames_in_flight,
    {
        proof {
            use_type_invariant(self);
        }
        self.image_available_semaphores
    }

    /// How many command buffers there are.
    pub fn command_buffers(&self) -> (count: usize)
        ensures
            count == self@.command_buffers,
            count == self@.frames_in_flight,
    {
        proof {
            use_type_invariant(self);
        }
        self.command_buffers
    }

    /// How many framebuffers there are: one per swapchain image.
    pub fn framebuffers(&self) -> (count: usize)
        ensures
            count == self@.framebuffers,
    {
        self.framebuffers
    }

    /// Where the drawing of the current frame stands.
    pub fn phase(&self) -> (phase: FramePhase)
        ensures
            phase == self@.phase,
    {
        self.phase
    }

    /// Whether `event` can be handled in the current state.
    pub fn admits(&self, event: FrameEvent) -> (admitted: bool)
        ensures
            admitted == self@.admits(event),
    {
        match (self.phase, event) {
            (FramePhase::AwaitingImage { .. }, FrameEvent::ImageAcquired(image)) => {
                let target = image as usize;
                target < self.command_buffers && target < self.framebuffers
            },
            _ => true,
        }
    }

    /// Takes the drawing of a clear-colour frame one step further.
    ///
    /// The frame's slot is the current one, and the next slot becomes
    /// current as soon as the frame starts, whatever happens to the frame
    /// afterwards. The image-available semaphore of the slot is signalled by
    /// the acquisition and waited for by the submission. The render-finished
    /// semaphore of the slot is signalled by the submission and waited for by
    /// the presentation. Any failure ends the frame.
    ///
    /// Returns `None`, and changes nothing, for an event that the current
    /// phase does not wait for.
    pub fn draw_clear_frame(&mut self, event: FrameEvent) -> (action: Option<FrameAction>)
        requires
            old(self)@.admits(event),
        ensures
            final(self)@ == old(self)@.after(event),
            final(self)@.wf(),
            action is Some <==> old(self)@.accepts(event),
            match action {
                Some(a) => old(self)@.action(event) == Some(a@),
                None => old(self)@.action(event) is None,
            },
    {
        proof {
            use_type_invariant(&*self);
        }
        match (self.phase, event) {
            (FramePhase::Idle, FrameEvent::Start) => {
                let slot = self.current_frame;
                self.current_frame = (self.current_frame + 1) % self.frames_in_flight;
                self.phase = FramePhase::AwaitingImage { slot };
                Some(FrameAction::AcquireImage { timeout_ns: ACQUIRE_TIMEOUT_NS, signal: slot })
            },
            (FramePhase::AwaitingImage { slot }, FrameEvent::ImageAcquired(image)) => {
                let target = image as usize;
                self.phase = FramePhase::AwaitingPresent;
                let submission = Submission {
                    command_buffers: SlotList::single(target),
                    wait_semaphores: SlotList::single(slot),
                    wait_stage: color_attachment_output(),
                    signal_semaphores: SlotList::single(slot),
                };
                Some(
                    FrameAction::RecordAndSubmit {
                        image,
                        target,
                        submission,
                        fence: slot,
                        present_wait_semaphores: SlotList::single(slot),
                    },
                )
            },
            (FramePhase::AwaitingImage { .. }, FrameEvent::ImageNotAcquired) => {
                self.phase = FramePhase::Idle;
                Some(FrameAction::Finish(Err(RenderError::ImageNotAcquired)))
            },
            (FramePhase::AwaitingPresent, FrameEvent::Presented) => {
                self.phase = FramePhase::Idle;
                Some(FrameAction::Finish(Ok(())))
            },
            (FramePhase::AwaitingPresent, FrameEvent::NotPresented) => {
                self.phase = FramePhase::Idle;
                Some(FrameAction::Finish(Err(RenderError::NotPresented)))
            },
            _ => None,
        }
    }
}

/// The slot that is current after `frames` more frames were started.
pub open spec fn slot_after(current: nat, frames_in_flight: nat, frames: nat) -> nat
    decreases frames,
{
    if frames == 0 {
        current
    } else {
        next_frame(slot_after(current, frames_in_flight, (frames - 1) as nat), frames_in_flight)
    }
}

/// Every step keeps the state well formed: the counts of fences, semaphores
/// and command buffers stay equal to the number of frames in flight, and the
/// current slot stays one of them.
pub proof fn lemma_step_keeps_wf(state: HalStateView, event: FrameEvent)
    requires
        state.wf(),
        state.admits(event),
    ensures
        state.after(event).wf(),
        state.after(event).frames_in_flight == state.frames_in_flight,
        state.after(event).in_flight_fences == state.in_flight_fences,
        state.after(event).render_finished_semaphores == state.render_finished_semaphores,
        state.after(event).image_available_semaphores == state.image_available_semaphores,
        state.after(event).command_buffers == state.command_buffers,
        state.after(event).framebuffers == state.framebuffers,
{
}

/// The current slot goes round the frames in flight: after `frames` frames
/// it has moved on by `frames` modulo their number, and after as many frames
/// as may be in flight it is back where it was.
pub proof fn lemma_slots_go_round(current: nat, frames_in_flight: nat, frames: nat)
    requires
        frames_in_flight > 0,
        current < frames_in_flight,
    ensures
        slot_after(current, frames_in_flight, frames) == (current + frames) % frames_in_flight,
        slot_after(current, frames_in_flight, frames) < frames_in_flight,
        frames == frames_in_flight ==> slot_after(current, frames_in_flight, frames) == current,
    decreases frames,
{
    let n = frames_in_flight as int;
    if frames == 0 {
        assert(current as int % n == current) by (nonlinear_arith)
            requires
                0 <= current < n,
        ;
    } else {
        let before = (frames - 1) as nat;
        lemma_slots_go_round(current, frames_in_flight, before);
        let earlier = (current + before) as int;
        assert(((earlier % n) + 1) % n == (earlier + 1) % n) by (nonlinear_arith)
            requires
                n > 0,
        ;
        assert(0 <= (earlier + 1) % n < n) by (nonlinear_arith)
            requires
                n > 0,
        ;
        if frames == frames_in_flight {
            assert((current + n) % n == current) by (nonlinear_arith)
                requires
                    0 <= current < n,
            ;
        }
    }
}

/// A frame that is started, gets its image and is presented leaves the state
/// ready for the next frame, with the next slot current. The semaphore that
/// the acquisition signals is the one that the submission waits for, and the
/// semaphore that the submission signals is the one that the presentation
/// waits for: both belong to the frame's slot.
pub proof fn lemma_whole_frame(state: HalStateView, image: u32)
    requires
        state.wf(),
        state.phase is Idle,
        image < state.command_buffers,
        image < state.framebuffers,
    ensures
        ({
            let acquiring = state.after(FrameEvent::Start);
            let presenting = acquiring.after(FrameEvent::ImageAcquired(image));
            let done = presenting.after(FrameEvent::Presented);
            &&& state.action(FrameEvent::Start) matches Some(
                FrameActionView::AcquireImage { signal, .. },
            )
            &&& acquiring.action(FrameEvent::ImageAcquired(image)) matches Some(
                FrameActionView::RecordAndSubmit { submission, fence, present_wait_semaphores, .. },
            )
            &&& signal == state.current_frame
            &&& fence == signal
            &&& submission.wait_semaphores == seq![signal]
            &&& submission.signal_semaphores == present_wait_semaphores
            &&& presenting.action(FrameEvent::Presented) == Some(FrameActionView::Finish(Ok(())))
            &&& done == HalStateView {
                current_frame: next_frame(state.current_frame, state.frames_in_flight),
                ..state
            }
        }),
{
}

/// The state after all of `events`, taken in order.
pub open spec fn after_all(state: HalStateView, events: Seq<FrameEvent>) -> HalStateView
    decreases events.len(),
{
    if events.len() == 0 {
        state
    } else {
        after_all(state, events.drop_last()).after(events.last())
    }
}

/// How many frames were started in the course of `events`: the `Start`
/// events that met no frame being drawn.
pub open spec fn frames_started(state: HalStateView, events: Seq<FrameEvent>) -> nat
    decreases events.len(),
{
    if events.len() == 0 {
        0
    } else {
        let earlier = events.drop_last();
        let started: nat = if after_all(state, earlier).phase is Idle && events.last() is Start {
            1
        } else {
            0
        };
        frames_started(state, earlier) + started
    }
}

/// Whatever the events, the state stays well formed and the current slot
/// counts the frames that were started, modulo the number of frames in
/// flight. Events out of turn, failed frames and finished frames make no
/// difference to it.
pub proof fn lemma_slot_counts_frames(state: HalStateView, events: Seq<FrameEvent>)
    requires
        state.wf(),
    ensures
        after_all(state, events).wf(),
        after_all(state, events).frames_in_flight == state.frames_in_flight,
        after_all(state, events).current_frame == slot_after(
            state.current_frame,
            state.frames_in_flight,
            frames_started(state, events),
        ),
        after_all(state, events).current_frame == (state.current_frame + frames_started(
            state,
            events,
        )) % state.frames_in_flight,
    decreases events.len(),
{
    if events.len() > 0 {
        lemma_slot_counts_frames(state, events.drop_last());
    }
    lemma_slots_go_round(
        state.current_frame,
        state.frames_in_flight,
        frames_started(state, events),
    );
}

} // verus!
