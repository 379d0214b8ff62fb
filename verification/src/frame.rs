//! The frame loop.
//!
//! One redraw call is a short exchange between the program and the loop.
//! The program reports what happened as an `Event`; the loop answers with the
//! `Action` to perform next. A call opens with `Event::Begin` and is over when
//! the loop answers with `Action::Store`, `Action::Pace` or `Action::Halt`.
//!
//! Between calls the loop is either idle or waiting to rebuild a swapchain
//! that no longer fits its surface. It holds at most one completion token
//! for the work submitted so far.

use vstd::prelude::*;
use crate::commands::{
    create_dynamicstate, frame_commands, full_viewport, record_commands, Command, Viewport,
};
use crate::device::{
    choose_physical, first_discrete, first_usable, plan_device, DeviceKind, DevicePlan,
    QueueFamily, QUEUE_PRIORITY_PERCENT,
};
use crate::fault::{AcquireFault, Fatal, RebuildFault, SubmitFault};
use crate::swapchain::{Capabilities, Extent};

verus! {

/// What the program knows of its device and surface once it has started.
#[derive(Debug, PartialEq, Eq)]
pub struct Renderer {
    /// Position of the chosen physical device among those of the instance.
    pub physical: usize,
    /// How the logical device was created.
    pub device: DevicePlan,
    /// What the surface supported when it was last asked.
    pub capabilities: Capabilities,
}

/// The handle that stands for all work submitted so far.
#[derive(Clone, Copy, Debug, PartialEq, Eq, Structural)]
pub enum Token {
    /// Nothing is pending: the token is complete from the start.
    Completed,
    /// Signalled once the last submitted frame has been executed.
    InFlight,
}

/// What was built for the current swapchain.
#[derive(Clone, Copy, Debug, PartialEq, Eq, Structural)]
pub struct Other {
    /// Number of images in the swapchain.
    pub images: usize,
    /// Number of framebuffers, one for each image.
    pub framebuffers: usize,
    /// Size that the swapchain was last built with.
    pub extent: Extent,
    /// Viewport that frames are drawn with.
    pub dynamicstate: Viewport,
    /// The token of the previous frame; `None` only while a submission that
    /// consumed it is under way.
    pub previous_frame_end: Option<Token>,
}

/// A swapchain as the driver handed it over, with the framebuffers built
/// for it.
#[derive(Clone, Copy, Debug, PartialEq, Eq, Structural)]
pub struct Chain {
    pub images: usize,
    pub framebuffers: usize,
}

/// The two states of the loop between redraw calls.
#[derive(Clone, Copy, Debug, PartialEq, Eq, Structural)]
pub enum LoopState {
    /// The swapchain fits the surface.
    Idle,
    /// The surface was reported stale; the swapchain has to be rebuilt.
    NeedsResize,
}

/// How far the current redraw call has come.
#[derive(Clone, Copy, Debug, PartialEq, Eq, Structural)]
pub enum Phase {
    /// No call is under way.
    Ready,
    /// Finished work is being released.
    Reclaiming,
    /// The surface is being asked for its capabilities.
    Surveying,
    /// The swapchain is being rebuilt with these dimensions.
    Rebuilding { dimensions: Extent },
    /// An image is being acquired.
    Acquiring,
    /// The frame for this image is being submitted.
    Submitting { image: usize },
}

/// What the program reports to the loop.
#[derive(Debug)]
pub enum Event {
    /// A redraw call starts.
    Begin,
    /// Finished work held by the token has been released.
    Reclaimed,
    /// The surface reported these capabilities.
    Surveyed(Capabilities),
    /// The swapchain was rebuilt, or the driver refused.
    Rebuilt(Result<Chain, RebuildFault>),
    /// The driver handed out the image with this index, or refused.
    Acquired(Result<usize, AcquireFault>),
    /// The frame was submitted and flushed, or the driver refused.
    Submitted(Result<(), SubmitFault>),
}

/// What the loop asks the program to do next.
#[derive(Clone, Copy, Debug, PartialEq, Eq, Structural)]
pub enum Action {
    /// Release what the held token has finished with, without blocking, and
    /// keep the token. Report `Event::Reclaimed`.
    Reclaim,
    /// Ask the surface for its capabilities. Report `Event::Surveyed`.
    Survey,
    /// Rebuild the swapchain with these dimensions and, where that works,
    /// one framebuffer for each image. Report `Event::Rebuilt`.
    Rebuild { dimensions: Extent },
    /// Acquire the next image, waiting as long as it takes. Report
    /// `Event::Acquired`.
    Acquire,
    /// Record the frame for this image, wait on the held token and the
    /// acquisition, execute, present the image, signal a fence and flush.
    /// Report `Event::Submitted`.
    Submit { image: usize },
    /// The call is over. Hold `token` as the new token: the fence of the
    /// submission for `Token::InFlight`, a fresh complete one for
    /// `Token::Completed`. Log the diagnostic if there is one, then wait
    /// `pace_millis` milliseconds.
    Store { token: Token, diagnostic: Option<SubmitFault>, pace_millis: u64 },
    /// The call is over and nothing was drawn. Keep the token that is held
    /// and wait `millis` milliseconds.
    Pace { millis: u64 },
    /// Report the condition and terminate.
    Halt(Fatal),
}

/// The frame loop as contracts see it.
pub struct Driver {
    pub renderer: Renderer,
    pub other: Other,
    /// The surface was reported stale and the swapchain not yet rebuilt.
    pub needs_resize: bool,
    pub phase: Phase,
    /// Milliseconds to wait at the end of each call.
    pub pace_millis: u64,
}

/// The frame loop of a renderer.
pub struct Runtime {
    pub renderer: Renderer,
    other: Other,
    recreate: bool,
    phase: Phase,
    pace_millis: u64,
}

impl Other {
    /// There is one framebuffer for each image, and the viewport covers the
    /// size that the swapchain was built with.
    pub open spec fn consistent(self) -> bool {
        &&& self.framebuffers == self.images
        &&& self.dynamicstate == full_viewport(self.extent)
    }
}

impl Driver {
    /// The state of the loop as seen between calls.
    pub open spec fn state(self) -> LoopState {
        if self.needs_resize {
            LoopState::NeedsResize
        } else {
            LoopState::Idle
        }
    }

    /// What every frame loop satisfies from its creation on.
    pub open spec fn well_formed(self) -> bool {
        &&& self.other.consistent()
        &&& self.other.previous_frame_end is None <==> self.phase is Submitting
        &&& self.phase matches Phase::Submitting { image } ==> image < self.other.framebuffers
        &&& self.phase is Surveying || self.phase is Rebuilding ==> self.needs_resize
        &&& self.phase is Acquiring || self.phase is Submitting ==> !self.needs_resize
    }
}

impl View for Runtime {
    type V = Driver;

    closed spec fn view(&self) -> Driver {
        Driver {
            renderer: self.renderer,
            other: self.other,
            needs_resize: self.recreate,
            phase: self.phase,
            pace_millis: self.pace_millis,
        }
    }
}

/// The size of the surface as the renderer last saw it.
pub open spec fn surface_extent(renderer: Renderer) -> Option<Extent> {
    renderer.capabilities.current_extent
}

/// What is held for a swapchain of `images` images with `framebuffers`
/// framebuffers on the renderer's surface.
pub open spec fn other_for(renderer: Renderer, images: usize, framebuffers: usize) -> Result<
    Other,
    Fatal,
> {
    match surface_extent(renderer) {
        None => Err(Fatal::NoExtent),
        Some(extent) => if images != framebuffers {
            Err(Fatal::FramebufferMismatch)
        } else {
            Ok(
                Other {
                    images,
                    framebuffers,
                    extent,
                    dynamicstate: full_viewport(extent),
                    previous_frame_end: Some(Token::Completed),
                },
            )
        },
    }
}

/// The frame loop right after the program has started.
pub open spec fn fresh(
    renderer: Renderer,
    images: usize,
    framebuffers: usize,
    pace_millis: u64,
) -> Result<Driver, Fatal> {
    match other_for(renderer, images, framebuffers) {
        Err(fatal) => Err(fatal),
        Ok(other) => Ok(
            Driver { renderer, other, needs_resize: false, phase: Phase::Ready, pace_millis },
        ),
    }
}

/// What a rebuild attempt with the given outcome does to the loop, and what
/// `recreate` returns for it.
pub open spec fn rebuilt(driver: Driver, outcome: Result<Chain, RebuildFault>) -> (
    Driver,
    Result<bool, Fatal>,
) {
    match driver.phase {
        Phase::Rebuilding { dimensions } => match outcome {
            Ok(chain) => if chain.images != chain.framebuffers {
                (driver, Err(Fatal::FramebufferMismatch))
            } else {
                (
                    Driver {
                        other: Other {
                            images: chain.images,
                            framebuffers: chain.framebuffers,
                            extent: dimensions,
                            dynamicstate: full_viewport(dimensions),
                            previous_frame_end: driver.other.previous_frame_end,
                        },
                        ..driver
                    },
                    Ok(true),
                )
            },
            Err(RebuildFault::UnsupportedDimensions) => (driver, Ok(false)),
            Err(fault) => (driver, Err(Fatal::Rebuild(fault))),
        },
        _ => (driver, Err(Fatal::OutOfTurn)),
    }
}

/// The loop after a report of the capabilities, with its answer.
pub open spec fn after_survey(driver: Driver, capabilities: Capabilities) -> (Driver, Action) {
    match capabilities.current_extent {
        None => (driver, Action::Halt(Fatal::NoExtent)),
        Some(dimensions) => (
            Driver {
                renderer: Renderer { capabilities, ..driver.renderer },
                phase: Phase::Rebuilding { dimensions },
                ..driver
            },
            Action::Rebuild { dimensions },
        ),
    }
}

/// The loop after a report of a rebuild attempt, with its answer.
pub open spec fn after_rebuild(driver: Driver, outcome: Result<Chain, RebuildFault>) -> (
    Driver,
    Action,
) {
    match rebuilt(driver, outcome).1 {
        Ok(true) => (
            Driver { needs_resize: false, phase: Phase::Acquiring, ..rebuilt(driver, outcome).0 },
            Action::Acquire,
        ),
        Ok(false) => (
            Driver { phase: Phase::Ready, ..driver },
            Action::Pace { millis: driver.pace_millis },
        ),
        Err(fatal) => (driver, Action::Halt(fatal)),
    }
}

/// The loop after a report of an acquisition, with its answer.
pub open spec fn after_acquire(driver: Driver, outcome: Result<usize, AcquireFault>) -> (
    Driver,
    Action,
) {
    match outcome {
        Ok(image) => if image < driver.other.framebuffers {
            (
                Driver {
                    other: Other { previous_frame_end: None, ..driver.other },
                    phase: Phase::Submitting { image },
                    ..driver
                },
                Action::Submit { image },
            )
        } else {
            (driver, Action::Halt(Fatal::ImageOutOfRange))
        },
        Err(AcquireFault::OutOfDate) => (
            Driver { needs_resize: true, phase: Phase::Ready, ..driver },
            Action::Pace { millis: driver.pace_millis },
        ),
        Err(fault) => (driver, Action::Halt(Fatal::Acquire(fault))),
    }
}

/// The loop after a report of a submission, with its answer.
pub open spec fn after_submit(driver: Driver, outcome: Result<(), SubmitFault>) -> (
    Driver,
    Action,
) {
    let token = if outcome is Ok {
        Token::InFlight
    } else {
        Token::Completed
    };
    let diagnostic = match outcome {
        Ok(_) => None,
        Err(SubmitFault::OutOfDate) => None,
        Err(fault) => Some(fault),
    };
    (
        Driver {
            other: Other { previous_frame_end: Some(token), ..driver.other },
            needs_resize: driver.needs_resize || outcome == Err::<(), SubmitFault>(
                SubmitFault::OutOfDate,
            ),
            phase: Phase::Ready,
            ..driver
        },
        Action::Store { token, diagnostic, pace_millis: driver.pace_millis },
    )
}

/// One exchange: the loop after `event`, and its answer. An event that the
/// loop is not waiting for changes nothing and is answered with a halt.
pub open spec fn step(driver: Driver, event: Event) -> (Driver, Action) {
    match (driver.phase, event) {
        (Phase::Ready, Event::Begin) => (
            Driver { phase: Phase::Reclaiming, ..driver },
            Action::Reclaim,
        ),
        (Phase::Reclaiming, Event::Reclaimed) => if driver.needs_resize {
            (Driver { phase: Phase::Surveying, ..driver }, Action::Survey)
        } else {
            (Driver { phase: Phase::Acquiring, ..driver }, Action::Acquire)
        },
        (Phase::Surveying, Event::Surveyed(capabilities)) => after_survey(driver, capabilities),
        (Phase::Rebuilding { .. }, Event::Rebuilt(outcome)) => after_rebuild(driver, outcome),
        (Phase::Acquiring, Event::Acquired(outcome)) => after_acquire(driver, outcome),
        (Phase::Submitting { .. }, Event::Submitted(outcome)) => after_submit(driver, outcome),
        _ => (driver, Action::Halt(Fatal::OutOfTurn)),
    }
}

/// The loop after a sequence of exchanges.
pub open spec fn run(driver: Driver, events: Seq<Event>) -> Driver
    decreases events.len(),
{
    if events.len() == 0 {
        driver
    } else {
        step(run(driver, events.drop_last()), events.last()).0
    }
}

/// The size of the latest successful build of the swapchain, over a loop
/// that started as `driver` and saw `events`.
pub open spec fn latest_build(driver: Driver, events: Seq<Event>) -> Extent
    decreases events.len(),
{
    if events.len() == 0 {
        driver.other.extent
    } else {
        let before = run(driver, events.drop_last());
        match (before.phase, events.last()) {
            (Phase::Rebuilding { dimensions }, Event::Rebuilt(outcome)) => {
                if rebuilt(before, outcome).1 == Ok::<bool, Fatal>(true) {
                    dimensions
                } else {
                    latest_build(driver, events.drop_last())
                }
            },
            _ => latest_build(driver, events.drop_last()),
        }
    }
}

/// Assembles what the program found out at start: the physical device, the
/// layout of the logical device, and the capabilities of the surface.
/// `families` are the queue families of the device that `choose_physical`
/// picks from `kinds`.
pub fn build_renderer(
    kinds: &Vec<DeviceKind>,
    families: &Vec<QueueFamily>,
    capabilities: Capabilities,
) -> (renderer: Result<Renderer, Fatal>)
    ensures
        kinds@.len() == 0 ==> renderer == Err::<Renderer, Fatal>(Fatal::NoDevice),
        kinds@.len() > 0 && (forall|k: int| 0 <= k < families@.len() ==> !families@[k].usable())
            ==> renderer == Err::<Renderer, Fatal>(Fatal::NoQueueFamily),
        renderer matches Ok(built) ==> {
            &&& built.capabilities == capabilities
            &&& first_usable(families@, built.device.queue_family as int)
            &&& built.device.queues == 1
            &&& built.device.priority_percent == QUEUE_PRIORITY_PERCENT
            &&& built.device.khr_swapchain
            &&& first_discrete(kinds@, built.physical as int) || (built.physical == 0
                && forall|k: int| 0 <= k < kinds@.len() ==> kinds@[k] != DeviceKind::DiscreteGpu)
        },
        renderer is Ok <==> kinds@.len() > 0 && exists|k: int|
            0 <= k < families@.len() && families@[k].usable(),
{
    let physical = match choose_physical(kinds) {
        Some(physical) => physical,
        None => {
            return Err(Fatal::NoDevice);
        },
    };
    let device = match plan_device(families) {
        Some(device) => device,
        None => {
            return Err(Fatal::NoQueueFamily);
        },
    };
    Ok(Renderer { physical, device, capabilities })
}

/// The size of the surface as the renderer last saw it; `None` where the
/// surface reports none of its own.
pub fn create_dimensions(renderer: &Renderer) -> (dimensions: Option<Extent>)
    ensures
        dimensions == surface_extent(*renderer),
{
    renderer.capabilities.current_extent
}

/// Takes stock of a first swapchain with `images` images and
/// `framebuffers` framebuffers. The viewport covers the surface, and the
/// token is complete: nothing has been submitted yet.
pub fn build_other(renderer: &Renderer, images: usize, framebuffers: usize) -> (other: Result<
    Other,
    Fatal,
>)
    ensures
        other == other_for(*renderer, images, framebuffers),
        other matches Ok(built) ==> built.consistent(),
{
    let extent = match create_dimensions(renderer) {
        Some(extent) => extent,
        None => {
            return Err(Fatal::NoExtent);
        },
    };
    if images != framebuffers {
        return Err(Fatal::FramebufferMismatch);
    }
    Ok(
        Other {
            images,
            framebuffers,
            extent,
            dynamicstate: create_dynamicstate(extent),
            previous_frame_end: Some(Token::Completed),
        },
    )
}

/// Starts the frame loop for a renderer whose first swapchain has `images`
/// images and `framebuffers` framebuffers. The loop is idle, holds a
/// complete token, and waits `pace_millis` milliseconds at the end of each
/// redraw call.
pub fn new(
    renderer: Renderer,
    images: usize,
    framebuffers: usize,
    pace_millis: u64,
) -> (runtime: Result<Runtime, Fatal>)
    ensures
        match fresh(renderer, images, framebuffers, pace_millis) {
            Ok(driver) => runtime is Ok && runtime->Ok_0@ == driver && driver.well_formed(),
            Err(fatal) => runtime is Err && runtime->Err_0 == fatal,
        },
{
    let other = match build_other(&renderer, images, framebuffers) {
        Ok(other) => other,
        Err(fatal) => {
            return Err(fatal);
        },
    };
    Ok(Runtime { renderer, other, recreate: false, phase: Phase::Ready, pace_millis })
}

impl Runtime {
    /// Tells whether the loop is idle or has a rebuild pending.
    pub fn state(&self) -> (state: LoopState)
        ensures
            state == self@.state(),
    {
        if self.recreate {
            LoopState::NeedsResize
        } else {
            LoopState::Idle
        }
    }

    /// How far the current redraw call has come.
    pub fn phase(&self) -> (phase: Phase)
        ensures
            phase == self@.phase,
    {
        self.phase
    }

    /// What is held for the current swapchain.
    pub fn other(&self) -> (other: Other)
        ensures
            other == self@.other,
    {
        self.other
    }

    /// Milliseconds that the loop waits at the end of each redraw call.
    pub fn pace_millis(&self) -> (millis: u64)
        ensures
            millis == self@.pace_millis,
    {
        self.pace_millis
    }
}

/// Records the frame for image `which`, with the viewport that is current.
/// `None` where the swapchain has no framebuffer of that index.
pub fn create_commandbuffer(runtime: &Runtime, which: usize) -> (commands: Option<Vec<Command>>)
    ensures
        which >= runtime@.other.framebuffers ==> commands is None,
        which < runtime@.other.framebuffers ==> commands is Some
            && commands->0@ == frame_commands(which, runtime@.other.dynamicstate),
{
    if which < runtime.other.framebuffers {
        Some(record_commands(which, runtime.other.dynamicstate))
    } else {
        None
    }
}

/// Takes over the outcome of the rebuild that the loop asked for. Returns
/// `Ok(true)` where a swapchain was built: the loop then holds its image and
/// framebuffer counts, and the viewport covers the dimensions it was built
/// with. Returns `Ok(false)` where the surface does not support those
/// dimensions right now. Any other outcome is fatal. Nothing changes unless
/// a swapchain was built.
pub fn recreate(runtime: &mut Runtime, outcome: Result<Chain, RebuildFault>) -> (built: Result<
    bool,
    Fatal,
>)
    ensures
        (final(runtime)@, built) == rebuilt(old(runtime)@, outcome),
        old(runtime)@.well_formed() ==> final(runtime)@.well_formed(),
{
    let dimensions = match runtime.phase {
        Phase::Rebuilding { dimensions } => dimensions,
        _ => {
            return Err(Fatal::OutOfTurn);
        },
    };
    match outcome {
        Ok(chain) => {
            if chain.images != chain.framebuffers {
                return Err(Fatal::FramebufferMismatch);
            }
            runtime.other = Other {
                images: chain.images,
                framebuffers: chain.framebuffers,
                extent: dimensions,
                dynamicstate: create_dynamicstate(dimensions),
                previous_frame_end: runtime.other.previous_frame_end,
            };
            Ok(true)
        },
        Err(RebuildFault::UnsupportedDimensions) => Ok(false),
        Err(fault) => Err(Fatal::Rebuild(fault)),
    }
}

/// Advances the redraw call by one exchange: takes what the program
/// reports and returns what it has to do next.
pub fn redraw(runtime: &mut Runtime, event: Event) -> (action: Action)
    ensures
        (final(runtime)@, action) == step(old(runtime)@, event),
        old(runtime)@.well_formed() ==> final(runtime)@.well_formed(),
{
    match event {
        Event::Begin => match runtime.phase {
            Phase::Ready => {
                runtime.phase = Phase::Reclaiming;
                Action::Reclaim
            },
            _ => Action::Halt(Fatal::OutOfTurn),
        },
        Event::Reclaimed => match runtime.phase {
            Phase::Reclaiming => {
                if runtime.recreate {
                    runtime.phase = Phase::Surveying;
                    Action::Survey
                } else {
                    runtime.phase = Phase::Acquiring;
                    Action::Acquire
                }
            },
            _ => Action::Halt(Fatal::OutOfTurn),
        },
        Event::Surveyed(capabilities) => match runtime.phase {
            Phase::Surveying => match capabilities.current_extent {
                None => Action::Halt(Fatal::NoExtent),
                Some(dimensions) => {
                    runtime.renderer.capabilities = capabilities;
                    runtime.phase = Phase::Rebuilding { dimensions };
                    Action::Rebuild { dimensions }
                },
            },
            _ => Action::Halt(Fatal::OutOfTurn),
        },
        Event::Rebuilt(outcome) => match runtime.phase {
            Phase::Rebuilding { .. } => match recreate(runtime, outcome) {
                Ok(true) => {
                    runtime.recreate = false;
                    runtime.phase = Phase::Acquiring;
                    Action::Acquire
                },
                Ok(false) => {
                    runtime.phase = Phase::Ready;
                    Action::Pace { millis: runtime.pace_millis }
                },
                Err(fatal) => Action::Halt(fatal),
            },
            _ => Action::Halt(Fatal::OutOfTurn),
        },
        Event::Acquired(outcome) => match runtime.phase {
            Phase::Acquiring => match outcome {
                Ok(image) => {
                    if image < runtime.other.framebuffers {
                        runtime.other.previous_frame_end = None;
                        runtime.phase = Phase::Submitting { image };
                        Action::Submit { image }
                    } else {
                        Action::Halt(Fatal::ImageOutOfRange)
                    }
                },
                Err(AcquireFault::OutOfDate) => {
                    runtime.recreate = true;
                    runtime.phase = Phase::Ready;
                    Action::Pace { millis: runtime.pace_millis }
                },
                Err(fault) => Action::Halt(Fatal::Acquire(fault)),
            },
            _ => Action::Halt(Fatal::OutOfTurn),
        },
        Event::Submitted(outcome) => match runtime.phase {
            Phase::Submitting { .. } => {
                let (token, diagnostic) = match outcome {
                    Ok(_) => (Token::InFlight, None),
                    Err(SubmitFault::OutOfDate) => {
                        runtime.recreate = true;
                        (Token::Completed, None)
                    },
                    Err(fault) => (Token::Completed, Some(fault)),
                };
                runtime.other.previous_frame_end = Some(token);
                runtime.phase = Phase::Ready;
                Action::Store { token, diagnostic, pace_millis: runtime.pace_millis }
            },
            _ => Action::Halt(Fatal::OutOfTurn),
        },
    }
}

} // verus!
