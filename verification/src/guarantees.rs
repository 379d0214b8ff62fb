//! What holds of the frame loop whatever the driver reports.

use vstd::prelude::*;
use crate::commands::full_viewport;
use crate::fault::{AcquireFault, Fatal, RebuildFault};
use crate::frame::{
    fresh, latest_build, rebuilt, run, step, Action, Chain, Driver, Event, LoopState, Phase,
    Renderer,
};
use crate::swapchain::{planned, Capabilities};

verus! {

/// No exchange breaks a well-formed loop.
pub proof fn step_keeps_well_formed(driver: Driver, event: Event)
    requires
        driver.well_formed(),
    ensures
        step(driver, event).0.well_formed(),
{
}

/// A well-formed loop stays well-formed over any sequence of exchanges.
pub proof fn run_keeps_well_formed(driver: Driver, events: Seq<Event>)
    requires
        driver.well_formed(),
    ensures
        run(driver, events).well_formed(),
    decreases events.len(),
{
    if events.len() > 0 {
        run_keeps_well_formed(driver, events.drop_last());
        step_keeps_well_formed(run(driver, events.drop_last()), events.last());
    }
}

/// At every moment there are as many framebuffers as swapchain images, and
/// after a rebuild that worked there are as many of both as the driver
/// handed over.
pub proof fn framebuffers_match_images(driver: Driver, events: Seq<Event>, chain: Chain)
    requires
        driver.well_formed(),
    ensures
        run(driver, events).other.framebuffers == run(driver, events).other.images,
        step(run(driver, events), Event::Rebuilt(Ok(chain))).1 == Action::Acquire ==> {
            let after = step(run(driver, events), Event::Rebuilt(Ok(chain))).0;
            after.other.images == chain.images && after.other.framebuffers == chain.images
        },
{
    run_keeps_well_formed(driver, events);
}

/// Once an acquisition has found the surface stale, the call ends with a
/// rebuild pending, and the next call rebuilds before it acquires: it
/// reclaims, asks the surface, and requests one rebuild. Only a rebuild that
/// worked is followed by an acquisition; no outcome is followed by a second
/// rebuild.
pub proof fn stale_acquisition_rebuilds_once(
    driver: Driver,
    capabilities: Capabilities,
    outcome: Result<Chain, RebuildFault>,
)
    requires
        driver.well_formed(),
        driver.phase is Acquiring,
    ensures
        ({
            let stale = step(driver, Event::Acquired(Err(AcquireFault::OutOfDate)));
            let begun = step(stale.0, Event::Begin);
            let reclaimed = step(begun.0, Event::Reclaimed);
            let surveyed = step(reclaimed.0, Event::Surveyed(capabilities));
            let rebuilding = step(surveyed.0, Event::Rebuilt(outcome));
            &&& stale.1 == Action::Pace { millis: driver.pace_millis }
            &&& stale.0.state() == LoopState::NeedsResize
            &&& stale.0.phase == Phase::Ready
            &&& begun.1 == Action::Reclaim
            &&& reclaimed.1 == Action::Survey
            &&& surveyed.1 is Rebuild || surveyed.1 is Halt
            &&& surveyed.1 is Rebuild ==> {
                &&& rebuilding.1 is Acquire || rebuilding.1 is Pace || rebuilding.1 is Halt
                &&& rebuilding.1 is Acquire <==> rebuilt(surveyed.0, outcome).1 == Ok::<bool, Fatal>(
                    true,
                )
                &&& rebuilding.1 is Acquire ==> rebuilding.0.state() == LoopState::Idle
            }
        }),
{
}

/// While a rebuild is pending no image is acquired and no frame submitted:
/// the loop asks for either only in the idle state.
pub proof fn pending_rebuild_bars_drawing(driver: Driver, event: Event)
    requires
        driver.well_formed(),
    ensures
        step(driver, event).1 is Acquire || step(driver, event).1 is Submit
            ==> step(driver, event).0.state() == LoopState::Idle,
        driver.state() == LoopState::NeedsResize && step(driver, event).0.state()
            == LoopState::Idle ==> {
            &&& driver.phase is Rebuilding
            &&& event matches Event::Rebuilt(outcome) && rebuilt(driver, outcome).1 == Ok::<
                bool,
                Fatal,
            >(true)
            &&& step(driver, event).1 == Action::Acquire
        },
{
}

/// Every request of the loop has its cause. It surveys the surface only
/// after reclaiming with a rebuild pending, and asks for a rebuild only in
/// answer to the survey. It asks for an image only after reclaiming while
/// idle, or in answer to a rebuild that worked. It asks for a submission
/// only in answer to an acquired image, and while no submission is under way
/// it holds its token.
pub proof fn each_request_has_its_cause(driver: Driver, event: Event)
    requires
        driver.well_formed(),
    ensures
        step(driver, event).1 is Survey ==> driver.phase is Reclaiming && event is Reclaimed
            && driver.state() == LoopState::NeedsResize,
        step(driver, event).1 is Rebuild ==> driver.phase is Surveying && event is Surveyed,
        step(driver, event).0.phase is Rebuilding && !(driver.phase is Rebuilding)
            ==> step(driver, event).1 is Rebuild,
        step(driver, event).1 is Acquire ==> {
            ||| (driver.phase is Reclaiming && event is Reclaimed && driver.state()
                == LoopState::Idle)
            ||| (driver.phase is Rebuilding && (event matches Event::Rebuilt(outcome)
                && rebuilt(driver, outcome).1 == Ok::<bool, Fatal>(true)))
        },
        step(driver, event).1 is Submit ==> driver.phase is Acquiring && event is Acquired
            && driver.other.previous_frame_end is Some,
{
}

/// A rebuild that the surface refuses for its dimensions ends the call: the
/// loop still has the rebuild pending, nothing else of it has changed, and
/// its answer is to pace, which neither acquires nor draws nor submits.
pub proof fn unsupported_dimensions_end_the_call(driver: Driver)
    requires
        driver.well_formed(),
        driver.phase is Rebuilding,
    ensures
        ({
            let refused = step(driver, Event::Rebuilt(Err(RebuildFault::UnsupportedDimensions)));
            &&& refused.1 == Action::Pace { millis: driver.pace_millis }
            &&& refused.0 == Driver { phase: Phase::Ready, ..driver }
            &&& refused.0.state() == LoopState::NeedsResize
        }),
{
}

/// The loop holds its one token except while a submission that consumed it
/// is under way. Reclaiming keeps the token that is held. A token leaves the
/// slot only into a submission, and one enters it only when a submission
/// reports back, into the empty slot.
pub proof fn one_token_at_most(driver: Driver, events: Seq<Event>, event: Event)
    requires
        driver.well_formed(),
    ensures
        run(driver, events).other.previous_frame_end is None <==> run(
            driver,
            events,
        ).phase is Submitting,
        step(driver, Event::Reclaimed).0.other.previous_frame_end
            == driver.other.previous_frame_end,
        step(driver, event).0.other.previous_frame_end != driver.other.previous_frame_end ==> {
            ||| (driver.phase is Acquiring && event is Acquired
                    && step(driver, event).0.other.previous_frame_end is None)
            ||| (driver.phase is Submitting && event is Submitted
                    && driver.other.previous_frame_end is None)
        },
{
    run_keeps_well_formed(driver, events);
}

/// A loop that starts draws with a viewport of the dimensions that its
/// first swapchain was laid out with.
pub proof fn first_viewport_covers_the_plan(
    renderer: Renderer,
    images: usize,
    framebuffers: usize,
    pace_millis: u64,
)
    ensures
        fresh(renderer, images, framebuffers, pace_millis) matches Ok(driver) ==> {
            &&& driver.well_formed()
            &&& driver.other.dynamicstate == full_viewport(latest_build(driver, Seq::empty()))
            &&& planned(renderer.capabilities) matches Ok(plan)
                    ==> driver.other.dynamicstate.dimensions == plan.dimensions
        },
{
}

/// The swapchain's recorded size is that of its latest successful build.
proof fn extent_is_latest_build(driver: Driver, events: Seq<Event>)
    ensures
        run(driver, events).other.extent == latest_build(driver, events),
    decreases events.len(),
{
    if events.len() > 0 {
        extent_is_latest_build(driver, events.drop_last());
    }
}

/// The viewport always covers the dimensions of the latest successful build
/// or rebuild of the swapchain.
pub proof fn viewport_follows_latest_build(driver: Driver, events: Seq<Event>)
    requires
        driver.well_formed(),
    ensures
        run(driver, events).other.dynamicstate == full_viewport(latest_build(driver, events)),
        run(driver, events).other.dynamicstate.dimensions == latest_build(driver, events),
{
    run_keeps_well_formed(driver, events);
    extent_is_latest_build(driver, events);
}

} // verus!
