//! The background sampler of the CPU load.
//!
//! A load measurement spans a window of time: it is begun, the window passes,
//! and it is finished. The sampler decides what is done next and what is
//! published; its caller does the measuring, the waiting and the publishing,
//! and reports each outcome as an event.

use vstd::prelude::*;
use crate::binary32::Binary32;
use crate::reading::{HealthValue, HealthValueView, failed_reading, measured_reading};
use crate::state::HealthState;
use crate::thresholds::{classify_load, load_state};

verus! {

/// The length of the window over which the load is measured, in milliseconds.
pub const WINDOW_MILLIS: u64 = 1000;

/// The load reading that the outcome of a measurement gives.
pub open spec fn load_reading_of(measured: Result<Binary32, String>) -> HealthValueView<Binary32> {
    match measured {
        Ok(busy) => measured_reading(load_state(busy), busy),
        Err(failure) => failed_reading(failure@, Binary32 { bits: 0 }),
    }
}

/// The load reading: classified by the busy fraction where the measurement
/// succeeded, `Critical` with the failure's description where it did not.
pub fn get_cpu_usage_state(measured: Result<Binary32, String>) -> (r: HealthValue<Binary32>)
    ensures
        r@ == load_reading_of(measured),
{
    match measured {
        Ok(load) => HealthValue { state: classify_load(load), value: load, message: String::new() },
        Err(e) => HealthValue::critical(e),
    }
}

/// What the sampler asks its caller to do.
#[derive(Debug)]
pub enum SamplerAction {
    /// Begin a load measurement, and report `Begun`.
    BeginSample,
    /// Wait for the given number of milliseconds, and report `WindowElapsed`.
    Sleep { millis: u64 },
    /// Finish the measurement that was begun, and report `Finished`.
    FinishSample,
    /// Replace the latest load reading with this one, and report `Wake`.
    Publish(HealthValue<Binary32>),
    /// Stop sampling.
    Stop,
}

/// What a `SamplerAction` holds.
pub ghost enum SamplerActionView {
    BeginSample,
    Sleep { millis: u64 },
    FinishSample,
    Publish(HealthValueView<Binary32>),
    Stop,
}

impl View for SamplerAction {
    type V = SamplerActionView;

    open spec fn view(&self) -> SamplerActionView {
        match *self {
            SamplerAction::BeginSample => SamplerActionView::BeginSample,
            SamplerAction::Sleep { millis } => SamplerActionView::Sleep { millis },
            SamplerAction::FinishSample => SamplerActionView::FinishSample,
            SamplerAction::Publish(reading) => SamplerActionView::Publish(reading@),
            SamplerAction::Stop => SamplerActionView::Stop,
        }
    }
}

/// What the caller reports to the sampler.
#[derive(Debug)]
pub enum SamplerEvent {
    /// Nothing is outstanding: at the start, and after each publication.
    Wake,
    /// The measurement was begun, or could not be begun for the given reason.
    Begun(Result<(), String>),
    /// The window has passed.
    WindowElapsed,
    /// The measurement was finished with the given busy fraction, or could
    /// not be finished for the given reason.
    Finished(Result<Binary32, String>),
    /// Sampling is to end.
    Cancelled,
}

/// The sampler, by where it stands in its cycle.
#[derive(Debug)]
pub enum CpuLoadSampler {
    /// Nothing is outstanding.
    Idle,
    /// A measurement is being begun.
    Beginning,
    /// The window runs. `failure` says why the measurement could not be
    /// begun, where it could not.
    Waiting { failure: Option<String> },
    /// The measurement is being finished.
    Finishing,
    /// Sampling has ended.
    Stopped,
}

/// What a `CpuLoadSampler` holds.
pub ghost enum CpuLoadSamplerView {
    Idle,
    Beginning,
    Waiting { failure: Option<Seq<char>> },
    Finishing,
    Stopped,
}

impl View for CpuLoadSampler {
    type V = CpuLoadSamplerView;

    open spec fn view(&self) -> CpuLoadSamplerView {
        match *self {
            CpuLoadSampler::Idle => CpuLoadSamplerView::Idle,
            CpuLoadSampler::Beginning => CpuLoadSamplerView::Beginning,
            CpuLoadSampler::Waiting { failure: Some(reason) } => CpuLoadSamplerView::Waiting {
                failure: Some(reason@),
            },
            CpuLoadSampler::Waiting { failure: None } => CpuLoadSamplerView::Waiting {
                failure: None,
            },
            CpuLoadSampler::Finishing => CpuLoadSamplerView::Finishing,
            CpuLoadSampler::Stopped => CpuLoadSamplerView::Stopped,
        }
    }
}

impl CpuLoadSamplerView {
    /// The sampler after `event`, and what it asks for; `None` where the
    /// event does not answer what the sampler last asked for.
    ///
    /// From `Idle` the cycle runs: begin a measurement; wait for one window,
    /// whether or not it could be begun; finish it; publish its reading. A
    /// measurement that could not be begun or finished is published as a
    /// failed reading, and the cycle goes on. Only `Cancelled` stops it.
    pub open spec fn next(self, event: SamplerEvent) -> Option<
        (CpuLoadSamplerView, SamplerActionView),
    > {
        match (self, event) {
            (CpuLoadSamplerView::Stopped, _) => None,
            (_, SamplerEvent::Cancelled) => Some(
                (CpuLoadSamplerView::Stopped, SamplerActionView::Stop),
            ),
            (CpuLoadSamplerView::Idle, SamplerEvent::Wake) => Some(
                (CpuLoadSamplerView::Beginning, SamplerActionView::BeginSample),
            ),
            (CpuLoadSamplerView::Beginning, SamplerEvent::Begun(Ok(_))) => Some(
                (
                    CpuLoadSamplerView::Waiting { failure: None },
                    SamplerActionView::Sleep { millis: WINDOW_MILLIS },
                ),
            ),
            (CpuLoadSamplerView::Beginning, SamplerEvent::Begun(Err(reason))) => Some(
                (
                    CpuLoadSamplerView::Waiting { failure: Some(reason@) },
                    SamplerActionView::Sleep { millis: WINDOW_MILLIS },
                ),
            ),
            (CpuLoadSamplerView::Waiting { failure: None }, SamplerEvent::WindowElapsed) => Some(
                (CpuLoadSamplerView::Finishing, SamplerActionView::FinishSample),
            ),
            (
                CpuLoadSamplerView::Waiting { failure: Some(reason) },
                SamplerEvent::WindowElapsed,
            ) => Some(
                (
                    CpuLoadSamplerView::Idle,
                    SamplerActionView::Publish(failed_reading(reason, Binary32 { bits: 0 })),
                ),
            ),
            (CpuLoadSamplerView::Finishing, SamplerEvent::Finished(measured)) => Some(
                (CpuLoadSamplerView::Idle, SamplerActionView::Publish(load_reading_of(measured))),
            ),
            _ => None,
        }
    }
}

impl CpuLoadSampler {
    /// A sampler with nothing outstanding.
    pub fn new() -> (r: CpuLoadSampler)
        ensures
            r@ == CpuLoadSamplerView::Idle,
    {
        CpuLoadSampler::Idle
    }

    /// Takes `event` and gives the sampler after it and what to do next. An
    /// event that does not answer what the sampler last asked for leaves it as
    /// it is, and gives no action.
    pub fn step(self, event: SamplerEvent) -> (r: (CpuLoadSampler, Option<SamplerAction>))
        ensures
            match self@.next(event) {
                Some((sampler, action)) => r.0@ == sampler && (r.1 matches Some(asked)
                    && asked@ == action),
                None => r.0@ == self@ && r.1 is None,
            },
    {
        match (self, event) {
            (CpuLoadSampler::Stopped, _) => (CpuLoadSampler::Stopped, None),
            (_, SamplerEvent::Cancelled) => (CpuLoadSampler::Stopped, Some(SamplerAction::Stop)),
            (CpuLoadSampler::Idle, SamplerEvent::Wake) => (
                CpuLoadSampler::Beginning,
                Some(SamplerAction::BeginSample),
            ),
            (CpuLoadSampler::Beginning, SamplerEvent::Begun(begun)) => {
                let failure = match begun {
                    Ok(_) => None,
                    Err(reason) => Some(reason),
                };
                (
                    CpuLoadSampler::Waiting { failure },
                    Some(SamplerAction::Sleep { millis: WINDOW_MILLIS }),
                )
            },
            (CpuLoadSampler::Waiting { failure: None }, SamplerEvent::WindowElapsed) => (
                CpuLoadSampler::Finishing,
                Some(SamplerAction::FinishSample),
            ),
            (CpuLoadSampler::Waiting { failure: Some(reason) }, SamplerEvent::WindowElapsed) => (
                CpuLoadSampler::Idle,
                Some(SamplerAction::Publish(HealthValue::critical(reason))),
            ),
            (CpuLoadSampler::Finishing, SamplerEvent::Finished(measured)) => (
                CpuLoadSampler::Idle,
                Some(SamplerAction::Publish(get_cpu_usage_state(measured))),
            ),
            (sampler, _) => (sampler, None),
        }
    }
}

/// Nothing but `Cancelled` ends the sampling: whatever else is reported, and
/// whether or not a measurement failed, a sampler that has not stopped does
/// not stop.
pub proof fn lemma_only_cancelled_stops(sampler: CpuLoadSamplerView, event: SamplerEvent)
    requires
        sampler != CpuLoadSamplerView::Stopped,
        !(event is Cancelled),
    ensures
        match sampler.next(event) {
            Some((after, action)) => after != CpuLoadSamplerView::Stopped
                && action != SamplerActionView::Stop,
            None => true,
        },
{
}

/// One turn of the cycle, from `Idle` back to `Idle`, where the measurement
/// could be begun: the sampler asks to begin, to wait for one window and to
/// finish, and then to publish the reading that the outcome `measured` gives.
pub proof fn lemma_cycle_publishes_the_measurement(measured: Result<Binary32, String>)
    ensures
        CpuLoadSamplerView::Idle.next(SamplerEvent::Wake) == Some(
            (CpuLoadSamplerView::Beginning, SamplerActionView::BeginSample),
        ),
        CpuLoadSamplerView::Beginning.next(SamplerEvent::Begun(Ok(()))) == Some(
            (
                CpuLoadSamplerView::Waiting { failure: None },
                SamplerActionView::Sleep { millis: 1000 },
            ),
        ),
        (CpuLoadSamplerView::Waiting { failure: None }).next(SamplerEvent::WindowElapsed) == Some(
            (CpuLoadSamplerView::Finishing, SamplerActionView::FinishSample),
        ),
        CpuLoadSamplerView::Finishing.next(SamplerEvent::Finished(measured)) == Some(
            (CpuLoadSamplerView::Idle, SamplerActionView::Publish(load_reading_of(measured))),
        ),
{
}

/// One turn of the cycle where the measurement could not be begun: the
/// sampler still waits for one window, and then asks to publish a `Critical`
/// reading with the description of the failure, and is `Idle` again.
pub proof fn lemma_cycle_publishes_the_failure_to_begin(reason: String)
    ensures
        CpuLoadSamplerView::Beginning.next(SamplerEvent::Begun(Err(reason))) == Some(
            (
                CpuLoadSamplerView::Waiting { failure: Some(reason@) },
                SamplerActionView::Sleep { millis: 1000 },
            ),
        ),
        (CpuLoadSamplerView::Waiting { failure: Some(reason@) }).next(SamplerEvent::WindowElapsed)
            == Some(
            (
                CpuLoadSamplerView::Idle,
                SamplerActionView::Publish(
                    HealthValueView {
                        state: HealthState::Critical,
                        value: Binary32 { bits: 0 },
                        message: reason@,
                    },
                ),
            ),
        ),
{
}

} // verus!
