//! The acquisition job: samples the sensor and keeps the store current.

use crate::decimal::{two_places, two_places_chars};
use crate::reading::Reading;
use crate::store::SharedReading;
use vstd::prelude::*;
use vstd::string::StringExecFns;

verus! {

/// Milliseconds between the end of one sample and the start of the next.
pub const SAMPLE_PAUSE_MS: u64 = 2000;

/// What the acquisition job is waiting for.
#[derive(Clone, Copy, Debug, PartialEq, Eq, Structural)]
pub enum AcquisitionPhase {
    /// The sensor is being read.
    Sampling,
    /// The pause between two samples is running.
    Resting,
}

/// What the caller reports back to the acquisition job.
#[derive(Clone, Copy, Debug, PartialEq, Eq, Structural)]
pub enum AcquisitionEvent {
    /// The sensor answered with this reading.
    Sampled(Reading),
    /// The sensor could not be read.
    SampleFailed,
    /// The pause is over.
    Elapsed,
}

/// What the acquisition job asks its caller to do next.
#[derive(Clone, Copy, Debug, PartialEq, Eq, Structural)]
pub enum AcquisitionAction {
    /// Read the sensor.
    Sample,
    /// Wait this many milliseconds.
    Pause(u64),
}

/// The job's transitions: every sample, good or failed, is followed by the
/// pause, and every pause by the next sample. A failure is not retried before
/// the pause is over, and never ends the job. An event that the phase does
/// not wait for has no transition.
pub open spec fn acquisition_transition(phase: AcquisitionPhase, event: AcquisitionEvent) -> Option<
    (AcquisitionPhase, AcquisitionAction),
> {
    match (phase, event) {
        (AcquisitionPhase::Sampling, AcquisitionEvent::Sampled(_))
        | (AcquisitionPhase::Sampling, AcquisitionEvent::SampleFailed) => Some(
            (AcquisitionPhase::Resting, AcquisitionAction::Pause(SAMPLE_PAUSE_MS)),
        ),
        (AcquisitionPhase::Resting, AcquisitionEvent::Elapsed) => Some(
            (AcquisitionPhase::Sampling, AcquisitionAction::Sample),
        ),
        _ => None,
    }
}

/// What the store holds after an event, having held `before`: the reading
/// of a sample that the job was waiting for, and `before` in every other
/// case.
pub open spec fn stored_after(
    phase: AcquisitionPhase,
    event: AcquisitionEvent,
    before: Reading,
) -> Reading {
    match (phase, event) {
        (AcquisitionPhase::Sampling, AcquisitionEvent::Sampled(reading)) => reading,
        _ => before,
    }
}

/// The line that reports a good sample: both numbers to two places.
pub open spec fn report_chars(reading: Reading) -> Seq<char> {
    "Temperature: "@ + two_places_chars(reading.temperature) + ", Humidity: "@ + two_places_chars(
        reading.humidity,
    )
}

/// Formats the line that reports a good sample.
pub fn report_line(reading: Reading) -> (line: String)
    ensures
        line@ == report_chars(reading),
{
    let mut line = String::from_str("Temperature: ");
    let temperature = two_places(reading.temperature);
    line.append(temperature.as_str());
    line.append(", Humidity: ");
    let humidity = two_places(reading.humidity);
    line.append(humidity.as_str());
    line
}

/// The acquisition job.
#[derive(Clone, Copy, Debug, PartialEq, Eq, Structural)]
pub struct Acquisition {
    pub phase: AcquisitionPhase,
}

impl Acquisition {
    /// Starts the job: it asks for a first sample.
    pub fn begin() -> (started: (Acquisition, AcquisitionAction))
        ensures
            started.0.phase == AcquisitionPhase::Sampling,
            started.1 == AcquisitionAction::Sample,
    {
        (Acquisition { phase: AcquisitionPhase::Sampling }, AcquisitionAction::Sample)
    }

    /// Takes the outcome of the last action and says what to do next, or
    /// `None`, changing nothing, where the job was not waiting for `event`.
    /// A good sample is written to the store; a failed one leaves the store
    /// as it was.
    pub fn step(&mut self, event: AcquisitionEvent, store: &mut SharedReading) -> (action: Option<
        AcquisitionAction,
    >)
        ensures
            match acquisition_transition(old(self).phase, event) {
                Some((phase, next)) => final(self).phase == phase && action == Some(next),
                None => action is None && *final(self) == *old(self),
            },
            final(store)@ == stored_after(old(self).phase, event, old(store)@),
    {
        match (self.phase, event) {
            (AcquisitionPhase::Sampling, AcquisitionEvent::Sampled(reading)) => {
                store.set(reading);
                self.phase = AcquisitionPhase::Resting;
                Some(AcquisitionAction::Pause(SAMPLE_PAUSE_MS))
            },
            (AcquisitionPhase::Sampling, AcquisitionEvent::SampleFailed) => {
                self.phase = AcquisitionPhase::Resting;
                Some(AcquisitionAction::Pause(SAMPLE_PAUSE_MS))
            },
            (AcquisitionPhase::Resting, AcquisitionEvent::Elapsed) => {
                self.phase = AcquisitionPhase::Sampling;
                Some(AcquisitionAction::Sample)
            },
            _ => None,
        }
    }
}

/// A failed read leaves the store as it was, whatever it held and whatever
/// the job was waiting for; and the job goes on to its pause as after a good
/// read.
pub proof fn lemma_failed_read_keeps_store(phase: AcquisitionPhase, before: Reading)
    ensures
        stored_after(phase, AcquisitionEvent::SampleFailed, before) == before,
        acquisition_transition(AcquisitionPhase::Sampling, AcquisitionEvent::SampleFailed) == Some(
            (AcquisitionPhase::Resting, AcquisitionAction::Pause(SAMPLE_PAUSE_MS)),
        ),
{
}

} // verus!
