//! Stage timings: how long each stage of one transform took, in the order in
//! which the stages ran. They serve observation only.

use vstd::prelude::*;

verus! {

/// A stage of the pipeline.
#[derive(Debug, Clone, Copy, PartialEq, Eq, Structural)]
pub enum Step {
    Downloading,
    Decoding,
    Resizing,
    Encoding,
    Saving,
}

/// The time that one stage took.
#[derive(Debug, Clone, Copy, PartialEq, Eq, Structural)]
pub struct StageTiming {
    pub step: Step,
    pub nanos: u128,
}

impl Step {
    /// The label of a stage in a report.
    pub open spec fn name_of(self) -> Seq<char> {
        match self {
            Step::Downloading => "Downloading"@,
            Step::Decoding => "Decoding"@,
            Step::Resizing => "Resizing"@,
            Step::Encoding => "Encoding"@,
            Step::Saving => "Saving"@,
        }
    }

    pub fn name(&self) -> (name: &'static str)
        ensures
            name@ == self.name_of(),
    {
        match self {
            Step::Downloading => "Downloading",
            Step::Decoding => "Decoding",
            Step::Resizing => "Resizing",
            Step::Encoding => "Encoding",
            Step::Saving => "Saving",
        }
    }
}

/// The stages that a sequence of timings names, in order.
pub open spec fn steps_of(timings: Seq<StageTiming>) -> Seq<Step> {
    timings.map_values(|timing: StageTiming| timing.step)
}

/// A point in time as `std::time::Instant` records it.
#[verifier::external_type_specification]
#[verifier::external_body]
pub struct ExInstant(std::time::Instant);

/// Calls `Instant::now`. Nothing is claimed of the result: it is the time.
#[verifier::external_body]
pub(crate) fn clock_now() -> std::time::Instant {
    std::time::Instant::now()
}

/// Calls `Instant::elapsed`. Nothing is claimed of the result: it is the
/// time that has passed.
#[verifier::external_body]
pub(crate) fn elapsed_since(start: &std::time::Instant) -> std::time::Duration {
    start.elapsed()
}

/// Calls `Duration::as_nanos`: the duration in whole nanoseconds. A duration
/// is opaque here, so nothing is claimed of the number.
#[verifier::external_body]
pub(crate) fn whole_nanos(duration: &std::time::Duration) -> u128 {
    duration.as_nanos()
}

/// The nanoseconds that have passed since `start`.
pub(crate) fn nanos_since(start: &std::time::Instant) -> u128 {
    let elapsed = elapsed_since(start);
    whole_nanos(&elapsed)
}

} // verus!
