//! Frequencies and durations.
//!
//! A frequency is a number of hertz, a duration a number of microseconds. The arithmetic on them is
//! that of the `fugit` crate.
use vstd::prelude::*;

verus! {

/// A frequency in hertz.
pub type Hertz = u32;

/// A duration in microseconds.
pub type Micros = u64;

/// `fugit::Hertz::<u32>::kHz`: the frequency of `count` kilohertz is that many thousand hertz.
#[verifier::external_body]
pub(crate) fn kilohertz(count: u32) -> (hertz: Hertz)
    requires
        count <= 4_294_967,
    ensures
        hertz == count * 1000,
{
    fugit::Hertz::<u32>::kHz(count).raw()
}

/// The quotient of two `fugit::Hertz::<u32>`: the number of times that `divisor` fits in
/// `dividend`, rounded down.
#[verifier::external_body]
pub(crate) fn ratio(dividend: Hertz, divisor: Hertz) -> (quotient: u32)
    requires
        divisor > 0,
    ensures
        quotient == dividend / divisor,
{
    fugit::Hertz::<u32>::from_raw(dividend) / fugit::Hertz::<u32>::from_raw(divisor)
}

/// `fugit::Rate::into_duration` from hertz to microseconds: the period of a frequency, rounded down
/// to whole microseconds.
#[verifier::external_body]
pub(crate) fn period(frequency: u64) -> (micros: Micros)
    requires
        frequency > 0,
    ensures
        micros == 1_000_000u64 / frequency,
{
    let period: fugit::MicrosDurationU64 = fugit::Hertz::<u64>::from_raw(frequency).into_duration();
    period.ticks()
}

/// `fugit::MicrosDurationU64::to_secs`: the whole seconds in a duration.
#[verifier::external_body]
pub(crate) fn whole_seconds(duration: Micros) -> (seconds: u64)
    ensures
        seconds == duration / 1_000_000,
{
    fugit::MicrosDurationU64::from_ticks(duration).to_secs()
}

} // verus!
