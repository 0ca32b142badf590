//! A stopwatch that renders the time elapsed since it was started.

use vstd::prelude::*;
use crate::helpers::{millis_clock_text, millis_in_range, to_string2};

verus! {

#[verifier::external_type_specification]
#[verifier::external_body]
pub struct ExInstant(std::time::Instant);

/// Calls `std::time::Instant::now`. The current reading of the monotonic
/// clock is not a function of anything the library holds, so nothing is
/// claimed of it.
#[verifier::external_body]
fn instant_now() -> std::time::Instant {
    std::time::Instant::now()
}

/// Calls `std::time::Instant::elapsed`: the time from `start` to now (zero if
/// the clock reads earlier). It depends on the clock, so nothing is claimed.
#[verifier::external_body]
fn instant_elapsed(start: &std::time::Instant) -> std::time::Duration {
    start.elapsed()
}

/// Calls `std::time::Duration::as_millis`: the whole milliseconds of the
/// duration. The duration is opaque here, so nothing is claimed of the count.
#[verifier::external_body]
fn duration_as_millis(d: &std::time::Duration) -> u128 {
    d.as_millis()
}

/// What the stopwatch shows after `millis` milliseconds: the `HH:MM:SS:mmm`
/// rendering, or nothing when the count is beyond what the rendering accepts.
pub open spec fn stopwatch_text(millis: nat) -> Option<Seq<char>> {
    if millis_in_range(millis) {
        Some(millis_clock_text(millis))
    } else {
        None
    }
}

/// Reads a stopwatch through `read`, keeping what `read` reported.
fn read_elapsed<F: Fn(&Stopwatch) -> u128>(read: F, watch: &Stopwatch) -> (millis: u128)
    requires
        call_requires(read, (watch,)),
    ensures
        call_ensures(read, (watch,), millis),
{
    read(watch)
}

/// The stopwatch's text identifies the count it renders: two counts that
/// show the same text are the same count.
pub proof fn lemma_stopwatch_text_identifies_count(a: nat, b: nat)
    requires
        stopwatch_text(a) is Some,
        stopwatch_text(a) == stopwatch_text(b),
    ensures
        a == b,
{
    crate::helpers::lemma_millis_text_injective(a, b);
}

/// A stopwatch, started when it is created.
pub struct Stopwatch {
    /// The instant at which the stopwatch was created.
    _time: std::time::Instant,
}

impl Stopwatch {
    /// Creates a stopwatch started now.
    pub fn new() -> (s: Stopwatch) {
        Stopwatch { _time: instant_now() }
    }

    /// The whole milliseconds elapsed since the stopwatch was started.
    pub fn elapsed_millis(&self) -> u128 {
        let elapsed = instant_elapsed(&self._time);
        duration_as_millis(&elapsed)
    }

    /// The elapsed time as `HH:MM:SS:mmm`; `None` when the elapsed time is
    /// too long for the rendering's 32-bit second counter. The text renders a
    /// count that `elapsed_millis` reported for this stopwatch.
    pub fn to_string(&self) -> (r: Option<String>)
        ensures
            exists|millis: u128|
                #![trigger call_ensures(Stopwatch::elapsed_millis, (self,), millis)]
                call_ensures(Stopwatch::elapsed_millis, (self,), millis)
                && match (r, stopwatch_text(millis as nat)) {
                    (Some(s), Some(t)) => s@ == t,
                    (None, None) => true,
                    _ => false,
                },
    {
        let millis = read_elapsed(Stopwatch::elapsed_millis, self);
        Self::render_elapsed(millis)
    }

    /// What the stopwatch shows after `millis` elapsed milliseconds.
    pub fn render_elapsed(millis: u128) -> (r: Option<String>)
        ensures
            match (r, stopwatch_text(millis as nat)) {
                (Some(s), Some(t)) => s@ == t,
                (None, None) => true,
                _ => false,
            },
    {
        if millis / 1000 <= 2147483647 {
            Some(to_string2(millis))
        } else {
            None
        }
    }
}

} // verus!
