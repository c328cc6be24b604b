use std::time::{Duration, Instant};
use vstd::prelude::*;

verus! {

#[verifier::external_type_specification]
#[verifier::external_body]
pub struct ExInstant(std::time::Instant);

/// Relies on `Instant::now`: a reading of the monotonic clock.
pub assume_specification[ std::time::Instant::now ]() -> Instant;

/// Relies on `Instant::elapsed`: the time since the reading, never negative
/// (a `Duration`), and saturating to zero should the clock appear to go back.
pub assume_specification[ std::time::Instant::elapsed ](this: &Instant) -> Duration;

/// Relies on `Duration::as_secs`: the whole seconds of the duration.
pub assume_specification[ std::time::Duration::as_secs ](this: &Duration) -> u64;

/// Relies on `Duration::subsec_nanos`: the fractional part in nanoseconds,
/// always less than one billion.
pub assume_specification[ std::time::Duration::subsec_nanos ](this: &Duration) -> (r: u32)
    ensures
        r < 1_000_000_000,
;

pub const NANOS_PER_SEC: u32 = 1_000_000_000;

/// A span of time, as whole seconds and the nanoseconds beyond them.
#[derive(Clone, Copy, Debug, PartialEq, Eq, Structural)]
pub struct Elapsed {
    pub secs: u64,
    pub nanos: u32,
}

impl Elapsed {
    /// The nanosecond part is below one second.
    pub open spec fn wf(self) -> bool {
        self.nanos < NANOS_PER_SEC
    }

    /// The span in nanoseconds.
    pub open spec fn total_nanos(self) -> nat {
        self.secs as nat * 1_000_000_000 + self.nanos as nat
    }

    /// Builds a span from its parts; `None` where the nanoseconds reach a
    /// whole second.
    pub fn from_parts(secs: u64, nanos: u32) -> (r: Option<Elapsed>)
        ensures
            r is Some <==> nanos < NANOS_PER_SEC,
            r is Some ==> r->0.secs == secs && r->0.nanos == nanos && r->0.wf(),
    {
        if nanos < NANOS_PER_SEC {
            Some(Elapsed { secs, nanos })
        } else {
            None
        }
    }

    /// The span that a `Duration` holds.
    pub fn from_duration(d: &Duration) -> (r: Elapsed)
        ensures
            r.wf(),
    {
        Elapsed { secs: d.as_secs(), nanos: d.subsec_nanos() }
    }
}

/// A clock started at the entry of a launch, read when setup completes.
pub struct SetupClock {
    start: Instant,
}

impl SetupClock {
    /// Starts the clock now.
    pub fn start() -> (r: SetupClock) {
        SetupClock { start: Instant::now() }
    }

    /// The time since the clock was started.
    pub fn elapsed(&self) -> (r: Elapsed)
        ensures
            r.wf(),
    {
        let d = self.start.elapsed();
        Elapsed::from_duration(&d)
    }
}

/// The text that `Duration`'s `Debug` formatting gives for a span.
pub uninterp spec fn duration_text(secs: u64, nanos: u32) -> Seq<char>;

/// Relies on the `Debug` formatting of `Duration` (as with `{:?}`): its text
/// depends on the span alone. `Duration::new` does not panic here, as the
/// nanoseconds carry into no extra second.
#[verifier::external_body]
fn duration_debug(secs: u64, nanos: u32) -> (r: String)
    requires
        nanos < NANOS_PER_SEC,
    ensures
        r@ == duration_text(secs, nanos),
{
    format!("{:?}", Duration::new(secs, nanos))
}

/// The words that open the setup diagnostic line.
pub open spec fn setup_prefix() -> Seq<char> {
    "Tauri setup time: "@
}

/// The setup diagnostic line for a duration already written as text.
pub open spec fn setup_line_spec(text: Seq<char>) -> Seq<char> {
    setup_prefix() + text
}

/// Writes the setup diagnostic line around a duration's text.
pub fn setup_line_with(text: &str) -> (r: String)
    ensures
        r@ == setup_line_spec(text@),
{
    let prefix = String::from_str("Tauri setup time: ");
    proof {
        reveal_strlit("Tauri setup time: ");
    }
    prefix.concat(text)
}

/// The setup diagnostic line for a measured span.
pub fn setup_line(e: Elapsed) -> (r: String)
    requires
        e.wf(),
    ensures
        r@ == setup_line_spec(duration_text(e.secs, e.nanos)),
{
    let text = duration_debug(e.secs, e.nanos);
    setup_line_with(text.as_str())
}

} // verus!
