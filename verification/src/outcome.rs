//! The closed set of labels a probe can produce, and the events a network
//! fetch can end in.

use vstd::prelude::*;

verus! {

/// The classified result of one reachability probe. It is surfaced outward
/// only as a fixed text label, never as a raw error object.
#[derive(Clone, Copy, PartialEq, Eq, Structural, Debug)]
pub enum ProbeOutcome {
    /// The request completed with a non-server-error status.
    Working,
    /// Transport failure or a server-error (5xx) status.
    NotWorking,
    /// The request exceeded the configured timeout.
    TimedOut,
    /// The URL string did not parse; no network attempt was made.
    InvalidUrl,
}

/// How one network fetch ended, as handed back by the transport: it timed
/// out, it failed for some other transport reason, or it completed with a
/// status code.
#[derive(Clone, Copy, PartialEq, Eq, Structural, Debug)]
pub enum FetchEvent {
    TimedOut,
    TransportError,
    Completed(u16),
}

impl View for ProbeOutcome {
    type V = ProbeOutcome;

    open spec fn view(&self) -> ProbeOutcome {
        *self
    }
}

impl DeepView for ProbeOutcome {
    type V = ProbeOutcome;

    open spec fn deep_view(&self) -> ProbeOutcome {
        *self
    }
}

/// The text label embedded in the output for each outcome.
pub open spec fn spec_label(o: ProbeOutcome) -> Seq<char> {
    match o {
        ProbeOutcome::Working => "working"@,
        ProbeOutcome::NotWorking => "not working"@,
        ProbeOutcome::TimedOut => "timeout"@,
        ProbeOutcome::InvalidUrl => "Not valid Url"@,
    }
}

impl ProbeOutcome {
    /// The label as plain text, ready to stand in a record field.
    pub fn label(&self) -> (r: String)
        ensures
            r@ == spec_label(*self),
    {
        match self {
            ProbeOutcome::Working => String::from_str("working"),
            ProbeOutcome::NotWorking => String::from_str("not working"),
            ProbeOutcome::TimedOut => String::from_str("timeout"),
            ProbeOutcome::InvalidUrl => String::from_str("Not valid Url"),
        }
    }
}

} // verus!
