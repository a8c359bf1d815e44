//! One reachability probe: validate the URL's syntax first (no network
//! attempt for an invalid URL), then classify how the fetch ended. The
//! check is deliberately lenient: any completed response that is not a
//! server error (5xx) counts as `working`, a 404 included.

use vstd::prelude::*;

use crate::outcome::{spec_label, FetchEvent, ProbeOutcome};

verus! {

/// Whether a string is a syntactically valid absolute URL. The grammar is
/// the parser's own; validity depends on the characters alone, so it is
/// named rather than written out.
pub uninterp spec fn url_syntax_valid(s: Seq<char>) -> bool;

/// Relies on url::Url::parse: a deterministic parse of the string alone,
/// returning Ok exactly when the string is a syntactically valid URL.
#[verifier::external_body]
fn parse_ok(s: &str) -> (r: bool)
    ensures
        r == url_syntax_valid(s@),
{
    url::Url::parse(s).is_ok()
}

/// The outcome a completed-or-failed fetch classifies into: `timeout` for a
/// fetch that exceeded its deadline, `not working` for any other transport
/// failure or a server-error (5xx) status, `working` for everything else.
pub open spec fn spec_classify(e: FetchEvent) -> ProbeOutcome {
    match e {
        FetchEvent::TimedOut => ProbeOutcome::TimedOut,
        FetchEvent::TransportError => ProbeOutcome::NotWorking,
        FetchEvent::Completed(status) => if 500 <= status < 600 {
            ProbeOutcome::NotWorking
        } else {
            ProbeOutcome::Working
        },
    }
}

/// What a probe of `url` yields when the fetch (attempted only for a
/// syntactically valid URL) ends in `e`.
pub open spec fn spec_probe(url: Seq<char>, e: FetchEvent) -> ProbeOutcome {
    if url_syntax_valid(url) {
        spec_classify(e)
    } else {
        ProbeOutcome::InvalidUrl
    }
}

/// First step of a probe, before any network attempt: `Some` is the final
/// outcome of a syntactically invalid URL; `None` means the URL is valid
/// and a fetch must decide.
pub fn probe_syntax(url: &str) -> (r: Option<ProbeOutcome>)
    ensures
        r == if url_syntax_valid(url@) {
            None::<ProbeOutcome>
        } else {
            Some(ProbeOutcome::InvalidUrl)
        },
{
    if parse_ok(url) {
        None
    } else {
        Some(ProbeOutcome::InvalidUrl)
    }
}

/// Second step of a probe: classify how the fetch of a valid URL ended.
pub fn classify_fetch(e: &FetchEvent) -> (o: ProbeOutcome)
    ensures
        o == spec_classify(*e),
{
    match e {
        FetchEvent::TimedOut => ProbeOutcome::TimedOut,
        FetchEvent::TransportError => ProbeOutcome::NotWorking,
        FetchEvent::Completed(status) => {
            if 500 <= *status && *status < 600 {
                ProbeOutcome::NotWorking
            } else {
                ProbeOutcome::Working
            }
        },
    }
}

/// Both steps at once: the outcome of a probe of `url` whose fetch, had one
/// been needed, ended in `e`.
pub fn probe_outcome(url: &str, e: &FetchEvent) -> (o: ProbeOutcome)
    ensures
        o == spec_probe(url@, *e),
{
    match probe_syntax(url) {
        Some(o) => o,
        None => classify_fetch(e),
    }
}

/// The line the single-URL mode reports: the URL and its outcome label.
pub fn report_line(url: &str, o: ProbeOutcome) -> (r: String)
    ensures
        r@ == "=> "@ + url@ + " is "@ + spec_label(o),
{
    let mut r = String::from_str("=> ");
    r.append(url);
    r.append(" is ");
    let label = o.label();
    r.append(label.as_str());
    proof {
        assert(r@ =~= "=> "@ + url@ + " is "@ + spec_label(o));
    }
    r
}

/// Law: a completed response with a status code below 500 probes as
/// `working`, whatever the exact 2xx/3xx/4xx value.
pub proof fn lemma_non_server_error_is_working(url: Seq<char>, status: u16)
    requires
        url_syntax_valid(url),
        status < 500,
    ensures
        spec_probe(url, FetchEvent::Completed(status)) == ProbeOutcome::Working,
{
}

/// Law: a fetch that exceeded the configured timeout probes as `timeout`,
/// never as `not working`.
pub proof fn lemma_timeout_is_timeout(url: Seq<char>)
    requires
        url_syntax_valid(url),
    ensures
        spec_probe(url, FetchEvent::TimedOut) == ProbeOutcome::TimedOut,
        spec_probe(url, FetchEvent::TimedOut) != ProbeOutcome::NotWorking,
{
}

/// Law: a syntactically invalid URL probes as the syntax-error outcome, and
/// no fetch event can change that: the network need not be touched.
pub proof fn lemma_invalid_url_needs_no_fetch(url: Seq<char>, e1: FetchEvent, e2: FetchEvent)
    requires
        !url_syntax_valid(url),
    ensures
        spec_probe(url, e1) == ProbeOutcome::InvalidUrl,
        spec_probe(url, e1) == spec_probe(url, e2),
{
}

} // verus!
