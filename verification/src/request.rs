//! The request builder and the response evaluator: turning a service
//! definition into a concrete outbound request plan, and deciding a
//! pass/fail verdict from a completed probe, recording the status gauge and
//! deciding the fallback in one place.

use vstd::prelude::*;

use crate::config::{BodyType, ServiceDetails};
use crate::fallback::{
    directive_empty, fallback_directive, opt_str_eq, step_admitted, step_map, AttemptCounters,
    FallbackDirective,
};
use crate::metrics::{snap_or_empty, with_status, ServiceMetrics};
use crate::pattern::{pattern_matches, pattern_spec, regex_match, regex_valid, PatternError};
use crate::text::ci_eq;

verus! {

/// Why no request could be built.
#[derive(Debug, Clone, Copy, PartialEq, Eq, Structural)]
pub enum RequestError {
    /// The service defines no URL; guarded against at load time, restated
    /// here as a defensive contract.
    NoUrl,
}

/// The headers a service declares, or none.
pub open spec fn declared_headers(d: &ServiceDetails) -> Seq<(String, String)> {
    match d.headers {
        Option::Some(h) => h@,
        Option::None => Seq::empty(),
    }
}

/// Whether a header list declares a content type, compared without regard
/// to ASCII case.
pub open spec fn has_content_type(hs: Seq<(String, String)>) -> bool {
    exists|i: int| 0 <= i < hs.len() && ci_eq(hs[i].0@, "content-type"@)
}

/// The content type the request builder sets: `application/json` for a JSON
/// body and `application/x-www-form-urlencoded` for a form body, each only
/// when the service declares no content type of its own; a text body never
/// forces one.
pub open spec fn content_type_for(d: &ServiceDetails) -> Option<Seq<char>> {
    match d.body {
        Option::Some(BodyType::Json(_)) => if has_content_type(declared_headers(d)) {
            Option::None
        } else {
            Option::Some("application/json"@)
        },
        Option::Some(BodyType::Form(_)) => if has_content_type(declared_headers(d)) {
            Option::None
        } else {
            Option::Some("application/x-www-form-urlencoded"@)
        },
        _ => Option::None,
    }
}

/// The request body an outbound probe carries: serialized JSON and raw
/// text as they stand, form pairs URL-encoded.
pub open spec fn payload_for(body: &BodyType) -> Seq<char> {
    match body {
        BodyType::Json(s) => s@,
        BodyType::Form(pairs) => urlencoded(pairs@),
        BodyType::Text(t) => t@,
    }
}

/// The `application/x-www-form-urlencoded` rendering of key-value pairs; a
/// function of the pairs alone.
pub uninterp spec fn urlencoded(pairs: Seq<(String, String)>) -> Seq<char>;

/// Relies on `url::form_urlencoded::Serializer` (`append_pair`, `finish`):
/// the URL-encoded body is a function of the key-value pairs alone.
#[verifier::external_body]
fn encode_form(pairs: &Vec<(String, String)>) -> (r: String)
    ensures
        r@ == urlencoded(pairs@),
{
    let mut encoder = url::form_urlencoded::Serializer::new(String::new());
    for (k, v) in pairs.iter() {
        encoder.append_pair(k, v);
    }
    encoder.finish()
}

/// A concrete outbound request, built fresh for every probe so that no
/// state leaks between independent checks.  The body is already the bytes
/// to send: a form body has been URL-encoded.
#[derive(Debug)]
pub struct RequestPlan {
    pub method: crate::config::HttpMethod,
    pub url: String,
    pub body: Option<String>,
    /// The content type to set on the request, when the body calls for one
    /// that the service does not already declare.
    pub content_type: Option<String>,
}

fn headers_declare_content_type(d: &ServiceDetails) -> (r: bool)
    ensures
        r == has_content_type(declared_headers(d)),
{
    match &d.headers {
        None => {
            proof {
                assert(declared_headers(d) =~= Seq::<(String, String)>::empty());
            }
            false
        },
        Some(hs) => {
            let n = hs.len();
            let mut i: usize = 0;
            while i < n
                invariant
                    0 <= i <= n,
                    n == hs@.len(),
                    d.headers == Option::Some(*hs),
                    forall|k: int| 0 <= k < i ==> !ci_eq(hs@[k].0@, "content-type"@),
                decreases n - i,
            {
                if crate::text::eq_ignore_ascii_case(hs[i].0.as_str(), "content-type") {
                    proof {
                        let w = i as int;
                        assert(0 <= w < hs@.len() && ci_eq(hs@[w].0@, "content-type"@));
                        assert(has_content_type(hs@));
                        assert(d.headers == Option::Some(*hs));
                        assert(declared_headers(d) == hs@);
                    }
                    return true;
                }
                i = i + 1;
            }
            false
        },
    }
}

/// Builds the outbound request for an HTTP probe: the service's method and
/// URL, the body bytes its configured body serializes to, and the content
/// type implied by the body when the service declares none.  Fails only
/// when no URL is configured.
pub fn build_http_request(service_details: &ServiceDetails) -> (r: Result<RequestPlan, RequestError>)
    ensures
        r is Ok <==> service_details.url is Some,
        r matches Ok(p) ==> ({
            &&& p.method == service_details.method
            &&& p.url@ == service_details.url->Some_0@
            &&& (match (&p.body, &service_details.body) {
                (Option::Some(a), Option::Some(b)) => a@ == payload_for(b),
                (Option::None, Option::None) => true,
                _ => false,
            })
            &&& (match (&p.content_type, content_type_for(service_details)) {
                (Option::Some(s), Option::Some(t)) => s@ == t,
                (Option::None, Option::None) => true,
                _ => false,
            })
        }),
        r matches Err(e) ==> e == RequestError::NoUrl,
{
    let url: String = match &service_details.url {
        Some(u) => u.clone(),
        None => {
            return Err(RequestError::NoUrl);
        },
    };
    let body: Option<String> = match &service_details.body {
        Some(BodyType::Json(s)) => Some(s.clone()),
        Some(BodyType::Form(pairs)) => Some(encode_form(pairs)),
        Some(BodyType::Text(t)) => Some(t.clone()),
        None => None,
    };
    let content_type: Option<String> = match &service_details.body {
        Some(BodyType::Json(_)) => {
            if headers_declare_content_type(service_details) {
                None
            } else {
                Some(String::from_str("application/json"))
            }
        },
        Some(BodyType::Form(_)) => {
            if headers_declare_content_type(service_details) {
                None
            } else {
                Some(String::from_str("application/x-www-form-urlencoded"))
            }
        },
        _ => None,
    };
    Ok(RequestPlan { method: service_details.method, url, body, content_type })
}

/// How reading the response body went.
#[derive(Debug)]
pub enum BodyOutcome {
    /// The body was not read; no pattern asked for it.
    NotRead,
    /// The body text, read in full (subject to the configured byte cap).
    Text(String),
    /// Reading the body failed; this degrades to a no-match, never a panic.
    ReadFailed,
}

/// Whether evaluating a response must fail before any verdict is reached:
/// a body pattern is configured and it is empty once trimmed, or it does
/// not compile.
pub open spec fn http_eval_error(d: &ServiceDetails) -> bool {
    match d.expect.body {
        Option::None => false,
        Option::Some(p) => pattern_spec(p@) is None || !regex_valid(pattern_spec(p@)->Some_0),
    }
}

/// Whether the response body satisfies the configured pattern: vacuously
/// true with no pattern, false when the body could not be read.
pub open spec fn body_matches_spec(d: &ServiceDetails, body: &BodyOutcome) -> bool {
    match d.expect.body {
        Option::None => true,
        Option::Some(p) => match body {
            BodyOutcome::Text(t) => regex_match(pattern_spec(p@)->Some_0, t@),
            _ => false,
        },
    }
}

/// The verdict on a completed HTTP probe: the observed status equals the
/// expected one, and the body matches the configured pattern if any.
pub open spec fn http_verdict(d: &ServiceDetails, status: u16, body: &BodyOutcome) -> bool {
    status == d.expect.status && body_matches_spec(d, body)
}

/// Evaluates a completed HTTP probe and returns its verdict together with
/// the fallback to run.
///
/// The status gauge is set to the verdict, unconditionally: this is the one
/// place the gauge is computed from.  On a negative verdict with a
/// configured fallback action, the attempt counter decides admission; the
/// returned directive carries what the caller should execute.  A
/// misconfigured body pattern fails the evaluation before anything is
/// recorded.
pub fn handle_http_response(
    service_name: &str,
    service_details: &ServiceDetails,
    status: u16,
    body: &BodyOutcome,
    metrics: &mut ServiceMetrics,
    counters: &mut AttemptCounters,
) -> (r: Result<(bool, FallbackDirective), PatternError>)
    requires
        old(metrics).wf(),
        old(counters).wf(),
    ensures
        final(metrics).wf(),
        final(counters).wf(),
        r is Err <==> http_eval_error(service_details),
        r matches Err(e) ==> ({
            &&& final(metrics)@ == old(metrics)@
            &&& final(counters)@ == old(counters)@
            &&& (e == PatternError::EmptyPattern <==> pattern_spec(
                service_details.expect.body->Some_0@,
            ) is None)
        }),
        r matches Ok(v) ==> ({
            let verdict = v.0;
            &&& verdict == http_verdict(service_details, status, body)
            &&& final(metrics)@ == old(metrics)@.insert(
                service_name@,
                with_status(snap_or_empty(old(metrics)@, service_name@), verdict),
            )
            &&& (if !verdict && service_details.expect.if_not is Some {
                let action = &service_details.expect.if_not->Some_0;
                let admitted = step_admitted(old(counters)@, service_name@, action.stop);
                &&& final(counters)@ == step_map(old(counters)@, service_name@, action.stop)
                &&& (admitted ==> opt_str_eq(&v.1.cmd, &action.cmd) && opt_str_eq(
                    &v.1.http,
                    &action.http,
                ))
                &&& (!admitted ==> directive_empty(&v.1))
            } else {
                final(counters)@ == old(counters)@ && directive_empty(&v.1)
            })
        }),
{
    let status_matches = status == service_details.expect.status;

    let body_matches = match &service_details.expect.body {
        None => true,
        Some(p) => {
            let text: &str = match body {
                BodyOutcome::Text(t) => t.as_str(),
                _ => "",
            };
            let matched = pattern_matches(p.as_str(), text)?;
            match body {
                BodyOutcome::Text(_) => matched,
                _ => false,
            }
        },
    };

    let is_match = status_matches && body_matches;

    metrics.set_status(service_name, is_match);

    if !is_match {
        if let Some(action) = &service_details.expect.if_not {
            let directive = fallback_directive(counters, service_name, action);
            return Ok((is_match, directive));
        }
    }
    Ok((is_match, FallbackDirective { cmd: None, http: None }))
}

} // verus!
