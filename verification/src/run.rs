//! Scheduler-side decisions: what an iteration records on a transport
//! error, how a command probe's exit is evaluated, and which URLs get an
//! auxiliary TLS certificate check.  The timing loop itself lives with the
//! caller; every decision it takes comes from here.

use vstd::prelude::*;

use crate::config::ServiceDetails;
use crate::fallback::{
    directive_empty, fallback_directive, opt_str_eq, step_admitted, step_map, AttemptCounters,
    FallbackDirective,
};
use crate::metrics::{snap_or_empty, with_failure, with_status, ServiceMetrics};
use crate::text::{has_prefix, starts_with};

verus! {

/// What the supervisor was asked to do: run the service list of a
/// configuration file and serve metrics on a port.
#[derive(Debug)]
pub enum Action {
    Run { config: String, port: u16 },
}

/// Whether a URL names an HTTPS target, and so gets the auxiliary
/// certificate check.
pub fn is_https_url(url: &str) -> (r: bool)
    ensures
        r == has_prefix(url@, "https://"@),
{
    starts_with(url, "https://")
}

/// Records a probe iteration that raised an execution error: one more
/// failure and the status gauge set to 0.  The scheduler then proceeds to
/// the next tick; nothing unwinds past it.
pub fn record_scan_failure(metrics: &mut ServiceMetrics, service_name: &str)
    requires
        old(metrics).wf(),
    ensures
        final(metrics).wf(),
        final(metrics)@ == old(metrics)@.insert(
            service_name@,
            with_status(with_failure(snap_or_empty(old(metrics)@, service_name@)), false),
        ),
{
    metrics.inc_failures(service_name);
    metrics.set_status(service_name, false);
}

/// The exit code a command probe is judged by: the process's own code, or
/// 1 when it could not run or was ended by a signal.
pub open spec fn exit_value(exit_code: &Option<i32>) -> int {
    match exit_code {
        Option::Some(c) => *c as int,
        Option::None => 1,
    }
}

/// The verdict on a command probe: its exit code equals the expected
/// status.
pub open spec fn command_verdict(d: &ServiceDetails, exit_code: &Option<i32>) -> bool {
    exit_value(exit_code) == d.expect.status as int
}

/// Evaluates a completed command probe: the verdict is exit-code equality
/// against the expected status, the status gauge is set to the verdict, and
/// on a negative verdict with a configured fallback action the attempt
/// counter decides admission, as for an HTTP probe.
pub fn scan_command_result(
    service_name: &str,
    service_details: &ServiceDetails,
    exit_code: Option<i32>,
    metrics: &mut ServiceMetrics,
    counters: &mut AttemptCounters,
) -> (r: (bool, FallbackDirective))
    requires
        old(metrics).wf(),
        old(counters).wf(),
    ensures
        final(metrics).wf(),
        final(counters).wf(),
        r.0 == command_verdict(service_details, &exit_code),
        final(metrics)@ == old(metrics)@.insert(
            service_name@,
            with_status(snap_or_empty(old(metrics)@, service_name@), r.0),
        ),
        (if !r.0 && service_details.expect.if_not is Some {
            let action = &service_details.expect.if_not->Some_0;
            let admitted = step_admitted(old(counters)@, service_name@, action.stop);
            &&& final(counters)@ == step_map(old(counters)@, service_name@, action.stop)
            &&& (admitted ==> opt_str_eq(&r.1.cmd, &action.cmd) && opt_str_eq(
                &r.1.http,
                &action.http,
            ))
            &&& (!admitted ==> directive_empty(&r.1))
        } else {
            final(counters)@ == old(counters)@ && directive_empty(&r.1)
        }),
{
    let exit: i32 = match exit_code {
        Some(c) => c,
        None => 1,
    };
    let is_match = exit == service_details.expect.status as i32;

    metrics.set_status(service_name, is_match);

    if !is_match {
        if let Some(action) = &service_details.expect.if_not {
            let directive = fallback_directive(counters, service_name, action);
            return (is_match, directive);
        }
    }
    (is_match, FallbackDirective { cmd: None, http: None })
}

} // verus!
