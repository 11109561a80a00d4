//! The TLS certificate expiry check: host and port are taken from the
//! service's URL, the peer's leaf certificate is parsed for its `notAfter`
//! instant, and the seconds remaining — never negative — are recorded in
//! the certificate-expiry gauge.

use vstd::prelude::*;

use crate::metrics::{snap_or_empty, with_cert_expiry, ServiceMetrics};

verus! {

/// Why a certificate check failed.  Connection and handshake failures are
/// the caller's to report; these are the faults of the data itself.
#[derive(Debug, Clone, Copy, PartialEq, Eq, Structural)]
pub enum SslError {
    /// The URL does not parse, names no host, or implies no port.
    InvalidUrl,
    /// The peer's certificate does not parse as X.509.
    CertificateParse,
}

/// The host and port a URL names, when it parses and its scheme implies a
/// default port; a function of the URL text alone.
pub uninterp spec fn url_host_port(s: Seq<char>) -> Option<(Seq<char>, u16)>;

/// Relies on `url::Url::parse`, `url::Url::host_str` and
/// `url::Url::port_or_known_default`: what they yield depends on the URL
/// text alone; the port falls back to the scheme's well-known default
/// (443 for HTTPS) when none is spelled out.
#[verifier::external_body]
pub fn extract_host_port(url: &str) -> (r: Result<(String, u16), SslError>)
    ensures
        r is Ok <==> url_host_port(url@) is Some,
        r matches Ok(hp) ==> url_host_port(url@) == Option::Some((hp.0@, hp.1)),
        r matches Err(e) ==> e == SslError::InvalidUrl,
{
    let parsed = url::Url::parse(url).map_err(|_| SslError::InvalidUrl)?;
    let host = parsed.host_str().ok_or(SslError::InvalidUrl)?.to_string();
    let port = parsed.port_or_known_default().ok_or(SslError::InvalidUrl)?;
    Ok((host, port))
}

/// The `notAfter` validity instant of a DER-encoded X.509 certificate, as
/// seconds since the Unix epoch; a function of the bytes alone, `None` when
/// they do not parse.
pub uninterp spec fn x509_not_after(der: Seq<u8>) -> Option<i64>;

/// Relies on `x509_parser::parse_x509_certificate` and the certificate's
/// `validity().not_after.timestamp()`: the instant a certificate expires is
/// a function of its DER bytes alone.
#[verifier::external_body]
fn cert_not_after_unix(der: &[u8]) -> (r: Result<i64, SslError>)
    ensures
        r is Ok <==> x509_not_after(der@) is Some,
        r matches Ok(t) ==> x509_not_after(der@) == Option::Some(t),
        r matches Err(e) ==> e == SslError::CertificateParse,
{
    match x509_parser::parse_x509_certificate(der) {
        Ok((_, cert)) => Ok(cert.validity().not_after.timestamp()),
        Err(_) => Err(SslError::CertificateParse),
    }
}

/// Seconds from `now` until `not_after`, floored at zero: an expired
/// certificate reports 0, never a negative count and never an error.
pub open spec fn remaining_seconds(not_after: int, now: int) -> int {
    if not_after > now {
        not_after - now
    } else {
        0
    }
}

/// Computes the seconds remaining until a certificate's expiry instant.
pub fn cert_remaining_seconds(not_after: i64, now: u64) -> (r: u64)
    ensures
        r == remaining_seconds(not_after as int, now as int),
{
    if not_after <= 0 {
        0
    } else {
        let na = not_after as u64;
        if na > now {
            na - now
        } else {
            0
        }
    }
}

/// Checks a service's TLS certificate from its leaf DER bytes: parses the
/// expiry instant, computes the seconds remaining at `now_unix`, and sets
/// the service's certificate-expiry gauge.  A certificate that does not
/// parse leaves the gauge untouched and reports the fault; the caller logs
/// it without ever letting it touch the main probe verdict.
pub fn check_ssl_certificate(
    metrics: &mut ServiceMetrics,
    service_name: &str,
    leaf_der: &[u8],
    now_unix: u64,
) -> (r: Result<u64, SslError>)
    requires
        old(metrics).wf(),
    ensures
        final(metrics).wf(),
        r is Ok <==> x509_not_after(leaf_der@) is Some,
        r matches Ok(secs) ==> ({
            &&& secs == remaining_seconds(x509_not_after(leaf_der@)->Some_0 as int, now_unix as int)
            &&& final(metrics)@ == old(metrics)@.insert(
                service_name@,
                with_cert_expiry(snap_or_empty(old(metrics)@, service_name@), secs),
            )
        }),
        r matches Err(e) ==> final(metrics)@ == old(metrics)@ && e == SslError::CertificateParse,
{
    let not_after = cert_not_after_unix(leaf_der)?;
    let remaining = cert_remaining_seconds(not_after, now_unix);
    metrics.set_cert_expiry(service_name, remaining);
    Ok(remaining)
}

} // verus!
