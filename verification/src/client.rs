//! The probe client configuration: each service gets a reusable client
//! with the probe's timeout, a fixed identifying user agent, the service's
//! default headers, and redirects disabled unless asked for.  Declared
//! headers are validated against the HTTP header grammar; a bad one is a
//! fatal configuration error.

use vstd::prelude::*;

use crate::config::ServiceDetails;
use crate::request::declared_headers;

verus! {

/// The identifying user agent attached to every probe request.
pub const APP_USER_AGENT: &'static str = "epazote/0.1.0";

/// A fatal fault in a service's declared headers.
#[derive(Debug, Clone, Copy, PartialEq, Eq, Structural)]
pub enum ClientError {
    /// A declared header name is not a valid HTTP header name.
    InvalidHeaderName,
    /// A declared header value is not a valid HTTP header value.
    InvalidHeaderValue,
}

/// The characters an HTTP header name may hold: ASCII letters, digits, and
/// the token punctuation.
pub open spec fn valid_header_name_char(c: char) -> bool {
    let u = c as u32;
    (48 <= u && u <= 57) || (65 <= u && u <= 90) || (97 <= u && u <= 122) || c == '!' || c == '#'
        || c == '$' || c == '%' || c == '&' || c == '\'' || c == '*' || c == '+' || c == '-'
        || c == '.' || c == '^' || c == '_' || c == '`' || c == '|' || c == '~'
}

/// A valid HTTP header name: non-empty, token characters only.
pub open spec fn valid_header_name(s: Seq<char>) -> bool {
    s.len() > 0 && (forall|i: int| 0 <= i < s.len() ==> valid_header_name_char(s[i]))
}

/// The characters an HTTP header value may hold: everything visible, the
/// space and the horizontal tab; no other control characters.
pub open spec fn valid_header_value_char(c: char) -> bool {
    let u = c as u32;
    u == 9 || (u >= 32 && u != 127)
}

/// A valid HTTP header value.
pub open spec fn valid_header_value(s: Seq<char>) -> bool {
    forall|i: int| 0 <= i < s.len() ==> valid_header_value_char(s[i])
}

/// The first fault in a list of declared headers, scanning pairs in order,
/// each pair's name before its value.
pub open spec fn header_fault(hs: Seq<(String, String)>) -> Option<ClientError>
    decreases hs.len(),
{
    if hs.len() == 0 {
        Option::None
    } else if !valid_header_name(hs[0].0@) {
        Option::Some(ClientError::InvalidHeaderName)
    } else if !valid_header_value(hs[0].1@) {
        Option::Some(ClientError::InvalidHeaderValue)
    } else {
        header_fault(hs.drop_first())
    }
}

fn check_header_name(s: &str) -> (r: bool)
    ensures
        r == valid_header_name(s@),
{
    let n = s.unicode_len();
    if n == 0 {
        return false;
    }
    let mut i: usize = 0;
    while i < n
        invariant
            0 <= i <= n,
            n == s@.len(),
            forall|k: int| 0 <= k < i ==> valid_header_name_char(s@[k]),
        decreases n - i,
    {
        let c = s.get_char(i);
        let u = c as u32;
        let ok = (48 <= u && u <= 57) || (65 <= u && u <= 90) || (97 <= u && u <= 122) || c == '!'
            || c == '#' || c == '$' || c == '%' || c == '&' || c == '\'' || c == '*' || c == '+'
            || c == '-' || c == '.' || c == '^' || c == '_' || c == '`' || c == '|' || c == '~';
        if !ok {
            return false;
        }
        i = i + 1;
    }
    true
}

fn check_header_value(s: &str) -> (r: bool)
    ensures
        r == valid_header_value(s@),
{
    let n = s.unicode_len();
    let mut i: usize = 0;
    while i < n
        invariant
            0 <= i <= n,
            n == s@.len(),
            forall|k: int| 0 <= k < i ==> valid_header_value_char(s@[k]),
        decreases n - i,
    {
        let u = s.get_char(i) as u32;
        if !(u == 9 || (u >= 32 && u != 127)) {
            return false;
        }
        i = i + 1;
    }
    true
}

fn validate_headers(hs: &Vec<(String, String)>) -> (r: Result<(), ClientError>)
    ensures
        r is Ok <==> header_fault(hs@) is None,
        r matches Err(e) ==> header_fault(hs@) == Option::Some(e),
{
    let n = hs.len();
    proof {
        assert(hs@.skip(0) =~= hs@);
    }
    let mut i: usize = 0;
    while i < n
        invariant
            0 <= i <= n,
            n == hs@.len(),
            header_fault(hs@) == header_fault(hs@.skip(i as int)),
        decreases n - i,
    {
        proof {
            assert(hs@.skip(i as int)[0] == hs@[i as int]);
        }
        if !check_header_name(hs[i].0.as_str()) {
            return Err(ClientError::InvalidHeaderName);
        }
        if !check_header_value(hs[i].1.as_str()) {
            return Err(ClientError::InvalidHeaderValue);
        }
        proof {
            assert(hs@.skip(i as int).drop_first() =~= hs@.skip(i + 1));
        }
        i = i + 1;
    }
    Ok(())
}

/// What a service's probe client is built from: the probe timeout in
/// seconds, the fixed user agent, whether redirects are followed, and the
/// validated default headers attached to every request.
#[derive(Debug)]
pub struct ClientConfig {
    pub timeout: u64,
    pub user_agent: String,
    pub follow_redirects: bool,
    pub headers: Vec<(String, String)>,
}

/// Builds a service's client configuration.  Redirects are followed only
/// when the service asks for them; left unset, a redirect response is
/// itself an observable probe outcome.  Fails only on a declared header
/// name or value outside the HTTP header grammar — a fatal configuration
/// error, not a per-probe one.
pub fn build_client(service_details: &ServiceDetails) -> (r: Result<ClientConfig, ClientError>)
    ensures
        r is Ok <==> header_fault(declared_headers(service_details)) is None,
        r matches Err(e) ==> header_fault(declared_headers(service_details)) == Option::Some(e),
        r matches Ok(c) ==> ({
            &&& c.timeout == service_details.timeout
            &&& c.user_agent@ == APP_USER_AGENT@
            &&& c.follow_redirects == (service_details.follow_redirects == Option::Some(true))
            &&& c.headers@ == declared_headers(service_details)
        }),
{
    let follow_redirects = match service_details.follow_redirects {
        Some(b) => b,
        None => false,
    };
    let mut headers: Vec<(String, String)> = Vec::new();
    match &service_details.headers {
        None => {
            proof {
                assert(declared_headers(service_details) =~= Seq::<(String, String)>::empty());
                assert(headers@ =~= declared_headers(service_details));
            }
        },
        Some(hs) => {
            if let Err(e) = validate_headers(hs) {
                return Err(e);
            }
            let n = hs.len();
            let mut i: usize = 0;
            while i < n
                invariant
                    0 <= i <= n,
                    n == hs@.len(),
                    headers@.len() == i,
                    service_details.headers == Option::Some(*hs),
                    forall|k: int| 0 <= k < i ==> headers@[k] == hs@[k],
                decreases n - i,
            {
                let key = hs[i].0.clone();
                let val = hs[i].1.clone();
                headers.push((key, val));
                i = i + 1;
            }
            proof {
                assert(headers@ =~= hs@);
            }
        },
    }
    Ok(
        ClientConfig {
            timeout: service_details.timeout,
            user_agent: APP_USER_AGENT.to_owned(),
            follow_redirects,
            headers,
        },
    )
}

} // verus!
