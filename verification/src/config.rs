//! The service data model: probe definitions, expectations, fallback action
//! descriptors, polling durations, and the load-time validation that every
//! service defines exactly one probe kind.

use vstd::prelude::*;

use crate::text::{ci_eq, str_eq};

verus! {

/// A configuration fault, fatal at load time.
#[derive(Debug, Clone, Copy, PartialEq, Eq, Structural)]
pub enum ConfigError {
    /// A duration string holds no parseable number, or one too large.
    InvalidDurationNumber,
    /// A duration string ends in an unknown unit.
    InvalidDurationUnit,
    /// An HTTP method name matches none of the known methods.
    InvalidMethod,
    /// A service declares both a probe URL and a probe command.
    BothUrlAndTest,
    /// A service declares neither a probe URL nor a probe command.
    MissingUrlAndTest,
    /// Two services carry the same name.
    DuplicateServiceName,
}

/// The HTTP methods a probe may use.
#[derive(Debug, Clone, Copy, PartialEq, Eq, Structural)]
pub enum HttpMethod {
    Connect,
    Delete,
    Get,
    Head,
    Options,
    Patch,
    Post,
    Put,
    Trace,
}

/// The upper-case name of an HTTP method.
pub open spec fn method_name(m: HttpMethod) -> Seq<char> {
    match m {
        HttpMethod::Connect => "CONNECT"@,
        HttpMethod::Delete => "DELETE"@,
        HttpMethod::Get => "GET"@,
        HttpMethod::Head => "HEAD"@,
        HttpMethod::Options => "OPTIONS"@,
        HttpMethod::Patch => "PATCH"@,
        HttpMethod::Post => "POST"@,
        HttpMethod::Put => "PUT"@,
        HttpMethod::Trace => "TRACE"@,
    }
}

/// The method whose name a string carries, compared without regard to ASCII
/// case.
pub open spec fn parse_method(s: Seq<char>) -> Option<HttpMethod> {
    if ci_eq(s, "CONNECT"@) {
        Option::Some(HttpMethod::Connect)
    } else if ci_eq(s, "DELETE"@) {
        Option::Some(HttpMethod::Delete)
    } else if ci_eq(s, "GET"@) {
        Option::Some(HttpMethod::Get)
    } else if ci_eq(s, "HEAD"@) {
        Option::Some(HttpMethod::Head)
    } else if ci_eq(s, "OPTIONS"@) {
        Option::Some(HttpMethod::Options)
    } else if ci_eq(s, "PATCH"@) {
        Option::Some(HttpMethod::Patch)
    } else if ci_eq(s, "POST"@) {
        Option::Some(HttpMethod::Post)
    } else if ci_eq(s, "PUT"@) {
        Option::Some(HttpMethod::Put)
    } else if ci_eq(s, "TRACE"@) {
        Option::Some(HttpMethod::Trace)
    } else {
        Option::None
    }
}

impl HttpMethod {
    /// The method's canonical upper-case name.
    pub fn as_str(&self) -> (r: &'static str)
        ensures
            r@ == method_name(*self),
    {
        match self {
            HttpMethod::Connect => "CONNECT",
            HttpMethod::Delete => "DELETE",
            HttpMethod::Get => "GET",
            HttpMethod::Head => "HEAD",
            HttpMethod::Options => "OPTIONS",
            HttpMethod::Patch => "PATCH",
            HttpMethod::Post => "POST",
            HttpMethod::Put => "PUT",
            HttpMethod::Trace => "TRACE",
        }
    }

    /// The method's canonical upper-case name, as an owned string.
    pub fn to_string(&self) -> (r: String)
        ensures
            r@ == method_name(*self),
    {
        String::from_str(self.as_str())
    }

    /// Parses a method name without regard to ASCII case.
    pub fn from_str(s: &str) -> (r: Result<HttpMethod, ConfigError>)
        ensures
            r matches Ok(m) ==> parse_method(s@) == Option::Some(m),
            r is Err <==> parse_method(s@) is None,
            r matches Err(e) ==> e == ConfigError::InvalidMethod,
    {
        if Self::matches_name(s, "CONNECT") {
            Ok(HttpMethod::Connect)
        } else if Self::matches_name(s, "DELETE") {
            Ok(HttpMethod::Delete)
        } else if Self::matches_name(s, "GET") {
            Ok(HttpMethod::Get)
        } else if Self::matches_name(s, "HEAD") {
            Ok(HttpMethod::Head)
        } else if Self::matches_name(s, "OPTIONS") {
            Ok(HttpMethod::Options)
        } else if Self::matches_name(s, "PATCH") {
            Ok(HttpMethod::Patch)
        } else if Self::matches_name(s, "POST") {
            Ok(HttpMethod::Post)
        } else if Self::matches_name(s, "PUT") {
            Ok(HttpMethod::Put)
        } else if Self::matches_name(s, "TRACE") {
            Ok(HttpMethod::Trace)
        } else {
            Err(ConfigError::InvalidMethod)
        }
    }

    fn matches_name(s: &str, name: &str) -> (r: bool)
        ensures
            r == ci_eq(s@, name@),
    {
        crate::text::eq_ignore_ascii_case(s, name)
    }
}

/// The default probe method.
pub fn default_http_method() -> (r: HttpMethod)
    ensures
        r == HttpMethod::Get,
{
    HttpMethod::Get
}

/// The default probe timeout, in seconds.
pub fn default_timeout() -> (r: u64)
    ensures
        r == 5,
{
    5
}

/// An outbound request body: structured JSON (already serialized), form
/// key-value pairs, or raw text.
#[derive(Debug)]
pub enum BodyType {
    Json(String),
    Form(Vec<(String, String)>),
    Text(String),
}

/// The fallback action descriptor: a shell command and/or an HTTP GET to
/// issue on a negative verdict, with an optional lifetime attempt cap.
#[derive(Debug, Default)]
pub struct Action {
    pub cmd: Option<String>,
    pub http: Option<String>,
    pub stop: Option<usize>,
}

/// The success criteria of a probe: the expected HTTP status (or command
/// exit code), optional expected headers, an optional body pattern, and the
/// fallback action for a negative verdict.
#[derive(Debug)]
pub struct Expect {
    pub status: u16,
    pub header: Option<Vec<(String, String)>>,
    pub body: Option<String>,
    pub if_not: Option<Action>,
}

/// One configured service, immutable after load.  Durations are held in
/// seconds.
#[derive(Debug)]
pub struct ServiceDetails {
    pub every: u64,
    pub expect: Expect,
    pub follow_redirects: Option<bool>,
    pub headers: Option<Vec<(String, String)>>,
    pub max_bytes: Option<usize>,
    pub test: Option<String>,
    pub timeout: u64,
    pub url: Option<String>,
    pub method: HttpMethod,
    pub body: Option<BodyType>,
}

/// A service is valid when it defines exactly one probe kind: a URL or a
/// command, never both, never neither.
pub open spec fn service_valid(d: &ServiceDetails) -> bool {
    (d.url is Some && d.test is None) || (d.url is None && d.test is Some)
}

impl ServiceDetails {
    /// Checks that exactly one of `url` and `test` is present.
    pub fn validate(&self) -> (r: Result<(), ConfigError>)
        ensures
            r is Ok <==> service_valid(self),
            r matches Err(e) ==> e == (if self.url is Some {
                ConfigError::BothUrlAndTest
            } else {
                ConfigError::MissingUrlAndTest
            }),
    {
        match (&self.url, &self.test) {
            (Some(_), Some(_)) => Err(ConfigError::BothUrlAndTest),
            (None, None) => Err(ConfigError::MissingUrlAndTest),
            _ => Ok(()),
        }
    }
}

/// The validated service list, keyed by unique service names.
#[derive(Debug)]
pub struct Config {
    pub services: Vec<(String, ServiceDetails)>,
}

/// Every service is valid and no name is repeated.
pub open spec fn config_wf(services: Seq<(String, ServiceDetails)>) -> bool {
    &&& forall|i: int| 0 <= i < services.len() ==> service_valid(&services[i].1)
    &&& forall|i: int, j: int|
        0 <= i < j < services.len() ==> services[i].0@ != services[j].0@
}

impl Config {
    /// Validates a loaded service list: every service must define exactly
    /// one probe kind, and no two services may share a name.
    pub fn new(services: Vec<(String, ServiceDetails)>) -> (r: Result<Config, ConfigError>)
        ensures
            r is Ok <==> config_wf(services@),
            r matches Ok(c) ==> c.services@ == services@,
    {
        let n = services.len();
        let mut i: usize = 0;
        while i < n
            invariant
                0 <= i <= n,
                n == services@.len(),
                forall|k: int| 0 <= k < i ==> service_valid(&services@[k].1),
                forall|a: int, b: int| 0 <= a < b < i ==> services@[a].0@ != services@[b].0@,
            decreases n - i,
        {
            if let Err(e) = services[i].1.validate() {
                return Err(e);
            }
            let mut j: usize = 0;
            while j < i
                invariant
                    0 <= j <= i < n,
                    n == services@.len(),
                    forall|b: int| 0 <= b < j ==> services@[b].0@ != services@[i as int].0@,
                decreases i - j,
            {
                if str_eq(services[j].0.as_str(), services[i].0.as_str()) {
                    return Err(ConfigError::DuplicateServiceName);
                }
                j = j + 1;
            }
            i = i + 1;
        }
        Ok(Config { services })
    }

    /// The service registered under a name, if any.
    pub fn get_service(&self, service_name: &str) -> (r: Option<&ServiceDetails>)
        ensures
            r matches Some(s) ==> exists|i: int|
                0 <= i < self.services@.len() && self.services@[i].0@ == service_name@ && s
                    == &self.services@[i].1,
            r is None ==> forall|i: int|
                0 <= i < self.services@.len() ==> self.services@[i].0@ != service_name@,
    {
        let n = self.services.len();
        let mut i: usize = 0;
        while i < n
            invariant
                0 <= i <= n,
                n == self.services@.len(),
                forall|k: int| 0 <= k < i ==> self.services@[k].0@ != service_name@,
            decreases n - i,
        {
            if str_eq(self.services[i].0.as_str(), service_name) {
                return Some(&self.services[i].1);
            }
            i = i + 1;
        }
        None
    }
}

/// Whether a character is an ASCII decimal digit.
pub open spec fn is_digit(c: char) -> bool {
    48 <= c as u32 && c as u32 <= 57
}

/// Every character is an ASCII decimal digit.
pub open spec fn all_digits(s: Seq<char>) -> bool {
    forall|i: int| 0 <= i < s.len() ==> is_digit(s[i])
}

/// The number a digit string denotes.
pub open spec fn digits_val(s: Seq<char>) -> int
    decreases s.len(),
{
    if s.len() == 0 {
        0
    } else {
        digits_val(s.drop_last()) * 10 + (s.last() as u32 - 48)
    }
}

/// Seconds per duration unit: `s`, `m`, `h` or `d`.
pub open spec fn unit_mult(c: char) -> Option<int> {
    if c == 's' {
        Option::Some(1int)
    } else if c == 'm' {
        Option::Some(60int)
    } else if c == 'h' {
        Option::Some(3600int)
    } else if c == 'd' {
        Option::Some(86400int)
    } else {
        Option::None
    }
}

/// What parsing a duration string yields: the number of seconds it denotes,
/// or the configuration error it raises.  The number must be non-empty, all
/// digits, and the seconds must fit a 64-bit count.
pub open spec fn parse_duration_spec(s: Seq<char>) -> Result<u64, ConfigError> {
    if s.len() == 0 {
        Result::Err(ConfigError::InvalidDurationNumber)
    } else {
        let num = s.drop_last();
        let unit = s.last();
        if num.len() == 0 || !all_digits(num) || digits_val(num) > u64::MAX {
            Result::Err(ConfigError::InvalidDurationNumber)
        } else if unit_mult(unit) is None {
            Result::Err(ConfigError::InvalidDurationUnit)
        } else if digits_val(num) * unit_mult(unit)->Some_0 > u64::MAX {
            Result::Err(ConfigError::InvalidDurationNumber)
        } else {
            Result::Ok((digits_val(num) * unit_mult(unit)->Some_0) as u64)
        }
    }
}

proof fn lemma_digits_val_nonneg(s: Seq<char>)
    requires
        all_digits(s),
    ensures
        digits_val(s) >= 0,
    decreases s.len(),
{
    if s.len() > 0 {
        assert(forall|i: int| 0 <= i < s.drop_last().len() ==> is_digit(s.drop_last()[i]));
        lemma_digits_val_nonneg(s.drop_last());
    }
}

proof fn lemma_digits_val_take_step(s: Seq<char>, i: int)
    requires
        0 <= i < s.len(),
    ensures
        digits_val(s.take(i + 1)) == digits_val(s.take(i)) * 10 + (s[i] as u32 - 48),
{
    assert(s.take(i + 1).drop_last() =~= s.take(i));
    assert(s.take(i + 1).last() == s[i]);
}

proof fn lemma_digits_val_grows(s: Seq<char>, i: int)
    requires
        all_digits(s),
        0 <= i <= s.len(),
    ensures
        digits_val(s) >= digits_val(s.take(i)),
        digits_val(s.take(i)) >= 0,
    decreases s.len() - i,
{
    assert(forall|k: int| 0 <= k < s.take(i).len() ==> is_digit(s.take(i)[k]));
    lemma_digits_val_nonneg(s.take(i));
    if i < s.len() {
        lemma_digits_val_take_step(s, i);
        lemma_digits_val_grows(s, i + 1);
        assert(digits_val(s.take(i + 1)) >= digits_val(s.take(i)));
    } else {
        assert(s.take(i) =~= s);
    }
}

/// Parses a digit string into a 64-bit number.
fn parse_u64(s: &str) -> (r: Result<u64, ConfigError>)
    ensures
        r matches Ok(v) ==> s@.len() > 0 && all_digits(s@) && digits_val(s@) == v,
        r is Err <==> (s@.len() == 0 || !all_digits(s@) || digits_val(s@) > u64::MAX),
        r matches Err(e) ==> e == ConfigError::InvalidDurationNumber,
{
    let n = s.unicode_len();
    if n == 0 {
        return Err(ConfigError::InvalidDurationNumber);
    }
    let mut acc: u64 = 0;
    proof {
        assert(s@.take(0) =~= Seq::<char>::empty());
    }
    let mut i: usize = 0;
    while i < n
        invariant
            0 <= i <= n,
            n == s@.len(),
            all_digits(s@.take(i as int)),
            acc == digits_val(s@.take(i as int)),
        decreases n - i,
    {
        let u = s.get_char(i) as u32;
        if !(48 <= u && u <= 57) {
            return Err(ConfigError::InvalidDurationNumber);
        }
        let d: u64 = (u - 48) as u64;
        if acc > (u64::MAX - d) / 10 {
            proof {
                lemma_digits_val_take_step(s@, i as int);
                assert(acc * 10 + d > u64::MAX) by (nonlinear_arith)
                    requires
                        acc > (u64::MAX - d) / 10,
                        d <= 9,
                ;
                assert(forall|k: int| 0 <= k < i + 1 ==> is_digit(#[trigger] s@.take(i + 1)[k]));
                if all_digits(s@) {
                    lemma_digits_val_grows(s@, i + 1);
                }
            }
            return Err(ConfigError::InvalidDurationNumber);
        }
        proof {
            lemma_digits_val_take_step(s@, i as int);
            assert(acc * 10 + d <= u64::MAX) by (nonlinear_arith)
                requires
                    acc <= (u64::MAX - d) / 10,
                    d <= 9,
            ;
            assert(forall|k: int| 0 <= k < i + 1 ==> is_digit(#[trigger] s@.take(i + 1)[k]));
        }
        acc = acc * 10 + d;
        i = i + 1;
    }
    proof {
        assert(s@.take(n as int) =~= s@);
    }
    Ok(acc)
}

/// Parses a duration string such as `5s`, `3m`, `1h` or `2d` into seconds.
pub fn parse_duration_str(input: &str) -> (r: Result<u64, ConfigError>)
    ensures
        r == parse_duration_spec(input@),
{
    let n = input.unicode_len();
    if n == 0 {
        return Err(ConfigError::InvalidDurationNumber);
    }
    let num = input.substring_char(0, n - 1);
    proof {
        assert(num@ =~= input@.drop_last());
    }
    let value = parse_u64(num)?;
    let unit = input.get_char(n - 1);
    let mult: u64 = if unit == 's' {
        1
    } else if unit == 'm' {
        60
    } else if unit == 'h' {
        3600
    } else if unit == 'd' {
        86400
    } else {
        return Err(ConfigError::InvalidDurationUnit);
    };
    if value > u64::MAX / mult {
        proof {
            assert(value * mult > u64::MAX) by (nonlinear_arith)
                requires
                    value > u64::MAX / mult,
                    1 <= mult <= 86400,
            ;
        }
        return Err(ConfigError::InvalidDurationNumber);
    }
    proof {
        assert(value * mult <= u64::MAX) by (nonlinear_arith)
            requires
                value <= u64::MAX / mult,
                1 <= mult <= 86400,
        ;
    }
    Ok(value * mult)
}

} // verus!
