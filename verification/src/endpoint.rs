//! Provider endpoint URLs: what the URL parser reports of them, and the rules
//! for sending credentials to them.
use vstd::prelude::*;
use crate::cli::{all_digits, digits_value};
use crate::config::check_outcome;
use crate::error::{config_error, outcome, ErrorView, RuntimeError};
use crate::text::{eq_ignore_ascii_case, str_eq_ignore_ascii_case, str_equal};

verus! {

/// What the endpoint checks read of a parsed URL.
#[derive(Clone, Debug, PartialEq, Eq)]
pub struct EndpointParts {
    /// The scheme, lower-cased by the parser.
    pub scheme: String,
    /// The user name (empty when there is none).
    pub username: String,
    /// The password, when one is given.
    pub password: Option<String>,
    /// The host as the parser serializes it: a domain, an IPv4 address as four
    /// decimal numbers separated by dots, or an IPv6 address in square brackets.
    pub host: Option<String>,
}

pub open spec fn option_view(o: Option<String>) -> Option<Seq<char>> {
    match o {
        Some(s) => Some(s@),
        None => None,
    }
}

pub struct EndpointView {
    pub scheme: Seq<char>,
    pub username: Seq<char>,
    pub password: Option<Seq<char>>,
    pub host: Option<Seq<char>>,
}

impl View for EndpointParts {
    type V = EndpointView;

    open spec fn view(&self) -> EndpointView {
        EndpointView {
            scheme: self.scheme@,
            username: self.username@,
            password: option_view(self.password),
            host: option_view(self.host),
        }
    }
}

/// What `reqwest::Url::parse` (the `url` crate's WHATWG parser) makes of a text:
/// the parts the endpoint checks read, or the parse error's message.
pub uninterp spec fn url_parse(input: Seq<char>) -> Result<EndpointView, Seq<char>>;

/// `reqwest::Url::parse`, with the parsed URL's `scheme`, `username`, `password`
/// and `host_str` read out, or the error's display text. Claimed: the
/// outcome is `url_parse(endpoint@)`, a function of the text alone. Nothing more
/// is stated of the parser.
#[verifier::external_body]
fn parse_endpoint(endpoint: &str) -> (r: Result<EndpointParts, String>)
    ensures
        match r {
            Ok(parts) => url_parse(endpoint@) == Ok::<EndpointView, Seq<char>>(parts@),
            Err(message) => url_parse(endpoint@) == Err::<EndpointView, Seq<char>>(message@),
        },
{
    match reqwest::Url::parse(endpoint) {
        Ok(url) => Ok(EndpointParts {
            scheme: url.scheme().to_string(),
            username: url.username().to_string(),
            password: url.password().map(str::to_string),
            host: url.host_str().map(str::to_string),
        }),
        Err(error) => Err(error.to_string()),
    }
}

/// One field of a dotted-decimal IPv4 address as std's `Ipv4Addr` parser reads
/// it: one to three decimal digits, no leading zero unless the field is `0`,
/// and a value of at most 255.
pub open spec fn octet_text(s: Seq<char>) -> bool {
    &&& 1 <= s.len() <= 3
    &&& all_digits(s)
    &&& (s.len() == 1 || s[0] != '0')
    &&& digits_value(s) <= 255
}

/// The index of the first `.` at `i` or later, or the length when there is none.
pub open spec fn first_dot_from(s: Seq<char>, i: int) -> int
    decreases s.len() - i,
{
    if i < 0 || i >= s.len() {
        s.len() as int
    } else if s[i] == '.' {
        i
    } else {
        first_dot_from(s, i + 1)
    }
}

/// The text from `start` on is `n` IPv4 fields separated by single dots.
pub open spec fn dotted_octets(s: Seq<char>, start: int, n: nat) -> bool
    decreases n,
{
    let d = first_dot_from(s, start);
    if n <= 1 {
        d == s.len() && octet_text(s.subrange(start, d))
    } else {
        d < s.len() && octet_text(s.subrange(start, d)) && dotted_octets(s, d + 1, (n - 1) as nat)
    }
}

/// The text is an IPv4 address in 127.0.0.0/8, the loopback block.
pub open spec fn ipv4_loopback_text(s: Seq<char>) -> bool {
    dotted_octets(s, 0, 4) && s.subrange(0, first_dot_from(s, 0)) == "127"@
}

/// Whether the host is the local machine: `localhost` in any ASCII case, or an
/// IPv4 loopback address. An IPv6 host, which the parser writes in brackets,
/// is not an address to std's parser and never counts.
pub open spec fn host_is_loopback(p: EndpointView) -> bool {
    match p.host {
        Some(h) => eq_ignore_ascii_case(h, "localhost"@) || ipv4_loopback_text(h),
        None => false,
    }
}

/// An endpoint that bearer credentials may be sent to: it parses, and it is
/// reached over HTTPS, or over plain HTTP only when its host is the local machine.
pub open spec fn protected_endpoint(endpoint: Seq<char>) -> bool {
    url_parse(endpoint) matches Ok(p) && (p.scheme == "https"@ || (p.scheme == "http"@
        && host_is_loopback(p)))
}

/// What is wrong with an endpoint: credentials embedded in it; then, when
/// credentials will be attached, a scheme other than `https` unless it is
/// `http` to a loopback host.
pub open spec fn endpoint_problem(p: EndpointView, will_attach_credentials: bool) -> Option<
    ErrorView,
> {
    if p.username.len() != 0 || p.password is Some {
        Some(ErrorView::Config("provider endpoint must not embed credentials"@))
    } else if will_attach_credentials && p.scheme != "https"@ && !(p.scheme == "http"@
        && host_is_loopback(p)) {
        Some(
            ErrorView::Config(
                "bearer credentials require HTTPS; plaintext HTTP is allowed only for loopback endpoints"@,
            ),
        )
    } else {
        None
    }
}

/// The outcome of validating an endpoint text, given what the parser made of it.
pub open spec fn endpoint_outcome(
    parsed: Result<EndpointView, Seq<char>>,
    will_attach_credentials: bool,
) -> Result<(), ErrorView> {
    match parsed {
        Err(message) => Err(ErrorView::Config("invalid provider endpoint: "@ + message)),
        Ok(p) => check_outcome(endpoint_problem(p, will_attach_credentials)),
    }
}

fn first_dot(s: &str, start: usize) -> (r: usize)
    requires
        start <= s@.len(),
    ensures
        r as int == first_dot_from(s@, start as int),
        start <= r <= s@.len(),
{
    let n = s.unicode_len();
    let mut i = start;
    while i < n
        invariant
            n == s@.len(),
            start <= i <= n,
            first_dot_from(s@, start as int) == first_dot_from(s@, i as int),
        decreases n - i,
    {
        if s.get_char(i) == '.' {
            return i;
        }
        i = i + 1;
    }
    i
}

fn is_octet(s: &str, start: usize, end: usize) -> (r: bool)
    requires
        start <= end <= s@.len(),
    ensures
        r == octet_text(s@.subrange(start as int, end as int)),
{
    let ghost t = s@.subrange(start as int, end as int);
    if end - start < 1 || end - start > 3 {
        return false;
    }
    let mut value: u32 = 0;
    let mut i = start;
    while i < end
        invariant
            start <= i <= end <= s@.len(),
            end - start <= 3,
            t == s@.subrange(start as int, end as int),
            value == digits_value(s@.subrange(start as int, i as int)),
            all_digits(s@.subrange(start as int, i as int)),
            i - start == 0 ==> value == 0,
            i - start == 1 ==> value < 10,
            i - start == 2 ==> value < 100,
            i - start == 3 ==> value < 1000,
        decreases end - i,
    {
        let code = s.get_char(i) as u32;
        assert(s@.subrange(start as int, i + 1).drop_last() =~= s@.subrange(start as int, i as int));
        if code < 0x30 || code > 0x39 {
            assert(t[i - start] == s@[i as int]);
            return false;
        }
        value = value * 10 + (code - 0x30);
        assert(all_digits(s@.subrange(start as int, i + 1)));
        i = i + 1;
    }
    if end - start > 1 && s.get_char(start) == '0' {
        return false;
    }
    value <= 255
}

/// Whether a host text is an IPv4 address in the loopback block.
fn is_ipv4_loopback(host: &str) -> (r: bool)
    ensures
        r == ipv4_loopback_text(host@),
{
    proof {
        reveal_strlit("127");
    }
    let n = host.unicode_len();
    let first = first_dot(host, 0);
    let leads_with_127 = first == 3 && host.get_char(0) == '1' && host.get_char(1) == '2'
        && host.get_char(2) == '7';
    assert(leads_with_127 == (host@.subrange(0, first as int) == "127"@)) by {
        let lit = "127"@;
        assert(lit.len() == 3 && lit[0] == '1' && lit[1] == '2' && lit[2] == '7');
        let head = host@.subrange(0, first as int);
        if first == 3 {
            assert(head[0] == host@[0] && head[1] == host@[1] && head[2] == host@[2]);
            if leads_with_127 {
                assert(head =~= lit);
            }
        }
        if head == lit {
            assert(head.len() == 3);
        }
    }
    if !leads_with_127 {
        return false;
    }
    let mut start: usize = 0;
    let mut k: usize = 0;
    while k < 4
        invariant
            n == host@.len(),
            k < 4,
            start <= n,
            host@.subrange(0, first_dot_from(host@, 0)) == "127"@,
            dotted_octets(host@, 0, 4) == dotted_octets(host@, start as int, (4 - k) as nat),
        decreases 4 - k,
    {
        let d = first_dot(host, start);
        if !is_octet(host, start, d) {
            return false;
        }
        if k == 3 {
            return d == n;
        }
        if d == n {
            return false;
        }
        start = d + 1;
        k = k + 1;
    }
    false
}

/// Whether a parsed endpoint's host is the local machine.
pub fn endpoint_is_loopback(parts: &EndpointParts) -> (r: bool)
    ensures
        r == host_is_loopback(parts@),
{
    match &parts.host {
        Some(host) => str_eq_ignore_ascii_case(host.as_str(), "localhost") || is_ipv4_loopback(
            host.as_str(),
        ),
        None => false,
    }
}

/// The checks on a parsed endpoint.
pub fn check_endpoint_parts(parts: &EndpointParts, will_attach_credentials: bool) -> (r: Result<
    (),
    RuntimeError,
>)
    ensures
        outcome(r) == check_outcome(endpoint_problem(parts@, will_attach_credentials)),
{
    if !parts.username.as_str().is_empty() || parts.password.is_some() {
        return Err(config_error("provider endpoint must not embed credentials"));
    }
    if will_attach_credentials && !str_equal(parts.scheme.as_str(), "https") && !(str_equal(
        parts.scheme.as_str(),
        "http",
    ) && endpoint_is_loopback(parts)) {
        return Err(
            config_error(
                "bearer credentials require HTTPS; plaintext HTTP is allowed only for loopback endpoints",
            ),
        );
    }
    Ok(())
}

/// Parses an endpoint and checks it.
pub fn validate_endpoint(endpoint: &str, will_attach_credentials: bool) -> (r: Result<
    (),
    RuntimeError,
>)
    ensures
        outcome(r) == endpoint_outcome(url_parse(endpoint@), will_attach_credentials),
{
    match parse_endpoint(endpoint) {
        Ok(parts) => check_endpoint_parts(&parts, will_attach_credentials),
        Err(message) => {
            let mut text = "invalid provider endpoint: ".to_owned();
            text.append(message.as_str());
            Err(RuntimeError::Config(text))
        },
    }
}

} // verus!
