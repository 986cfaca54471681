//! Server setup decisions: whether the bind address exposes the API beyond
//! the local machine, and which origins cross-origin requests may come from.
use vstd::prelude::*;
use vstd::string::StringExecFns;
use vstd::string::StringSliceAdditionalSpecFns;
use crate::files::{last_index_below, same_text};
use crate::text::{chars_of, copy_range, string_from_chars};

verus! {

/// A host without the square brackets that enclose an IPv6 address.
pub open spec fn unbracketed(h: Seq<char>) -> Seq<char> {
    if h.len() >= 2 && h[0] == '[' && h.last() == ']' {
        h.subrange(1, h.len() - 1)
    } else {
        h
    }
}

/// The host part of a bind address: what precedes its last ':' (the whole
/// address when it has none), without IPv6 brackets.
pub open spec fn bind_host(addr: Seq<char>) -> Seq<char> {
    unbracketed(
        match last_index_below(addr, ':', addr.len() as int) {
            Some(i) => addr.take(i),
            None => addr,
        },
    )
}

/// Whether a host names the loopback interface.
pub open spec fn is_loopback_host(host: Seq<char>) -> bool {
    host == "127.0.0.1"@ || host == "::1"@ || host == "localhost"@
}

/// The host part of a bind address: the part before the last ':'
/// (`str::rsplit_once(':')`), with the brackets of an IPv6 address such as
/// "[::1]" removed.
pub fn host_of(addr: &str) -> (h: String)
    ensures
        h@ == bind_host(addr@),
{
    let cs = chars_of(addr);
    let mut i: usize = cs.len();
    while i > 0 && cs[i - 1] != ':'
        invariant
            i <= cs@.len(),
            cs@ == addr@,
            last_index_below(addr@, ':', addr@.len() as int) == last_index_below(
                addr@,
                ':',
                i as int,
            ),
        decreases i,
    {
        i = i - 1;
    }
    let n: usize = if i == 0 {
        cs.len()
    } else {
        i - 1
    };
    let ghost raw = addr@.take(n as int);
    assert(raw == match last_index_below(addr@, ':', addr@.len() as int) {
        Some(k) => addr@.take(k),
        None => addr@,
    }) by {
        if i == 0 {
            assert(addr@.take(n as int) =~= addr@);
        }
    }
    if n >= 2 && cs[0] == '[' && cs[n - 1] == ']' {
        let inner = copy_range(cs.as_slice(), 1, n - 1);
        assert(inner@ =~= raw.subrange(1, raw.len() - 1));
        string_from_chars(inner.as_slice())
    } else {
        let head = copy_range(cs.as_slice(), 0, n);
        assert(head@ =~= raw);
        string_from_chars(head.as_slice())
    }
}

/// Whether binding to this address exposes the API to the network, in
/// which case the server warns at startup: true unless the host is
/// 127.0.0.1, ::1 (also written [::1]) or localhost.
pub fn warn_if_network_exposed(bind_addr: &str) -> (exposed: bool)
    ensures
        exposed == !is_loopback_host(bind_host(bind_addr@)),
{
    let host = host_of(bind_addr);
    let local = same_text(host.as_str(), "127.0.0.1") || same_text(host.as_str(), "::1")
        || same_text(host.as_str(), "localhost");
    !local
}

/// The origin used when no usable one was configured.
pub open spec fn default_origin() -> Seq<char> {
    "http://127.0.0.1:3030"@
}

/// The local development origins allowed when a wildcard is requested in
/// development mode.
pub open spec fn dev_origins_spec() -> Seq<Seq<char>> {
    seq![
        "http://localhost:3000"@,
        "http://localhost:3030"@,
        "http://localhost:5173"@,
        "http://127.0.0.1:3000"@,
        "http://127.0.0.1:3030"@,
        "http://127.0.0.1:5173"@,
    ]
}

/// Whether a byte may appear in an HTTP header value: visible ASCII, space,
/// tab, or any byte from 0x80 up.
pub open spec fn header_byte_ok(b: u8) -> bool {
    (b >= 32 && b != 127) || b == 9
}

/// `HeaderValue::from_str` from the http crate (re-exported by axum): it
/// accepts the text exactly when every byte of its UTF-8 encoding is
/// allowed in a header value.
#[verifier::external_body]
fn is_header_value(s: &str) -> (ok: bool)
    ensures
        ok == (forall|i: int| 0 <= i < s.spec_bytes().len() ==> header_byte_ok(
            #[trigger] s.spec_bytes()[i],
        )),
{
    axum::http::HeaderValue::from_str(s).is_ok()
}

/// Why the configured origin was not used as given.
pub enum CorsNotice {
    /// A wildcard outside development mode: the default origin is used.
    WildcardWithoutDev,
    /// A wildcard in development mode: the local development origins are used.
    DevWildcard,
    /// The origin is not a valid header value: the default origin is used.
    InvalidOrigin,
}

/// Which origins cross-origin requests may come from.
pub enum CorsOrigins {
    /// The local development origins.
    LocalDev(Vec<String>),
    /// One origin.
    Single(String),
}

/// The cross-origin policy of the router and the notice to log about it.
pub struct CorsPlan {
    pub origins: CorsOrigins,
    pub notice: Option<CorsNotice>,
}

/// The string views of a list of origins.
pub open spec fn origins_view(v: Seq<String>) -> Seq<Seq<char>> {
    v.map_values(|s: String| s@)
}

/// Decides the cross-origin policy: a wildcard is honoured only in
/// development mode, and then as the local development origins; any other
/// origin is used if it is a valid header value, else the default origin.
pub fn cors_plan(allowed_origin: &str, is_dev: bool) -> (p: CorsPlan)
    ensures
        allowed_origin@ == "*"@ && !is_dev ==> (p.origins matches CorsOrigins::Single(o) && o@
            == default_origin() && p.notice == Some(CorsNotice::WildcardWithoutDev)),
        allowed_origin@ == "*"@ && is_dev ==> (p.origins matches CorsOrigins::LocalDev(v)
            && origins_view(v@) == dev_origins_spec() && p.notice == Some(CorsNotice::DevWildcard)),
        allowed_origin@ != "*"@ ==> (if forall|i: int|
            0 <= i < allowed_origin.spec_bytes().len() ==> header_byte_ok(
                #[trigger] allowed_origin.spec_bytes()[i],
            ) {
            p.origins matches CorsOrigins::Single(o) && o@ == allowed_origin@ && p.notice is None
        } else {
            p.origins matches CorsOrigins::Single(o) && o@ == default_origin() && p.notice
                == Some(CorsNotice::InvalidOrigin)
        }),
{
    if same_text(allowed_origin, "*") {
        if !is_dev {
            return CorsPlan {
                origins: CorsOrigins::Single(String::from_str("http://127.0.0.1:3030")),
                notice: Some(CorsNotice::WildcardWithoutDev),
            };
        }
        let v = vec![
            String::from_str("http://localhost:3000"),
            String::from_str("http://localhost:3030"),
            String::from_str("http://localhost:5173"),
            String::from_str("http://127.0.0.1:3000"),
            String::from_str("http://127.0.0.1:3030"),
            String::from_str("http://127.0.0.1:5173"),
        ];
        assert(origins_view(v@) =~= dev_origins_spec());
        return CorsPlan { origins: CorsOrigins::LocalDev(v), notice: Some(CorsNotice::DevWildcard) };
    }
    if is_header_value(allowed_origin) {
        CorsPlan { origins: CorsOrigins::Single(String::from_str(allowed_origin)), notice: None }
    } else {
        CorsPlan {
            origins: CorsOrigins::Single(String::from_str("http://127.0.0.1:3030")),
            notice: Some(CorsNotice::InvalidOrigin),
        }
    }
}

} // verus!
