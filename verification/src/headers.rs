//! Request and response headers.

use axum::http::{HeaderMap, HeaderValue};
use vstd::prelude::*;
use vstd::string::*;

use crate::text::{lower, same, same_ignoring_case};

verus! {

/// `http::HeaderMap`, as `axum` hands it on: a map from header names to their values.
#[verifier::external_type_specification]
#[verifier::external_body]
#[verifier::reject_recursive_types(T)]
pub struct ExHeaderMap<T>(axum::http::HeaderMap<T>);

/// `http::HeaderValue`.
#[verifier::external_type_specification]
#[verifier::external_body]
pub struct ExHeaderValue(axum::http::HeaderValue);

/// What a header map holds: for each name, in lower case, the bytes of its values in order.
pub uninterp spec fn header_values(headers: HeaderMap) -> Map<Seq<char>, Seq<Seq<u8>>>;

/// A byte that `HeaderValue::to_str` lets through: visible ASCII, the space, or a tab.
pub open spec fn is_visible(b: u8) -> bool {
    32 <= b < 127 || b == 9
}

/// Whether every byte is visible.
pub open spec fn all_visible(bytes: Seq<u8>) -> bool {
    forall|i: int| 0 <= i < bytes.len() ==> is_visible(#[trigger] bytes[i])
}

/// The text of some ASCII bytes.
pub open spec fn ascii_text(bytes: Seq<u8>) -> Seq<char> {
    bytes.map_values(|b: u8| b as char)
}

/// A header name as this crate writes one: lower-case letters and dashes.
pub open spec fn is_plain_name(name: Seq<char>) -> bool {
    forall|i: int| 0 <= i < name.len() ==> ('a' <= #[trigger] name[i] <= 'z' || name[i] == '-')
}

/// The text of the first value under a name, where there is one and it is visible ASCII.
pub open spec fn first_text(values: Map<Seq<char>, Seq<Seq<u8>>>, name: Seq<char>) -> Option<
    Seq<char>,
> {
    if values.contains_key(name) && all_visible(values[name][0]) {
        Some(ascii_text(values[name][0]))
    } else {
        None
    }
}

/// The text of the first value of a header.
pub open spec fn header_text(headers: HeaderMap, name: Seq<char>) -> Option<Seq<char>> {
    first_text(header_values(headers), name)
}

/// `HeaderMap::get`, then `HeaderValue::to_str` on what it found: the first value of the
/// header, where there is one and `to_str` does not report an error.
#[verifier::external_body]
pub(crate) fn header(headers: &HeaderMap, name: &str) -> (r: Option<String>)
    requires
        is_plain_name(name@),
    ensures
        match r {
            Some(text) => first_text(header_values(*headers), name@) == Some(text@),
            None => first_text(header_values(*headers), name@) is None,
        },
{
    match headers.get(name) {
        Some(value) => match value.to_str() {
            Ok(text) => Some(text.to_string()),
            Err(_) => None,
        },
        None => None,
    }
}

/// The ASCII bytes of a text.
pub open spec fn ascii_bytes(text: Seq<char>) -> Seq<u8> {
    text.map_values(|c: char| c as u8)
}

/// Whether every character is visible ASCII, the space, or a tab.
pub open spec fn is_visible_text(text: Seq<char>) -> bool {
    forall|i: int| 0 <= i < text.len() ==> (' ' <= #[trigger] text[i] <= '~' || text[i] == '\t')
}

/// How many names a header map takes with certainty: up to here no insertion makes it
/// outgrow its largest table.
pub const NAMES_LIMIT: usize = 6553;

/// Whether there is certainly room for `n` more names.
pub open spec fn has_room(values: Map<Seq<char>, Seq<Seq<u8>>>, n: nat) -> bool {
    &&& values.dom().finite()
    &&& values.dom().len() + n <= NAMES_LIMIT
}

/// `HeaderMap::try_insert` of a static value (`HeaderValue::from_static`) under a static
/// name. Where it succeeds, the value becomes the only one of that name, and every other
/// name keeps its own; where it reports that the map cannot grow, the map holds what it
/// held. It succeeds wherever there is certainly room. Beyond that the outcome rests on how
/// the names lie in the map's table, and nothing is said of it.
#[verifier::external_body]
pub(crate) fn set_header(headers: &mut HeaderMap, name: &'static str, value: &'static str) -> (r:
    bool)
    requires
        is_plain_name(name@),
        0 < name@.len() <= 64,
        is_visible_text(value@),
    ensures
        has_room(header_values(*old(headers)), 1) ==> r,
        r ==> header_values(*final(headers)) == header_values(*old(headers)).insert(
            name@,
            seq![ascii_bytes(value@)],
        ),
        !r ==> header_values(*final(headers)) == header_values(*old(headers)),
{
    headers.try_insert(name, HeaderValue::from_static(value)).is_ok()
}

/// Whether the edge says that the request came over https, in exactly these letters.
pub fn is_secure(headers: &HeaderMap) -> (r: bool)
    ensures
        r == (header_text(*headers, "x-forwarded-proto"@) == Some("https"@)),
{
    proof {
        reveal_strlit("x-forwarded-proto");
    }
    match header(headers, "x-forwarded-proto") {
        Some(proto) => same(proto.as_str(), "https"),
        None => false,
    }
}

/// Whether the edge says that the request came over https, in any letter case.
pub fn edge_terminated_tls(headers: &HeaderMap) -> (r: bool)
    ensures
        r == (header_text(*headers, "x-forwarded-proto"@) matches Some(proto) && lower(proto)
            == lower("https"@)),
{
    proof {
        reveal_strlit("x-forwarded-proto");
    }
    match header(headers, "x-forwarded-proto") {
        Some(proto) => same_ignoring_case(proto.as_str(), "https"),
        None => false,
    }
}

/// The headers of a response after the first `n` security headers were set, in their order.
pub open spec fn first_secured(values: Map<Seq<char>, Seq<Seq<u8>>>, n: int) -> Map<
    Seq<char>,
    Seq<Seq<u8>>,
> {
    let v1 = if n >= 1 {
        values.insert("x-content-type-options"@, seq![ascii_bytes("nosniff"@)])
    } else {
        values
    };
    let v2 = if n >= 2 {
        v1.insert("x-frame-options"@, seq![ascii_bytes("DENY"@)])
    } else {
        v1
    };
    let v3 = if n >= 3 {
        v2.insert("referrer-policy"@, seq![ascii_bytes("no-referrer"@)])
    } else {
        v2
    };
    if n >= 4 {
        v3.insert(
            "strict-transport-security"@,
            seq![ascii_bytes("max-age=31536000; includeSubDomains"@)],
        )
    } else {
        v3
    }
}

/// How many security headers there are.
pub open spec fn security_count(https: bool) -> int {
    if https {
        4
    } else {
        3
    }
}

/// The headers of a response after all security headers were set.
pub open spec fn secured(values: Map<Seq<char>, Seq<Seq<u8>>>, https: bool) -> Map<
    Seq<char>,
    Seq<Seq<u8>>,
> {
    first_secured(values, security_count(https))
}

/// Sets conservative security headers on a response: no MIME sniffing, no framing, no
/// referrer, and, where the edge terminated TLS, HSTS. Stops, and says so, at the first one
/// that the map cannot take any more.
pub fn security_headers(headers: &mut HeaderMap, https: bool) -> (done: bool)
    ensures
        has_room(header_values(*old(headers)), 4) ==> done,
        done ==> header_values(*final(headers)) == secured(header_values(*old(headers)), https),
        !done ==> exists|n: int|
            0 <= n < security_count(https) && header_values(*final(headers))
                == #[trigger] first_secured(header_values(*old(headers)), n),
{
    proof {
        reveal_strlit("x-content-type-options");
        reveal_strlit("nosniff");
        reveal_strlit("x-frame-options");
        reveal_strlit("DENY");
        reveal_strlit("referrer-policy");
        reveal_strlit("no-referrer");
        reveal_strlit("strict-transport-security");
        reveal_strlit("max-age=31536000; includeSubDomains");
    }
    let ghost values = header_values(*headers);
    if !set_header(headers, "x-content-type-options", "nosniff") {
        assert(header_values(*headers) == first_secured(values, 0));
        return false;
    }
    if !set_header(headers, "x-frame-options", "DENY") {
        assert(header_values(*headers) == first_secured(values, 1));
        return false;
    }
    if !set_header(headers, "referrer-policy", "no-referrer") {
        assert(header_values(*headers) == first_secured(values, 2));
        return false;
    }
    if https && !set_header(
        headers,
        "strict-transport-security",
        "max-age=31536000; includeSubDomains",
    ) {
        assert(header_values(*headers) == first_secured(values, 3));
        return false;
    }
    true
}

/// Every response ends up with the security headers, and with nothing else under their
/// names; HSTS is set exactly where the request came over TLS, and no other header changes.
pub proof fn law_security_headers_are_set(values: Map<Seq<char>, Seq<Seq<u8>>>, https: bool)
    ensures
        secured(values, https)["x-content-type-options"@] == seq![ascii_bytes("nosniff"@)],
        secured(values, https)["x-frame-options"@] == seq![ascii_bytes("DENY"@)],
        secured(values, https)["referrer-policy"@] == seq![ascii_bytes("no-referrer"@)],
        https ==> secured(values, https)["strict-transport-security"@] == seq![
            ascii_bytes("max-age=31536000; includeSubDomains"@),
        ],
        forall|name: Seq<char>|
            name != "x-content-type-options"@ && name != "x-frame-options"@ && name
                != "referrer-policy"@ && (!https || name != "strict-transport-security"@) ==> {
                &&& #[trigger] secured(values, https).contains_key(name) == values.contains_key(
                    name,
                )
                &&& values.contains_key(name) ==> secured(values, https)[name] == values[name]
            },
{
    reveal_strlit("x-content-type-options");
    reveal_strlit("x-frame-options");
    reveal_strlit("referrer-policy");
    reveal_strlit("strict-transport-security");
    assert("x-content-type-options"@.len() == 22);
    assert("x-frame-options"@.len() == 15 && "referrer-policy"@.len() == 15);
    assert("x-frame-options"@[0] != "referrer-policy"@[0]);
    assert("strict-transport-security"@.len() == 25);
}

/// The text of a header is that of its first value, character by character, where there is
/// one and all of it is visible ASCII; otherwise there is none.
pub proof fn law_first_text(values: Map<Seq<char>, Seq<Seq<u8>>>, name: Seq<char>)
    ensures
        !values.contains_key(name) ==> first_text(values, name) is None,
        values.contains_key(name) ==> {
            let bytes = values[name][0];
            let readable = forall|i: int|
                0 <= i < bytes.len() ==> (32 <= #[trigger] bytes[i] <= 126 || bytes[i] == 9);
            &&& first_text(values, name) is Some <==> readable
            &&& readable ==> first_text(values, name)->0.len() == bytes.len()
            &&& readable ==> forall|i: int|
                0 <= i < bytes.len() ==> (#[trigger] first_text(values, name)->0[i]) as int
                    == bytes[i] as int
        },
{
    if values.contains_key(name) {
        let bytes = values[name][0];
        let readable = forall|i: int|
            0 <= i < bytes.len() ==> (32 <= #[trigger] bytes[i] <= 126 || bytes[i] == 9);
        if readable {
            assert(all_visible(bytes));
        } else {
            let i = choose|i: int|
                0 <= i < bytes.len() && !(32 <= #[trigger] bytes[i] <= 126 || bytes[i] == 9);
            assert(!is_visible(bytes[i]));
        }
    }
}

/// Over TLS one more header is set than otherwise, and without TLS no HSTS is added.
pub proof fn law_hsts_needs_tls(values: Map<Seq<char>, Seq<Seq<u8>>>)
    ensures
        secured(values, true) == secured(values, false).insert(
            "strict-transport-security"@,
            seq![ascii_bytes("max-age=31536000; includeSubDomains"@)],
        ),
        secured(values, false).contains_key("strict-transport-security"@) == values.contains_key(
            "strict-transport-security"@,
        ),
{
    law_security_headers_are_set(values, false);
    reveal_strlit("x-content-type-options");
    reveal_strlit("x-frame-options");
    reveal_strlit("referrer-policy");
    reveal_strlit("strict-transport-security");
    assert("x-content-type-options"@.len() == 22);
    assert("x-frame-options"@.len() == 15 && "referrer-policy"@.len() == 15);
    assert("strict-transport-security"@.len() == 25);
}

/// The security headers are set one after the other, each alone under its name.
pub proof fn law_security_headers_come_in_order(values: Map<Seq<char>, Seq<Seq<u8>>>)
    ensures
        first_secured(values, 0) == values,
        first_secured(values, 1) == values.insert(
            "x-content-type-options"@,
            seq![ascii_bytes("nosniff"@)],
        ),
        first_secured(values, 2) == first_secured(values, 1).insert(
            "x-frame-options"@,
            seq![ascii_bytes("DENY"@)],
        ),
        first_secured(values, 3) == first_secured(values, 2).insert(
            "referrer-policy"@,
            seq![ascii_bytes("no-referrer"@)],
        ),
        secured(values, false) == first_secured(values, 3),
        secured(values, true) == first_secured(values, 4),
        security_count(false) == 3,
        security_count(true) == 4,
{
}

} // verus!
