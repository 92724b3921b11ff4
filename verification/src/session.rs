//! Browser sessions: a payload that is signed into a cookie and read back from it.

use axum::http::HeaderMap;
use vstd::prelude::*;
use vstd::string::*;
use vstd::utf8::*;

use crate::codec::{
    all_base64url, base64url_decode, base64url_decoded, base64url_encode, base64url_encoded,
    hmac_sha256, hmac_tag, hmac_verify,
};
use crate::headers::{header, header_text, is_visible_text};
use crate::text::{
    lemma_position, lemma_position_is, pieces, position, split, split_at_first, split_once,
    starts_with, strip_prefix, texts, trim, trimmed,
};

verus! {

/// How long a session lasts, in seconds.
pub const SESSION_SECONDS: i64 = 3600;

/// Who is signed in at a browser, and until when, in seconds of Unix time.
pub struct Session {
    pub uid: String,
    pub email: String,
    pub exp: i64,
}

impl Session {
    /// The session that begins now.
    pub fn starting(uid: String, email: String, now: i64) -> (r: Self)
        requires
            now <= i64::MAX - SESSION_SECONDS,
        ensures
            r == session_from(uid, email, now),
    {
        Session { uid, email, exp: now + SESSION_SECONDS }
    }

    /// The session, unless it is over.
    pub fn unexpired(self, now: i64) -> (r: Option<Self>)
        ensures
            r == (if session_alive(self, now) {
                Some(self)
            } else {
                None
            }),
    {
        if self.exp < now {
            None
        } else {
            Some(self)
        }
    }
}

/// The time in seconds: what has passed since the Unix epoch, or zero where the clock
/// stands before it.
pub fn now(since_epoch: Option<u64>) -> (r: i64)
    ensures
        r == (match since_epoch {
            Some(seconds) => seconds as i64,
            None => 0i64,
        }),
{
    match since_epoch {
        Some(seconds) => seconds as i64,
        None => 0,
    }
}

/// The secret that signs sessions where none is configured, which is for development only.
pub const DEV_SECRET: &'static str = "dev-session-secret-change-me-please";

/// The secret that signs sessions: the configured one, even where it is empty.
pub fn session_secret(configured: Option<String>) -> (r: String)
    ensures
        r@ == (match configured {
            Some(secret) => secret@,
            None => DEV_SECRET@,
        }),
{
    match configured {
        Some(secret) => secret,
        None => DEV_SECRET.to_owned(),
    }
}

/// The session that begins at a moment.
pub open spec fn session_from(uid: String, email: String, start: i64) -> Session {
    Session { uid, email, exp: (start + SESSION_SECONDS) as i64 }
}

/// Whether a session is not over yet.
pub open spec fn session_alive(session: Session, now: i64) -> bool {
    now <= session.exp
}

/// The code that signs an encoded payload.
pub open spec fn signature(encoded: Seq<char>, secret: Seq<char>) -> Seq<u8> {
    hmac_sha256(encode_utf8(secret), encode_utf8(encoded))
}

/// A signed payload: the encoded payload, a dot, and the encoded code.
pub open spec fn signed(payload: Seq<u8>, secret: Seq<char>) -> Seq<char> {
    let p = base64url_encoded(payload);
    p + "."@ + base64url_encoded(signature(p, secret))
}

/// The payload of a signed value: there is one exactly where the value holds a dot, what
/// follows it is the code of what precedes it, and that can be decoded.
pub open spec fn opened(value: Seq<char>, secret: Seq<char>) -> Option<Seq<u8>> {
    match split_at_first(value, '.') {
        Some((p, sig)) => if base64url_decoded(sig) == Some(signature(p, secret)) {
            base64url_decoded(p)
        } else {
            None
        },
        None => None,
    }
}

/// Whether a browser that keeps a value as its session cookie is known by it: its cookie
/// header gives the payload back, whether it sends that cookie alone, behind others that are
/// no session, before any others, or between them.
pub open spec fn recognised(value: Seq<char>, payload: Seq<u8>, secret: Seq<char>) -> bool {
    &&& session_payload(Some("iam_session="@ + value), secret) == Some(payload)
    &&& forall|before: Seq<char>|
        session_value(before) is None ==> session_payload(
            Some(#[trigger] (before + "; iam_session="@ + value)),
            secret,
        ) == Some(payload)
    &&& forall|after: Seq<char>|
        session_payload(
            Some(#[trigger] ("iam_session="@ + value + "; "@ + after)),
            secret,
        ) == Some(payload)
    &&& forall|before: Seq<char>, after: Seq<char>|
        session_value(before) is None ==> session_payload(
            Some(#[trigger] (before + "; iam_session="@ + value + "; "@ + after)),
            secret,
        ) == Some(payload)
}

/// Signs a payload. Opening the value with the same secret gives the payload back, and so
/// does the browser that keeps it.
pub fn sign_session(payload: &[u8], secret: &str) -> (r: String)
    requires
        payload@.len() <= usize::MAX / 4,
    ensures
        r@ == signed(payload@, secret@),
        opened(r@, secret@) == Some(payload@),
        is_cookie_value(r@),
        recognised(r@, payload@, secret@),
{
    let p = base64url_encode(payload);
    let tag = hmac_tag(secret.as_bytes(), p.as_str().as_bytes());
    let sig = base64url_encode(tag.as_slice());
    let mut r = p.clone();
    r.append(".");
    r.append(sig.as_str());
    proof {
        reveal_strlit(".");
        let n = p@.len();
        assert forall|i: int| 0 <= i < n implies r@[i] != '.' by {
            assert(r@[i] == p@[i]);
        }
        assert(r@[n as int] == '.');
        lemma_position_is(r@, '.', n);
        assert(r@.take(n as int) =~= p@);
        assert(r@.skip(n as int + 1) =~= sig@);
        assert forall|i: int| 0 <= i < r@.len() implies is_cookie_char(#[trigger] r@[i]) by {
            if i < n {
                assert(r@[i] == p@[i]);
            } else if i > n {
                assert(r@[i] == sig@[i - n - 1]);
            }
        }
        assert(pieces(Seq::empty(), ';') =~= seq![Seq::<char>::empty()]);
        assert(session_value(Seq::empty()) is None) by {
            reveal_strlit("iam_session=");
            reveal_with_fuel(first_session, 2);
        }
        law_session_cookie_found(Seq::empty(), r@, Seq::empty());
        assert forall|before: Seq<char>| session_value(before) is None implies session_payload(
            Some(#[trigger] (before + "; iam_session="@ + r@)),
            secret@,
        ) == Some(payload@) by {
            law_session_cookie_found(before, r@, Seq::empty());
        }
        assert forall|after: Seq<char>|
            session_payload(
                Some(#[trigger] ("iam_session="@ + r@ + "; "@ + after)),
                secret@,
            ) == Some(payload@) by {
            law_session_cookie_found(Seq::empty(), r@, after);
        }
        assert forall|before: Seq<char>, after: Seq<char>| session_value(before) is None implies
            session_payload(
                Some(#[trigger] (before + "; iam_session="@ + r@ + "; "@ + after)),
                secret@,
            ) == Some(payload@) by {
            law_session_cookie_found(before, r@, after);
        }
    }
    r
}

/// Opens a signed value.
pub fn open_session(value: &str, secret: &str) -> (r: Option<Vec<u8>>)
    ensures
        match r {
            Some(payload) => opened(value@, secret@) == Some(payload@),
            None => opened(value@, secret@) is None,
        },
{
    match split_once(value, '.') {
        Some((p, sig)) => match base64url_decode(sig.as_str()) {
            Some(tag) => if hmac_verify(
                secret.as_bytes(),
                p.as_str().as_bytes(),
                tag.as_slice(),
            ) {
                base64url_decode(p.as_str())
            } else {
                None
            },
            None => None,
        },
        None => None,
    }
}

/// A visible ASCII character that does not end a cookie.
pub open spec fn is_cookie_char(c: char) -> bool {
    '!' <= c <= '~' && c != ';'
}

/// Whether a text can stand as the value of a cookie.
pub open spec fn is_cookie_value(value: Seq<char>) -> bool {
    forall|i: int| 0 <= i < value.len() ==> is_cookie_char(#[trigger] value[i])
}

/// The value of the first session cookie among the pieces of a cookie header.
pub open spec fn first_session(cookies: Seq<Seq<char>>) -> Option<Seq<char>>
    decreases cookies.len(),
{
    if cookies.len() == 0 {
        None
    } else if starts_with(trimmed(cookies[0]), "iam_session="@) {
        Some(trimmed(cookies[0]).skip("iam_session="@.len() as int))
    } else {
        first_session(cookies.skip(1))
    }
}

/// The session value in a cookie header.
pub open spec fn session_value(cookies: Seq<char>) -> Option<Seq<char>> {
    first_session(pieces(cookies, ';'))
}

/// Finds the session value in a cookie header.
pub fn find_session(cookies: &str) -> (r: Option<String>)
    ensures
        match r {
            Some(value) => session_value(cookies@) == Some(value@),
            None => session_value(cookies@) is None,
        },
{
    let parts = split(cookies, ';');
    let ghost all = texts(parts@);
    proof {
        assert(all.skip(0) =~= all);
    }
    let mut i: usize = 0;
    while i < parts.len()
        invariant
            i <= parts@.len(),
            all == texts(parts@),
            all == pieces(cookies@, ';'),
            first_session(all) == first_session(all.skip(i as int)),
        decreases parts@.len() - i,
    {
        let cookie = trim(parts[i].as_str());
        assert(all.skip(i as int)[0] == parts@[i as int]@);
        match strip_prefix(cookie.as_str(), "iam_session=") {
            Some(value) => {
                return Some(value);
            },
            None => {},
        }
        assert(all.skip(i as int).skip(1) =~= all.skip(i + 1));
        i = i + 1;
    }
    None
}

/// The payload of the session that a request carries, if its cookie holds one that was
/// signed with the secret.
pub fn parse_session(headers: &HeaderMap, secret: &str) -> (r: Option<Vec<u8>>)
    ensures
        match r {
            Some(payload) => session_payload(header_text(*headers, "cookie"@), secret@) == Some(
                payload@,
            ),
            None => session_payload(header_text(*headers, "cookie"@), secret@) is None,
        },
{
    proof {
        reveal_strlit("cookie");
    }
    match header(headers, "cookie") {
        Some(cookies) => match find_session(cookies.as_str()) {
            Some(value) => open_session(value.as_str(), secret),
            None => None,
        },
        None => None,
    }
}

/// The payload of the session in the text of a cookie header.
pub open spec fn session_payload(cookies: Option<Seq<char>>, secret: Seq<char>) -> Option<
    Seq<u8>,
> {
    match cookies {
        Some(text) => match session_value(text) {
            Some(value) => opened(value, secret),
            None => None,
        },
        None => None,
    }
}

/// The text that sets the session cookie.
pub open spec fn session_cookie_text(value: Seq<char>, secure: bool) -> Seq<char> {
    let base = "iam_session="@ + value + "; HttpOnly; SameSite=Lax; Path=/; Max-Age=3600"@;
    if secure {
        base + "; Secure"@
    } else {
        base
    }
}

/// Writes the text that sets the session cookie.
pub fn session_cookie(value: &str, secure: bool) -> (r: String)
    ensures
        r@ == session_cookie_text(value@, secure),
{
    let mut c = "iam_session=".to_owned();
    c.append(value);
    c.append("; HttpOnly; SameSite=Lax; Path=/; Max-Age=3600");
    if secure {
        c.append("; Secure");
    }
    c
}

/// A text that neither begins nor ends with white space is its own trimmed form.
proof fn lemma_trimmed_cookie(s: Seq<char>)
    requires
        is_cookie_value(s),
    ensures
        trimmed(s) == s,
{
}

/// Cutting at a character that a text does not hold leaves it in one piece.
proof fn lemma_one_piece(s: Seq<char>)
    requires
        is_cookie_value(s),
    ensures
        pieces(s, ';') == seq![s],
{
    lemma_position(s, ';');
}

/// The pieces of two texts around a semicolon are the pieces of the one, then those of the other.
proof fn lemma_pieces_around(a: Seq<char>, b: Seq<char>)
    ensures
        pieces(a + seq![';'] + b, ';') == pieces(a, ';') + pieces(b, ';'),
    decreases a.len(),
{
    let all = a + seq![';'] + b;
    let p = position(a, ';');
    lemma_position(a, ';');
    if p < a.len() {
        lemma_position_is(all, ';', p);
        let rest = a.skip(p as int + 1);
        lemma_pieces_around(rest, b);
        assert(all.take(p as int) =~= a.take(p as int));
        assert(all.skip(p as int + 1) =~= rest + seq![';'] + b);
        assert(pieces(all, ';') =~= pieces(a, ';') + pieces(b, ';'));
    } else {
        lemma_position_is(all, ';', a.len());
        assert(all.take(a.len() as int) =~= a);
        assert(all.skip(a.len() as int + 1) =~= b);
    }
}

/// Where no piece of a list holds a session, the search goes on behind the list.
proof fn lemma_first_session_behind(a: Seq<Seq<char>>, b: Seq<Seq<char>>)
    requires
        first_session(a) is None,
    ensures
        first_session(a + b) == first_session(b),
    decreases a.len(),
{
    if a.len() == 0 {
        assert(a + b =~= b);
    } else {
        assert((a + b).skip(1) =~= a.skip(1) + b);
        lemma_first_session_behind(a.skip(1), b);
    }
}

/// A browser that sends the session cookie back, alone, behind other cookies that are no
/// session, before any others, or between them, is recognised: the value that was set is the
/// value that is found.
pub proof fn law_session_cookie_found(before: Seq<char>, value: Seq<char>, after: Seq<char>)
    requires
        is_cookie_value(value),
        session_value(before) is None,
    ensures
        session_value("iam_session="@ + value) == Some(value),
        session_value(before + "; iam_session="@ + value) == Some(value),
        session_value("iam_session="@ + value + "; "@ + after) == Some(value),
        session_value(before + "; iam_session="@ + value + "; "@ + after) == Some(value),
{
    reveal_strlit("iam_session=");
    reveal_strlit("; iam_session=");
    reveal_strlit("; ");
    let own = "iam_session="@ + value;
    assert(is_cookie_value(own));
    lemma_trimmed_cookie(own);
    lemma_one_piece(own);
    assert(own.take("iam_session="@.len() as int) =~= "iam_session="@);
    assert(own.skip("iam_session="@.len() as int) =~= value);
    let padded = seq![' '] + own;
    assert("; iam_session="@ =~= seq![';'] + (seq![' '] + "iam_session="@));
    assert(before + "; iam_session="@ + value =~= before + seq![';'] + padded);
    lemma_pieces_around(before, padded);
    lemma_position(padded, ';');
    assert forall|i: int| 0 <= i < padded.len() implies padded[i] != ';' by {
        if i > 0 {
            assert(padded[i] == own[i - 1]);
        }
    }
    assert(pieces(padded, ';') =~= seq![padded]);
    assert(padded.skip(1) =~= own);
    assert(trimmed(padded) == trimmed(own));
    lemma_first_session_behind(pieces(before, ';'), seq![padded]);
    let rest = seq![' '] + after;
    assert("; "@ =~= seq![';'] + seq![' ']);
    assert(own + "; "@ + after =~= own + seq![';'] + rest);
    lemma_pieces_around(own, rest);
    assert((seq![own] + pieces(rest, ';'))[0] == own);
    let tail = padded + seq![';'] + rest;
    assert(before + "; iam_session="@ + value + "; "@ + after =~= before + seq![';'] + tail);
    lemma_pieces_around(padded, rest);
    lemma_pieces_around(before, tail);
    assert((seq![padded] + pieces(rest, ';'))[0] == padded);
    lemma_first_session_behind(pieces(before, ';'), pieces(tail, ';'));
}

/// A value is taken for a session only where it is signed: its part behind the dot is the
/// code of its part before the dot.
pub proof fn law_only_signed_values_open(value: Seq<char>, secret: Seq<char>)
    requires
        opened(value, secret) is Some,
    ensures
        position(value, '.') < value.len(),
        base64url_decoded(value.skip(position(value, '.') as int + 1)) == Some(
            signature(value.take(position(value, '.') as int), secret),
        ),
        opened(value, secret) == base64url_decoded(value.take(position(value, '.') as int)),
{
}

/// A session is honoured up to the second in which it ends, and never after.
pub proof fn law_session_lifetime(uid: String, email: String, start: i64, now: i64)
    requires
        start <= i64::MAX - SESSION_SECONDS,
    ensures
        session_alive(session_from(uid, email, start), now) <==> now <= start + 3600,
{
}

/// A session can always be set: the text of its cookie is visible ASCII, as the value of a
/// header has to be.
pub proof fn law_session_cookie_is_a_header_value(value: Seq<char>, secure: bool)
    requires
        is_cookie_value(value),
    ensures
        is_visible_text(session_cookie_text(value, secure)),
{
    reveal_strlit("iam_session=");
    reveal_strlit("; HttpOnly; SameSite=Lax; Path=/; Max-Age=3600");
    reveal_strlit("; Secure");
    let name = "iam_session="@;
    let attributes = "; HttpOnly; SameSite=Lax; Path=/; Max-Age=3600"@;
    let text = session_cookie_text(value, secure);
    assert(is_visible_text(name));
    assert(is_visible_text(attributes));
    assert(is_visible_text("; Secure"@));
    assert forall|i: int| 0 <= i < text.len() implies ' ' <= #[trigger] text[i] <= '~' || text[i]
        == '\t' by {
        let n = name.len() as int;
        let m = n + value.len();
        let k = m + attributes.len();
        if i < n {
            assert(text[i] == name[i]);
        } else if i < m {
            assert(text[i] == value[i - n]);
            assert(is_cookie_char(value[i - n]));
        } else if i < k {
            assert(text[i] == attributes[i - m]);
        } else {
            assert(text[i] == "; Secure"@[i - k]);
        }
    }
}

/// A session that begins is that of its user, and ends an hour later.
pub proof fn law_session_begins(uid: String, email: String, start: i64)
    requires
        start <= i64::MAX - 3600,
    ensures
        session_from(uid, email, start).uid == uid,
        session_from(uid, email, start).email == email,
        session_from(uid, email, start).exp == start + 3600,
        DEV_SECRET@ == "dev-session-secret-change-me-please"@,
{
}

/// A signed payload is the encoded payload and its encoded HMAC under the secret, with a dot
/// between the two.
pub proof fn law_signed(payload: Seq<u8>, secret: Seq<char>)
    ensures
        signed(payload, secret) == base64url_encoded(payload) + "."@ + base64url_encoded(
            hmac_sha256(encode_utf8(secret), encode_utf8(base64url_encoded(payload))),
        ),
{
}

/// A value opens exactly where what follows its first dot decodes to the HMAC, under the
/// secret, of what precedes it; it then gives what that part decodes to.
pub proof fn law_opened(encoded: Seq<char>, code: Seq<char>, secret: Seq<char>)
    requires
        !encoded.contains('.'),
    ensures
        base64url_decoded(code) == Some(hmac_sha256(encode_utf8(secret), encode_utf8(encoded)))
            ==> opened(encoded + seq!['.'] + code, secret) == base64url_decoded(encoded),
        base64url_decoded(code) != Some(hmac_sha256(encode_utf8(secret), encode_utf8(encoded)))
            ==> opened(encoded + seq!['.'] + code, secret) is None,
        opened(encoded, secret) is None,
{
    let value = encoded + seq!['.'] + code;
    lemma_position_is(value, '.', encoded.len());
    assert(value.take(encoded.len() as int) =~= encoded);
    assert(value.skip(encoded.len() as int + 1) =~= code);
    lemma_position(encoded, '.');
}

/// The session value is that of the first cookie named `iam_session`, white space around the
/// cookie aside; where no cookie has that name there is none.
pub proof fn law_session_value(cookies: Seq<Seq<char>>)
    ensures
        match first_session(cookies) {
            Some(value) => exists|i: int|
                {
                    &&& 0 <= i < cookies.len()
                    &&& trimmed(#[trigger] cookies[i]) == "iam_session="@ + value
                    &&& forall|k: int|
                        0 <= k < i ==> !starts_with(trimmed(#[trigger] cookies[k]), "iam_session="@)
                },
            None => forall|k: int|
                0 <= k < cookies.len() ==> !starts_with(
                    trimmed(#[trigger] cookies[k]),
                    "iam_session="@,
                ),
        },
    decreases cookies.len(),
{
    if cookies.len() > 0 {
        let first = trimmed(cookies[0]);
        if starts_with(first, "iam_session="@) {
            assert(first =~= "iam_session="@ + first.skip("iam_session="@.len() as int));
        } else {
            let rest = cookies.skip(1);
            law_session_value(rest);
            match first_session(rest) {
                Some(value) => {
                    let j = choose|i: int|
                        {
                            &&& 0 <= i < rest.len()
                            &&& trimmed(#[trigger] rest[i]) == "iam_session="@ + value
                            &&& forall|k: int|
                                0 <= k < i ==> !starts_with(
                                    trimmed(#[trigger] rest[k]),
                                    "iam_session="@,
                                )
                        };
                    assert(cookies[j + 1] == rest[j]);
                    assert forall|k: int| 0 <= k < j + 1 implies !starts_with(
                        trimmed(#[trigger] cookies[k]),
                        "iam_session="@,
                    ) by {
                        if k > 0 {
                            assert(cookies[k] == rest[k - 1]);
                        }
                    }
                },
                None => {
                    assert forall|k: int| 0 <= k < cookies.len() implies !starts_with(
                        trimmed(#[trigger] cookies[k]),
                        "iam_session="@,
                    ) by {
                        if k > 0 {
                            assert(cookies[k] == rest[k - 1]);
                        }
                    }
                },
            }
        }
    }
}

/// Cookies are parted by semicolons, and a request is known by what its session value opens to.
pub proof fn law_session_payload(cookies: Seq<char>, secret: Seq<char>)
    ensures
        session_value(cookies) == first_session(pieces(cookies, ';')),
        session_value(cookies) is Some ==> session_payload(Some(cookies), secret) == opened(
            session_value(cookies)->0,
            secret,
        ),
        session_value(cookies) is None ==> session_payload(Some(cookies), secret) is None,
        session_payload(None, secret) is None,
{
}

/// The session cookie is kept from scripts and from other sites, for an hour, on every path;
/// over TLS it is kept to TLS, and nothing else changes.
pub proof fn law_session_cookie_attributes(value: Seq<char>)
    ensures
        session_cookie_text(value, false) == "iam_session="@ + value
            + "; HttpOnly; SameSite=Lax; Path=/; Max-Age=3600"@,
        session_cookie_text(value, true) == session_cookie_text(value, false) + "; Secure"@,
{
}

/// Any session is honoured up to its end, and not after.
pub proof fn law_session_is_honoured(session: Session, now: i64)
    ensures
        session_alive(session, now) <==> now <= session.exp,
{
}

} // verus!
