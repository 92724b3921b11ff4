//! Encodings and signatures that come from outside crates: base64, HMAC-SHA-256
//! and form encoding. What each of them computes is named or stated here, once.

use base64::engine::general_purpose::{STANDARD, URL_SAFE_NO_PAD};
use base64::Engine;
use hmac::{Hmac, Mac};
use sha2::Sha256;
use vstd::prelude::*;
use vstd::string::*;
use vstd::utf8::*;

use crate::headers::is_visible_text;
use crate::text::joined;

verus! {

/// The url-safe base64 text, without padding, of some bytes.
pub uninterp spec fn base64url_encoded(data: Seq<u8>) -> Seq<char>;

/// The bytes that a url-safe base64 text without padding stands for, if it is one.
pub uninterp spec fn base64url_decoded(text: Seq<char>) -> Option<Seq<u8>>;

/// The bytes that a padded text in the standard base64 alphabet stands for, if it is one.
pub uninterp spec fn base64_decoded(text: Seq<char>) -> Option<Seq<u8>>;

/// The HMAC-SHA-256 of a message under a key.
pub uninterp spec fn hmac_sha256(key: Seq<u8>, message: Seq<u8>) -> Seq<u8>;

/// A character of the url-safe base64 alphabet.
pub open spec fn is_base64url(c: char) -> bool {
    'A' <= c <= 'Z' || 'a' <= c <= 'z' || '0' <= c <= '9' || c == '-' || c == '_'
}

/// Whether a text is made of the url-safe base64 alphabet alone.
pub open spec fn all_base64url(text: Seq<char>) -> bool {
    forall|i: int| 0 <= i < text.len() ==> is_base64url(#[trigger] text[i])
}

/// `Engine::encode` of `base64::engine::general_purpose::URL_SAFE_NO_PAD`: writes
/// bytes in the url-safe alphabet. Decoding the text with the same engine gives the
/// bytes back. The bound keeps the length of the text within what can be allocated.
#[verifier::external_body]
pub(crate) fn base64url_encode(data: &[u8]) -> (r: String)
    requires
        data@.len() <= usize::MAX / 4,
    ensures
        r@ == base64url_encoded(data@),
        all_base64url(r@),
        base64url_decoded(r@) == Some(data@),
{
    URL_SAFE_NO_PAD.encode(data)
}

/// `Engine::decode` of `base64::engine::general_purpose::URL_SAFE_NO_PAD`: the bytes
/// that the text stands for, or nothing where the engine reports an error.
#[verifier::external_body]
pub(crate) fn base64url_decode(text: &str) -> (r: Option<Vec<u8>>)
    ensures
        match r {
            Some(data) => base64url_decoded(text@) == Some(data@),
            None => base64url_decoded(text@) is None,
        },
{
    URL_SAFE_NO_PAD.decode(text).ok()
}

/// `Engine::decode` of `base64::engine::general_purpose::STANDARD`: the bytes that the
/// text stands for, or nothing where the engine reports an error.
#[verifier::external_body]
pub(crate) fn base64_decode(text: &str) -> (r: Option<Vec<u8>>)
    ensures
        match r {
            Some(data) => base64_decoded(text@) == Some(data@),
            None => base64_decoded(text@) is None,
        },
{
    STANDARD.decode(text).ok()
}

/// `hmac::Hmac<sha2::Sha256>` keyed by `Mac::new_from_slice`, fed by `Mac::update` and
/// closed by `Mac::finalize`: the 32-byte code of the message. A key of any length is taken.
#[verifier::external_body]
pub(crate) fn hmac_tag(key: &[u8], message: &[u8]) -> (r: Vec<u8>)
    ensures
        r@ == hmac_sha256(key@, message@),
        r@.len() == 32,
{
    let mut mac = Hmac::<Sha256>::new_from_slice(key).expect("hmac key");
    mac.update(message);
    mac.finalize().into_bytes().to_vec()
}

/// `Mac::verify_slice` of `hmac::Hmac<sha2::Sha256>` after `Mac::new_from_slice` and
/// `Mac::update`: succeeds exactly where the given code is the code of the message.
#[verifier::external_body]
pub(crate) fn hmac_verify(key: &[u8], message: &[u8], tag: &[u8]) -> (r: bool)
    ensures
        r == (tag@ == hmac_sha256(key@, message@)),
{
    let mut mac = Hmac::<Sha256>::new_from_slice(key).expect("hmac key");
    mac.update(message);
    mac.verify_slice(tag).is_ok()
}

/// What a list of name-value pairs holds.
pub open spec fn pair_texts(pairs: Seq<(String, String)>) -> Seq<(Seq<char>, Seq<char>)> {
    pairs.map_values(|p: (String, String)| (p.0@, p.1@))
}

/// The upper-case hexadecimal digit of a number below sixteen.
pub open spec fn hex_digit(d: u8) -> char {
    if d < 10 {
        (48 + d) as char
    } else {
        (55 + d) as char
    }
}

/// A byte that stands for itself in a form: an ASCII letter or digit, or one of `*-._`.
pub open spec fn is_form_byte(b: u8) -> bool {
    ||| 48 <= b <= 57
    ||| 65 <= b <= 90
    ||| 97 <= b <= 122
    ||| b == 42
    ||| b == 45
    ||| b == 46
    ||| b == 95
}

/// What stands for a byte in a form: itself, a plus sign for the space, or else a percent
/// sign and two digits.
pub open spec fn form_byte(b: u8) -> Seq<char> {
    if is_form_byte(b) {
        seq![b as char]
    } else if b == 32 {
        seq!['+']
    } else {
        seq!['%', hex_digit(b / 16), hex_digit(b % 16)]
    }
}

/// Bytes as they stand in a form, one after the other.
pub open spec fn form_bytes(bytes: Seq<u8>) -> Seq<char>
    decreases bytes.len(),
{
    if bytes.len() == 0 {
        Seq::empty()
    } else {
        form_bytes(bytes.drop_last()) + form_byte(bytes.last())
    }
}

/// A name-value pair as it stands in a form.
pub open spec fn form_pair(pair: (Seq<char>, Seq<char>)) -> Seq<char> {
    form_bytes(encode_utf8(pair.0)) + seq!['='] + form_bytes(encode_utf8(pair.1))
}

/// The `application/x-www-form-urlencoded` text of a list of name-value pairs.
pub open spec fn form_encoded(pairs: Seq<(Seq<char>, Seq<char>)>) -> Seq<char> {
    joined(pairs.map_values(|pair: (Seq<char>, Seq<char>)| form_pair(pair)), seq!['&'])
}

/// Two visible texts are visible one after the other.
pub proof fn lemma_visible_together(a: Seq<char>, b: Seq<char>)
    requires
        is_visible_text(a),
        is_visible_text(b),
    ensures
        is_visible_text(a + b),
{
    assert forall|i: int| 0 <= i < (a + b).len() implies ' ' <= #[trigger] (a + b)[i] <= '~' || (a
        + b)[i] == '\t' by {
        if i < a.len() {
            assert((a + b)[i] == a[i]);
        } else {
            assert((a + b)[i] == b[i - a.len()]);
        }
    }
}

/// Bytes as they stand in a form are visible.
proof fn lemma_form_bytes_are_visible(bytes: Seq<u8>)
    ensures
        is_visible_text(form_bytes(bytes)),
    decreases bytes.len(),
{
    if bytes.len() > 0 {
        lemma_form_bytes_are_visible(bytes.drop_last());
        lemma_visible_together(form_bytes(bytes.drop_last()), form_byte(bytes.last()));
    }
}

/// Visible texts are visible when a visible separator joins them.
proof fn lemma_joined_is_visible(parts: Seq<Seq<char>>, sep: Seq<char>)
    requires
        is_visible_text(sep),
        forall|i: int| 0 <= i < parts.len() ==> is_visible_text(#[trigger] parts[i]),
    ensures
        is_visible_text(joined(parts, sep)),
    decreases parts.len(),
{
    if parts.len() > 1 {
        let front = parts.drop_last();
        assert forall|i: int| 0 <= i < front.len() implies is_visible_text(#[trigger] front[i]) by {
            assert(front[i] == parts[i]);
        }
        lemma_joined_is_visible(front, sep);
        lemma_visible_together(joined(front, sep), sep);
        lemma_visible_together(joined(front, sep) + sep, parts.last());
    }
}

/// The text of a form is visible ASCII.
pub proof fn lemma_form_is_visible(pairs: Seq<(Seq<char>, Seq<char>)>)
    ensures
        is_visible_text(form_encoded(pairs)),
{
    let parts = pairs.map_values(|pair: (Seq<char>, Seq<char>)| form_pair(pair));
    assert forall|i: int| 0 <= i < parts.len() implies is_visible_text(#[trigger] parts[i]) by {
        let name = form_bytes(encode_utf8(pairs[i].0));
        let value = form_bytes(encode_utf8(pairs[i].1));
        lemma_form_bytes_are_visible(encode_utf8(pairs[i].0));
        lemma_form_bytes_are_visible(encode_utf8(pairs[i].1));
        lemma_visible_together(name, seq!['=']);
        lemma_visible_together(name + seq!['='], value);
    }
    lemma_joined_is_visible(parts, seq!['&']);
}

/// `serde_urlencoded::to_string` on a list of pairs of strings, which it never refuses: each
/// name and value is written byte by byte in UTF-8, with `=` between the two and `&` between
/// the pairs.
#[verifier::external_body]
pub(crate) fn form_encode(pairs: &Vec<(String, String)>) -> (r: Option<String>)
    ensures
        r is Some,
        r->0@ == form_encoded(pair_texts(pairs@)),
{
    serde_urlencoded::to_string(pairs).ok()
}

/// `String::from_utf8` of std: the string that some bytes encode, or nothing where
/// they are not UTF-8.
#[verifier::external_body]
pub(crate) fn utf8_text(data: Vec<u8>) -> (r: Option<String>)
    ensures
        r is Some <==> valid_utf8(data@),
        r matches Some(text) ==> text@ == decode_utf8(data@),
{
    String::from_utf8(data).ok()
}

/// A list of name-value pairs stands for its pairs in their order, and none is left out.
pub proof fn law_pair_texts(pairs: Seq<(String, String)>)
    ensures
        pair_texts(pairs).len() == pairs.len(),
        forall|i: int|
            0 <= i < pairs.len() ==> #[trigger] pair_texts(pairs)[i] == (pairs[i].0@, pairs[i].1@),
{
}

} // verus!
