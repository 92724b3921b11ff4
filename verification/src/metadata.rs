//! The metadata of outgoing gRPC requests.

use axum::http::HeaderValue;
use tonic::metadata::{MetadataMap, MetadataValue};
use vstd::prelude::*;
use vstd::string::*;
use vstd::utf8::*;

use crate::headers::{has_room, is_plain_name};

verus! {

/// `tonic::metadata::MetadataMap`: the metadata of a gRPC request.
#[verifier::external_type_specification]
#[verifier::external_body]
pub struct ExMetadataMap(tonic::metadata::MetadataMap);

/// What a metadata map holds: for each key the bytes of its values in order.
pub uninterp spec fn metadata_values(metadata: MetadataMap) -> Map<Seq<char>, Seq<Seq<u8>>>;

/// Whether a text can be a metadata value: no control character but the tab.
pub open spec fn is_metadata_text(text: Seq<char>) -> bool {
    forall|i: int|
        0 <= i < text.len() ==> (#[trigger] text[i] == '\t' || (' ' <= text[i] && text[i]
            != '\u{7f}'))
}

/// Whether a key ends in `-bin`, which marks binary values.
pub open spec fn is_binary_key(key: Seq<char>) -> bool {
    let n = key.len() as int;
    n >= 4 && key[n - 4] == '-' && key[n - 3] == 'b' && key[n - 2] == 'i' && key[n - 1] == 'n'
}

/// A metadata key for texts.
pub open spec fn is_metadata_key(key: Seq<char>) -> bool {
    &&& is_plain_name(key)
    &&& 0 < key.len() <= 64
    &&& !is_binary_key(key)
}

/// Metadata without any key.
pub open spec fn no_values() -> Map<Seq<char>, Seq<Seq<u8>>> {
    Map::empty()
}

/// `MetadataMap::new`: a map without entries.
#[verifier::external_body]
pub(crate) fn empty_metadata() -> (r: MetadataMap)
    ensures
        metadata_values(r) == no_values(),
{
    MetadataMap::new()
}

/// `MetadataValue::try_from` on a text: whether it makes a value.
#[verifier::external_body]
pub(crate) fn makes_metadata_value(text: &str) -> (r: bool)
    ensures
        r == is_metadata_text(text@),
{
    MetadataValue::try_from(text).is_ok()
}

/// `HeaderMap::try_insert` on the header map that a `MetadataMap` is made of
/// (`MetadataMap::into_headers`, `MetadataMap::from_headers`), of a text that makes a value.
/// Where it succeeds, the text becomes the only value of the key, and every other key keeps
/// its own; where it reports that the map cannot grow, the map holds what it held. It
/// succeeds wherever there is certainly room. Beyond that the outcome rests on how the keys
/// lie in the map's table, and nothing is said of it.
#[verifier::external_body]
pub(crate) fn insert_metadata(metadata: &mut MetadataMap, key: &'static str, text: &str) -> (r:
    bool)
    requires
        is_metadata_key(key@),
        is_metadata_text(text@),
    ensures
        has_room(metadata_values(*old(metadata)), 1) ==> r,
        r ==> metadata_values(*final(metadata)) == metadata_values(*old(metadata)).insert(
            key@,
            seq![encode_utf8(text@)],
        ),
        !r ==> metadata_values(*final(metadata)) == metadata_values(*old(metadata)),
{
    let value = HeaderValue::from_str(text).expect("metadata value");
    let mut headers = std::mem::take(metadata).into_headers();
    let r = headers.try_insert(key, value).is_ok();
    *metadata = MetadataMap::from_headers(headers);
    r
}

/// The metadata after a text was set under a key: unchanged where the text makes no value.
pub open spec fn with_text(
    values: Map<Seq<char>, Seq<Seq<u8>>>,
    key: Seq<char>,
    text: Seq<char>,
) -> Map<Seq<char>, Seq<Seq<u8>>> {
    if is_metadata_text(text) {
        values.insert(key, seq![encode_utf8(text)])
    } else {
        values
    }
}

/// Sets a text under a key, where the text makes a value. Says whether the metadata took it.
pub(crate) fn set_text(metadata: &mut MetadataMap, key: &'static str, text: &str) -> (done: bool)
    requires
        is_metadata_key(key@),
    ensures
        has_room(metadata_values(*old(metadata)), 1) ==> done,
        !is_metadata_text(text@) ==> done,
        done ==> metadata_values(*final(metadata)) == with_text(
            metadata_values(*old(metadata)),
            key@,
            text@,
        ),
        !done ==> metadata_values(*final(metadata)) == metadata_values(*old(metadata)),
{
    if makes_metadata_value(text) {
        insert_metadata(metadata, key, text)
    } else {
        true
    }
}

/// A text that makes a value becomes the only one under its key; one that does not changes
/// nothing. No other key is touched.
pub proof fn law_text_is_set(
    values: Map<Seq<char>, Seq<Seq<u8>>>,
    key: Seq<char>,
    text: Seq<char>,
    other: Seq<char>,
)
    requires
        other != key,
    ensures
        is_metadata_text(text) ==> {
            &&& with_text(values, key, text).contains_key(key)
            &&& with_text(values, key, text)[key] == seq![encode_utf8(text)]
        },
        !is_metadata_text(text) ==> with_text(values, key, text) == values,
        with_text(values, key, text).contains_key(other) == values.contains_key(other),
        values.contains_key(other) ==> with_text(values, key, text)[other] == values[other],
{
}

} // verus!
