//! What every outgoing call to a service carries.

use tonic::metadata::MetadataMap;
use vstd::prelude::*;
use vstd::string::*;
use vstd::utf8::*;

use crate::headers::has_room;
use crate::metadata::{is_metadata_text, metadata_values, set_text, with_text};

verus! {

/// Injects the shared internal token into every outgoing call, so that the services
/// can authenticate the gateway.
#[derive(Clone)]
pub struct TokenInterceptor {
    token: String,
}

impl TokenInterceptor {
    /// The token that is injected.
    pub closed spec fn view(&self) -> Seq<char> {
        self.token@
    }

    pub fn new(token: String) -> (r: Self)
        ensures
            r@ == token@,
    {
        TokenInterceptor { token }
    }

    /// Sets the token on a call; an empty token, or one that makes no metadata value, is
    /// left out. Says whether the metadata took it; where it is full it stays as it is.
    pub fn call(&self, metadata: &mut MetadataMap) -> (done: bool)
        ensures
            has_room(metadata_values(*old(metadata)), 1) ==> done,
            self@.len() == 0 || !is_metadata_text(self@) ==> done,
            done ==> metadata_values(*final(metadata)) == authenticated(
                metadata_values(*old(metadata)),
                self@,
            ),
            !done ==> metadata_values(*final(metadata)) == metadata_values(*old(metadata)),
    {
        if self.token.as_str().is_empty() {
            return true;
        }
        proof {
            reveal_strlit("x-internal-token");
        }
        set_text(metadata, "x-internal-token", self.token.as_str())
    }
}

/// The metadata of a call after the internal token was set on it.
pub open spec fn authenticated(
    values: Map<Seq<char>, Seq<Seq<u8>>>,
    token: Seq<char>,
) -> Map<Seq<char>, Seq<Seq<u8>>> {
    if token.len() > 0 {
        with_text(values, "x-internal-token"@, token)
    } else {
        values
    }
}

/// The token comes on top of what a call carries: it stands alone under its key, and every
/// other key keeps its values.
pub proof fn law_token_is_added(
    values: Map<Seq<char>, Seq<Seq<u8>>>,
    token: Seq<char>,
    other: Seq<char>,
)
    requires
        other != "x-internal-token"@,
    ensures
        token.len() > 0 && is_metadata_text(token) ==> {
            &&& authenticated(values, token).contains_key("x-internal-token"@)
            &&& authenticated(values, token)["x-internal-token"@] == seq![encode_utf8(token)]
        },
        authenticated(values, token).contains_key(other) == values.contains_key(other),
        values.contains_key(other) ==> authenticated(values, token)[other] == values[other],
{
}

/// A token that is empty, or that makes no metadata value, changes nothing.
pub proof fn law_token_is_left_out(values: Map<Seq<char>, Seq<Seq<u8>>>, token: Seq<char>)
    requires
        token.len() == 0 || !is_metadata_text(token),
    ensures
        authenticated(values, token) == values,
{
}

} // verus!
