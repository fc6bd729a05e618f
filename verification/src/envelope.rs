//! Type URLs of packed payloads.

use vstd::prelude::*;
use crate::text::{owned, push_str};

verus! {

/// The prefix that every type URL carries before the message's full name.
pub const TYPE_URL_PREFIX: &'static str = "type.googleapis.com/";

/// The type URL naming the message type `message_name`.
pub open spec fn type_url_spec(message_name: Seq<char>) -> Seq<char> {
    "type.googleapis.com/"@ + message_name
}

/// Returns the type URL under which a message named `message_name` is packed.
pub fn type_url(message_name: &str) -> (r: String)
    ensures
        r@ == type_url_spec(message_name@),
{
    let mut r = owned(TYPE_URL_PREFIX);
    push_str(&mut r, message_name);
    r
}

} // verus!
