//! The ids that requests are known by.

use crate::text::concat;
use vstd::prelude::*;

verus! {

/// The characters of a ULID: digits and capital letters without I, L, O and U.
pub open spec fn is_ulid_char(c: char) -> bool {
    ('0' <= c && c <= '9') || ('A' <= c && c <= 'Z' && c != 'I' && c != 'L' && c != 'O' && c
        != 'U')
}

/// Whether a text has the form of a ULID.
pub open spec fn is_ulid(text: Seq<char>) -> bool {
    &&& text.len() == 26
    &&& forall|i: int| 0 <= i < text.len() ==> is_ulid_char(#[trigger] text[i])
}

/// `ulid::Ulid::new`, written with its `to_string`: 26 characters of Crockford's Base32. They are
/// drawn from the clock and from random numbers, of which nothing is claimed.
#[verifier::external_body]
fn new_ulid() -> (ulid: String)
    ensures
        is_ulid(ulid@),
{
    ulid::Ulid::new().to_string()
}

/// The id of a chat request, from a ULID.
pub fn chat_request_id(ulid: &str) -> (id: String)
    ensures
        id@ == "chatcmpl-"@ + ulid@,
{
    concat("chatcmpl-", ulid)
}

/// The id of a text completion request, from a ULID.
pub fn completion_request_id(ulid: &str) -> (id: String)
    ensures
        id@ == "cmpl-"@ + ulid@,
{
    concat("cmpl-", ulid)
}

/// Whether a text is an id with this prefix.
pub open spec fn is_request_id(id: Seq<char>, prefix: Seq<char>) -> bool {
    exists|ulid: Seq<char>| #[trigger] is_ulid(ulid) && id == prefix + ulid
}

/// A fresh id for a chat request.
pub fn new_chat_request_id() -> (id: String)
    ensures
        is_request_id(id@, "chatcmpl-"@),
{
    let ulid = new_ulid();
    chat_request_id(ulid.as_str())
}

/// A fresh id for a text completion request.
pub fn new_completion_request_id() -> (id: String)
    ensures
        is_request_id(id@, "cmpl-"@),
{
    let ulid = new_ulid();
    completion_request_id(ulid.as_str())
}

/// No chat request is known by the id of a text completion request.
pub proof fn lemma_ids_tell_requests_apart(chat: Seq<char>, completion: Seq<char>)
    requires
        is_request_id(chat, "chatcmpl-"@),
        is_request_id(completion, "cmpl-"@),
    ensures
        chat != completion,
{
    reveal_strlit("chatcmpl-");
    reveal_strlit("cmpl-");
    assert(chat[1] == 'h');
    assert(completion[1] == 'm');
}

} // verus!
