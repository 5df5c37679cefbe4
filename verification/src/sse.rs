//! Server-sent events: how payloads are framed, and the head of a response that carries them.

use crate::json::{on_one_line, opens_object};
use crate::text::concat;
use vstd::prelude::*;

verus! {

/// An event that carries a payload: a `data:` line and the blank line that ends the event.
pub open spec fn event(payload: Seq<char>) -> Seq<char> {
    "data: "@ + payload + "\n\n"@
}

/// The event that ends every stream.
pub open spec fn done_event() -> Seq<char> {
    "data: [DONE]\n\n"@
}

/// Frames a payload as an event.
pub fn event_text(payload: &str) -> (text: String)
    ensures
        text@ == event(payload@),
{
    let mut text = concat("data: ", payload);
    text.append("\n\n");
    text
}

/// The event that ends every stream.
pub fn done_text() -> (text: String)
    ensures
        text@ == done_event(),
{
    "data: [DONE]\n\n".to_string()
}

/// The status and the headers of a response, before its body.
pub struct ResponseHead {
    pub status: u16,
    pub headers: Vec<(String, String)>,
}

/// The head of a response whose body is a stream of events.
pub fn build_sse_response() -> (head: ResponseHead)
    ensures
        head.status == 200,
        head.headers.len() == 3,
        head.headers[0].0@ == "content-type"@,
        head.headers[0].1@ == "text/event-stream"@,
        head.headers[1].0@ == "Cache-Control"@,
        head.headers[1].1@ == "no-cache"@,
        head.headers[2].0@ == "Connection"@,
        head.headers[2].1@ == "keep-alive"@,
{
    let mut headers: Vec<(String, String)> = Vec::new();
    headers.push(("content-type".to_string(), "text/event-stream".to_string()));
    headers.push(("Cache-Control".to_string(), "no-cache".to_string()));
    headers.push(("Connection".to_string(), "keep-alive".to_string()));
    ResponseHead { status: 200, headers }
}

/// Two events are the same only if their payloads are: a reader can recover what was sent.
pub proof fn lemma_event_determines_payload(first: Seq<char>, second: Seq<char>)
    requires
        event(first) == event(second),
    ensures
        first == second,
{
    reveal_strlit("data: ");
    reveal_strlit("\n\n");
    let a = event(first);
    let b = event(second);
    assert(first =~= a.subrange(6, a.len() - 2));
    assert(second =~= b.subrange(6, b.len() - 2));
}

/// A payload on one line makes exactly one event: the only line breaks are the two that end it.
pub proof fn lemma_event_ends_once(payload: Seq<char>, i: int)
    requires
        on_one_line(payload),
        0 <= i < event(payload).len(),
    ensures
        event(payload)[i] == '\n' <==> i >= event(payload).len() - 2,
        event(payload)[i] != '\r',
{
    reveal_strlit("data: ");
    reveal_strlit("\n\n");
}

/// The event that ends a stream is an event like the others, with the payload `[DONE]`.
pub proof fn lemma_done_is_an_event()
    ensures
        done_event() == event("[DONE]"@),
{
    reveal_strlit("data: ");
    reveal_strlit("\n\n");
    reveal_strlit("[DONE]");
    reveal_strlit("data: [DONE]\n\n");
    assert(done_event() =~= event("[DONE]"@));
}

/// No event whose payload is a JSON object can be taken for the one that ends the stream.
pub proof fn lemma_object_is_not_done(payload: Seq<char>)
    requires
        opens_object(payload),
    ensures
        event(payload) != done_event(),
{
    lemma_done_is_an_event();
    reveal_strlit("[DONE]");
    if event(payload) == done_event() {
        lemma_event_determines_payload(payload, "[DONE]"@);
    }
}

} // verus!
