//! The chunks of a reply, as events.

use crate::json::{
    chat_chunk_json, chat_chunk_text, completion_chunk_json, completion_chunk_text, json_text,
};
use crate::sse::{done_event, event, event_text, lemma_object_is_not_done};
use vstd::prelude::*;

verus! {

/// What every chunk of a reply repeats.
#[derive(Debug)]
pub struct ReplyHeader {
    pub request_id: String,
    pub model: String,
    pub created: u64,
}

/// The event of a chat chunk.
pub open spec fn chat_event(
    header: ReplyHeader,
    content: Option<Seq<char>>,
    finish_reason: Option<Seq<char>>,
) -> Seq<char> {
    event(
        json_text(
            chat_chunk_json(
                header.request_id@,
                header.created,
                header.model@,
                content,
                finish_reason,
            ),
        ),
    )
}

/// The event of a text completion chunk.
pub open spec fn completion_event(
    header: ReplyHeader,
    text: Seq<char>,
    finish_reason: Option<Seq<char>>,
) -> Seq<char> {
    event(
        json_text(
            completion_chunk_json(
                header.request_id@,
                header.created,
                header.model@,
                text,
                finish_reason,
            ),
        ),
    )
}

/// The event of a chat chunk, which is never the one that ends the stream.
pub fn new_chat_event(
    header: &ReplyHeader,
    content: Option<&str>,
    finish_reason: Option<&str>,
) -> (sent: String)
    ensures
        sent@ == chat_event(
            *header,
            match content {
                Some(s) => Some(s@),
                None => None,
            },
            match finish_reason {
                Some(s) => Some(s@),
                None => None,
            },
        ),
        sent@ != done_event(),
{
    let payload = chat_chunk_text(
        header.request_id.as_str(),
        header.created,
        header.model.as_str(),
        content,
        finish_reason,
    );
    proof {
        lemma_object_is_not_done(payload@);
    }
    event_text(payload.as_str())
}

/// The event of a text completion chunk, which is never the one that ends the stream.
pub fn new_completion_event(header: &ReplyHeader, text: &str, finish_reason: Option<&str>) -> (sent:
    String)
    ensures
        sent@ == completion_event(
            *header,
            text@,
            match finish_reason {
                Some(s) => Some(s@),
                None => None,
            },
        ),
        sent@ != done_event(),
{
    let chunk = completion_chunk_text(
        header.request_id.as_str(),
        header.created,
        header.model.as_str(),
        text,
        finish_reason,
    );
    proof {
        lemma_object_is_not_done(chunk@);
    }
    event_text(chunk.as_str())
}

} // verus!
