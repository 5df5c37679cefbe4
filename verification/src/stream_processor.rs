//! Relaying a guarded reply stream: every event is answered at once, errors do not end the
//! stream, and it is read to its end even after the generation is complete.
//!
//! The reader of a stream hands each event in and carries out the [`Relay`] that comes back. When
//! a chunk cannot be sent it carries out that of [`chunk_undelivered`] instead of reading on. In
//! the end it drops the guard.

use crate::chunk::{
    chat_event, completion_event, new_chat_event, new_completion_event, ReplyHeader,
};
use crate::json::{error_json, error_text, json_text};
use crate::scheduler::{Event, StreamEvent};
use crate::sse::{done_event, done_text, event, event_text, lemma_object_is_not_done};
use crate::stream_guard::{Guard, StreamGuard};
use crate::text::{concat, text_result};
use crate::tokenizer::{decode_event, may_answer, Tokenizer};
use vstd::prelude::*;

verus! {

/// What to do for the client after an event.
pub enum Relay {
    /// Read on.
    Nothing,
    /// Send this event; if that fails, stop reading, otherwise read on.
    Chunk(String),
    /// Send this event if that is possible, and read on either way.
    Notice(String),
    /// Send this event and stop.
    Done(String),
}

/// The model of [`Relay`].
pub enum Message {
    Nothing,
    Text(Seq<char>),
    Reason(Seq<char>),
    Error(Seq<char>),
    Done,
}

/// The text of a chunk; where decoding failed, a note in its place.
pub open spec fn relayed_text(decoded: Result<Seq<char>, Seq<char>>) -> Seq<char> {
    match decoded {
        Ok(text) => text,
        Err(e) => "[ERROR: "@ + e + "]"@,
    }
}

/// What an event is answered with, where `decoded` is the text of its tokens if it is a chunk.
pub open spec fn message(event: Event, decoded: Result<Seq<char>, Seq<char>>) -> Message {
    match event {
        Event::Chunk { token_ids } => Message::Text(relayed_text(decoded)),
        Event::Complete(complete) => Message::Reason(complete.finish_reason),
        Event::Error { message } => Message::Error(message),
        Event::Empty => Message::Nothing,
        Event::Failed { status } => Message::Error("Stream error: "@ + status),
        Event::End => Message::Done,
    }
}

/// The guard after an event: a complete generation releases its client.
pub open spec fn guard_after<S, C>(guard: Guard<S, C>, event: Event) -> Guard<S, C> {
    if event is Complete {
        guard.marked()
    } else {
        guard
    }
}

/// Whether this relays a message to a chat client.
pub open spec fn relays_chat(relay: Relay, header: ReplyHeader, message: Message) -> bool {
    match message {
        Message::Nothing => relay is Nothing,
        Message::Text(text) => relay matches Relay::Chunk(sent) && sent@ == chat_event(
            header,
            Some(text),
            None,
        ),
        Message::Reason(reason) => relay matches Relay::Notice(sent) && sent@ == chat_event(
            header,
            None,
            Some(reason),
        ),
        Message::Error(e) => relay matches Relay::Notice(sent) && sent@ == event(
            json_text(error_json(e)),
        ),
        Message::Done => relay matches Relay::Done(sent) && sent@ == done_event(),
    }
}

/// Whether this relays a message to a text completion client.
pub open spec fn relays_completion(relay: Relay, header: ReplyHeader, message: Message) -> bool {
    match message {
        Message::Nothing => relay is Nothing,
        Message::Text(text) => relay matches Relay::Chunk(sent) && sent@ == completion_event(
            header,
            text,
            None,
        ),
        Message::Reason(reason) => relay matches Relay::Notice(sent) && sent@ == completion_event(
            header,
            ""@,
            Some(reason),
        ),
        Message::Error(e) => relay matches Relay::Notice(sent) && sent@ == event(
            json_text(error_json(e)),
        ),
        Message::Done => relay matches Relay::Done(sent) && sent@ == done_event(),
    }
}

/// Whether only the last event of a relay looks like the one that ends a stream.
pub open spec fn done_is_unmistakable(relay: Relay) -> bool {
    &&& relay matches Relay::Chunk(sent) ==> sent@ != done_event()
    &&& relay matches Relay::Notice(sent) ==> sent@ != done_event()
}

fn relayed_text_or_note(decoded: Result<String, String>) -> (text: String)
    ensures
        text@ == relayed_text(text_result(decoded)),
{
    match decoded {
        Ok(text) => text,
        Err(e) => {
            let mut note = concat("[ERROR: ", e.as_str());
            note.append("]");
            note
        },
    }
}

fn error_notice(message: &str) -> (relay: Relay)
    ensures
        relay matches Relay::Notice(sent) && sent@ == event(json_text(error_json(message@))),
        done_is_unmistakable(relay),
{
    let payload = error_text(message);
    proof {
        lemma_object_is_not_done(payload@);
    }
    Relay::Notice(event_text(payload.as_str()))
}

/// Takes one event of a chat stream. If it is a chunk, `decoded` is what the tokenizer answered
/// for its tokens.
pub fn relay_chat_event<S, C>(
    guard: &mut StreamGuard<S, C>,
    header: &ReplyHeader,
    event: StreamEvent,
    decoded: Result<String, String>,
) -> (relay: Relay)
    ensures
        relays_chat(relay, *header, message(event@, text_result(decoded))),
        done_is_unmistakable(relay),
        final(guard)@ == guard_after(old(guard)@, event@),
{
    match event {
        StreamEvent::Chunk { token_ids } => {
            let text = relayed_text_or_note(decoded);
            Relay::Chunk(new_chat_event(header, Some(text.as_str()), None))
        },
        StreamEvent::Complete(complete) => {
            let sent = new_chat_event(header, None, Some(complete.finish_reason.as_str()));
            guard.mark_completed();
            Relay::Notice(sent)
        },
        StreamEvent::Error { message } => error_notice(message.as_str()),
        StreamEvent::Empty => Relay::Nothing,
        StreamEvent::Failed { status } => error_notice(
            concat("Stream error: ", status.as_str()).as_str(),
        ),
        StreamEvent::End => Relay::Done(done_text()),
    }
}

/// Takes one event of a text completion stream. If it is a chunk, `decoded` is what the tokenizer
/// answered for its tokens.
pub fn relay_completion_event<S, C>(
    guard: &mut StreamGuard<S, C>,
    header: &ReplyHeader,
    event: StreamEvent,
    decoded: Result<String, String>,
) -> (relay: Relay)
    ensures
        relays_completion(relay, *header, message(event@, text_result(decoded))),
        done_is_unmistakable(relay),
        final(guard)@ == guard_after(old(guard)@, event@),
{
    match event {
        StreamEvent::Chunk { token_ids } => {
            let text = relayed_text_or_note(decoded);
            Relay::Chunk(new_completion_event(header, text.as_str(), None))
        },
        StreamEvent::Complete(complete) => {
            let sent = new_completion_event(header, "", Some(complete.finish_reason.as_str()));
            guard.mark_completed();
            Relay::Notice(sent)
        },
        StreamEvent::Error { message } => error_notice(message.as_str()),
        StreamEvent::Empty => Relay::Nothing,
        StreamEvent::Failed { status } => error_notice(
            concat("Stream error: ", status.as_str()).as_str(),
        ),
        StreamEvent::End => Relay::Done(done_text()),
    }
}

/// Takes note that a chunk could not be sent: nothing more is read, and the last event is sent. The
/// guard stays as it is, so dropping it aborts a request that is not complete.
#[allow(unused_variables)]
pub fn chunk_undelivered<S, C>(guard: &mut StreamGuard<S, C>) -> (relay: Relay)
    ensures
        relay matches Relay::Done(sent) && sent@ == done_event(),
        final(guard)@ == old(guard)@,
{
    Relay::Done(done_text())
}

/// Takes one event of a chat stream: what the client is sent for it.
pub fn process_chat_stream<S, C, T: Tokenizer + ?Sized>(
    guard: &mut StreamGuard<S, C>,
    header: &ReplyHeader,
    tokenizer: &T,
    event: StreamEvent,
) -> (relay: Relay)
    ensures
        exists|decoded: Result<String, String>| #[trigger]
            may_answer(tokenizer, event@, decoded) && relays_chat(
                relay,
                *header,
                message(event@, text_result(decoded)),
            ),
        done_is_unmistakable(relay),
        final(guard)@ == guard_after(old(guard)@, event@),
{
    let decoded = decode_event(tokenizer, &event);
    assert(may_answer(tokenizer, event@, decoded));
    relay_chat_event(guard, header, event, decoded)
}

/// Takes one event of a text completion stream: what the client is sent for it.
pub fn process_completion_stream<S, C, T: Tokenizer + ?Sized>(
    guard: &mut StreamGuard<S, C>,
    header: &ReplyHeader,
    tokenizer: &T,
    event: StreamEvent,
) -> (relay: Relay)
    ensures
        exists|decoded: Result<String, String>| #[trigger]
            may_answer(tokenizer, event@, decoded) && relays_completion(
                relay,
                *header,
                message(event@, text_result(decoded)),
            ),
        done_is_unmistakable(relay),
        final(guard)@ == guard_after(old(guard)@, event@),
{
    let decoded = decode_event(tokenizer, &event);
    assert(may_answer(tokenizer, event@, decoded));
    relay_completion_event(guard, header, event, decoded)
}

} // verus!
