//! Stream processing: what clients are sent for each thing read from the reply stream of a
//! worker, for chats and for text completions.
//!
//! The reader of a stream hands each event to a [`StreamProcessor`] and carries out the
//! [`Progress`] that comes back: it goes on reading, or sends a chunk, or sends what is left and
//! lets go of the stream. When a chunk cannot be sent it calls [`client_disconnected`] instead of
//! reading on, sends what comes back and lets go of the stream, which aborts the request.

use crate::auto_cleanup_stream::{AutoCleanupStream, Cleanup};
use crate::chunk::{completion_event, new_completion_event, ReplyHeader};
use crate::json::{error_json, error_text, internal_error_json, internal_error_text, json_text};
use crate::protocol::{ChatCompletionStreamResponse, ChatMessageDelta, ChatStreamChoice};
use crate::scheduler::{Event, StreamEvent};
use crate::sse::{done_event, done_text, event, event_text};
use crate::text::{concat, opt_view, text_result, views};
use crate::tokenizer::{decode_event, may_answer, Tokenizer};
use std::sync::Arc;
use vstd::prelude::*;

verus! {

/// What one event does to a stream that is being consumed. `M` is a message for the client.
pub enum Consumed<M> {
    /// Read on.
    Continue,
    /// Send a message, then read on.
    Send(M),
    /// Send the last message, if there is one. The stream ended well, or with an error.
    Finish { last: Option<M>, result: Result<(), String> },
}

/// What to do next for the client. `M` is a message for it.
pub enum Progress<M> {
    /// Read on.
    Continue,
    /// Send a message, then read on.
    Send(M),
    /// Send the last message, if there is one, then the events of the trailer, and stop.
    Finish { last: Option<M>, trailer: Vec<String> },
}

/// The model of [`Consumed`]: texts that are sent, the reason that ends a reply, and the error.
pub enum Step {
    Continue,
    Send { text: Seq<char> },
    Finish { reason: Option<Seq<char>>, error: Option<Seq<char>> },
}

/// The text of a chunk; where decoding failed, a note in its place.
pub open spec fn chunk_text(decoded: Result<Seq<char>, Seq<char>>) -> Seq<char> {
    match decoded {
        Ok(text) => text,
        Err(e) => "[Decode error: "@ + e + "]"@,
    }
}

/// What an event does, where `decoded` is the text of its tokens if it is a chunk.
pub open spec fn step(event: Event, decoded: Result<Seq<char>, Seq<char>>) -> Step {
    match event {
        Event::Chunk { token_ids } => if chunk_text(decoded).len() == 0 {
            Step::Continue
        } else {
            Step::Send { text: chunk_text(decoded) }
        },
        Event::Complete(complete) => Step::Finish {
            reason: Some(complete.finish_reason),
            error: None,
        },
        Event::Error { message } => Step::Finish { reason: None, error: Some(message) },
        Event::Empty => Step::Continue,
        Event::Failed { status } => Step::Finish {
            reason: None,
            error: Some("Stream error: "@ + status),
        },
        Event::End => Step::Finish { reason: None, error: None },
    }
}

/// The stream after a step: one that ends without an error is marked as completed.
pub open spec fn stream_after<S, C>(stream: Cleanup<S, C>, step: Step) -> Cleanup<S, C> {
    match step {
        Step::Finish { reason, error: None } => stream.marked(),
        _ => stream,
    }
}

/// Whether a chat chunk adds this content, or else ends the reply for this reason.
pub open spec fn is_chat_chunk(
    chunk: ChatCompletionStreamResponse,
    header: ReplyHeader,
    content: Option<Seq<char>>,
    finish_reason: Option<Seq<char>>,
) -> bool {
    &&& chunk.id@ == header.request_id@
    &&& chunk.object@ == "chat.completion.chunk"@
    &&& chunk.created == header.created
    &&& chunk.model@ == header.model@
    &&& chunk.choices.len() == 1
    &&& chunk.choices[0].index == 0
    &&& opt_view(chunk.choices[0].delta.role) == (if content is Some {
        Some("assistant"@)
    } else {
        None
    })
    &&& opt_view(chunk.choices[0].delta.content) == content
    &&& chunk.choices[0].delta.function_call is None
    &&& chunk.choices[0].delta.tool_calls is None
    &&& chunk.choices[0].delta.reasoning_content is None
    &&& chunk.choices[0].logprobs is None
    &&& opt_view(chunk.choices[0].finish_reason) == finish_reason
    &&& chunk.usage is None
    &&& chunk.system_fingerprint is None
}

/// Whether a result is the error of a step, or its absence.
pub open spec fn is_result(result: Result<(), String>, error: Option<Seq<char>>) -> bool {
    match result {
        Ok(_) => error is None,
        Err(e) => error == Some(e@),
    }
}

/// The events that end a chat stream.
pub open spec fn chat_trailer(error: Option<Seq<char>>) -> Seq<Seq<char>> {
    match error {
        Some(e) => seq![event(json_text(internal_error_json(e))), done_event()],
        None => seq![done_event()],
    }
}

/// The events that end a text completion stream.
pub open spec fn completion_trailer(error: Option<Seq<char>>) -> Seq<Seq<char>> {
    match error {
        Some(e) => seq![event(json_text(error_json(e))), done_event()],
        None => seq![done_event()],
    }
}

/// Whether this is what a step does to a chat stream.
pub open spec fn is_chat_step(
    consumed: Consumed<ChatCompletionStreamResponse>,
    header: ReplyHeader,
    step: Step,
) -> bool {
    match step {
        Step::Continue => consumed is Continue,
        Step::Send { text } => consumed matches Consumed::Send(chunk) && is_chat_chunk(
            chunk,
            header,
            Some(text),
            None,
        ),
        Step::Finish { reason, error } => {
            &&& consumed matches Consumed::Finish { last, result }
            &&& last is Some <==> reason is Some
            &&& last matches Some(chunk) ==> is_chat_chunk(chunk, header, None, reason)
            &&& is_result(result, error)
        },
    }
}

/// Whether this is what a step does to a text completion stream.
pub open spec fn is_completion_step(
    consumed: Consumed<String>,
    header: ReplyHeader,
    step: Step,
) -> bool {
    match step {
        Step::Continue => consumed is Continue,
        Step::Send { text } => consumed matches Consumed::Send(sent) && sent@ == completion_event(
            header,
            text,
            None,
        ),
        Step::Finish { reason, error } => {
            &&& consumed matches Consumed::Finish { last, result }
            &&& last is Some <==> reason is Some
            &&& last matches Some(sent) ==> sent@ == completion_event(header, ""@, reason)
            &&& is_result(result, error)
        },
    }
}

fn new_chat_chunk(
    header: &ReplyHeader,
    content: Option<String>,
    finish_reason: Option<String>,
) -> (chunk: ChatCompletionStreamResponse)
    ensures
        is_chat_chunk(chunk, *header, opt_view(content), opt_view(finish_reason)),
{
    let role = match &content {
        Some(_) => Some("assistant".to_string()),
        None => None,
    };
    let delta = ChatMessageDelta {
        role,
        content,
        function_call: None,
        tool_calls: None,
        reasoning_content: None,
    };
    let mut choices: Vec<ChatStreamChoice> = Vec::new();
    choices.push(ChatStreamChoice { index: 0, delta, logprobs: None, finish_reason });
    ChatCompletionStreamResponse {
        id: header.request_id.clone(),
        object: "chat.completion.chunk".to_string(),
        created: header.created,
        model: header.model.clone(),
        choices,
        usage: None,
        system_fingerprint: None,
    }
}

fn text_or_note(decoded: Result<String, String>) -> (text: String)
    ensures
        text@ == chunk_text(text_result(decoded)),
{
    match decoded {
        Ok(text) => text,
        Err(e) => {
            let mut note = concat("[Decode error: ", e.as_str());
            note.append("]");
            note
        },
    }
}

fn stream_error(status: &String) -> (message: String)
    ensures
        message@ == "Stream error: "@ + status@,
{
    concat("Stream error: ", status.as_str())
}

/// Takes one event of a chat stream. If it is a chunk, `decoded` is what the tokenizer answered
/// for its tokens.
pub fn consume_chat_stream<S, C>(
    stream: &mut AutoCleanupStream<S, C>,
    header: &ReplyHeader,
    event: StreamEvent,
    decoded: Result<String, String>,
) -> (consumed: Consumed<ChatCompletionStreamResponse>)
    ensures
        is_chat_step(consumed, *header, step(event@, text_result(decoded))),
        final(stream)@ == stream_after(old(stream)@, step(event@, text_result(decoded))),
{
    match event {
        StreamEvent::Chunk { token_ids } => {
            let text = text_or_note(decoded);
            if text.as_str().is_empty() {
                Consumed::Continue
            } else {
                Consumed::Send(new_chat_chunk(header, Some(text), None))
            }
        },
        StreamEvent::Complete(complete) => {
            let last = new_chat_chunk(header, None, Some(complete.finish_reason));
            stream.mark_completed();
            Consumed::Finish { last: Some(last), result: Ok(()) }
        },
        StreamEvent::Error { message } => Consumed::Finish { last: None, result: Err(message) },
        StreamEvent::Empty => Consumed::Continue,
        StreamEvent::Failed { status } => Consumed::Finish {
            last: None,
            result: Err(stream_error(&status)),
        },
        StreamEvent::End => {
            stream.mark_completed();
            Consumed::Finish { last: None, result: Ok(()) }
        },
    }
}

/// Takes one event of a text completion stream. If it is a chunk, `decoded` is what the tokenizer
/// answered for its tokens.
pub fn consume_completion_stream<S, C>(
    stream: &mut AutoCleanupStream<S, C>,
    header: &ReplyHeader,
    event: StreamEvent,
    decoded: Result<String, String>,
) -> (consumed: Consumed<String>)
    ensures
        is_completion_step(consumed, *header, step(event@, text_result(decoded))),
        consumed matches Consumed::Send(sent) ==> sent@ != done_event(),
        consumed matches Consumed::Finish { last: Some(sent), result } ==> sent@ != done_event(),
        final(stream)@ == stream_after(old(stream)@, step(event@, text_result(decoded))),
{
    match event {
        StreamEvent::Chunk { token_ids } => {
            let text = text_or_note(decoded);
            if text.as_str().is_empty() {
                Consumed::Continue
            } else {
                Consumed::Send(new_completion_event(header, text.as_str(), None))
            }
        },
        StreamEvent::Complete(complete) => {
            let last = new_completion_event(header, "", Some(complete.finish_reason.as_str()));
            stream.mark_completed();
            Consumed::Finish { last: Some(last), result: Ok(()) }
        },
        StreamEvent::Error { message } => Consumed::Finish { last: None, result: Err(message) },
        StreamEvent::Empty => Consumed::Continue,
        StreamEvent::Failed { status } => Consumed::Finish {
            last: None,
            result: Err(stream_error(&status)),
        },
        StreamEvent::End => {
            stream.mark_completed();
            Consumed::Finish { last: None, result: Ok(()) }
        },
    }
}

/// Takes note that a message could not be sent: nothing more is read. The request did not complete,
/// so the stream stays as it is, and letting go of it aborts the request. What is left to send is
/// the trailer.
#[allow(unused_variables)]
pub fn client_disconnected<S, C>(stream: &mut AutoCleanupStream<S, C>) -> (trailer: Vec<String>)
    ensures
        final(stream)@ == old(stream)@,
        views(trailer@) == chat_trailer(None),
        views(trailer@) == completion_trailer(None),
{
    let mut trailer: Vec<String> = Vec::new();
    trailer.push(done_text());
    assert(views(trailer@) =~= seq![done_event()]);
    trailer
}

/// The events that end a chat stream.
pub fn end_chat_stream(result: Result<(), String>) -> (trailer: Vec<String>)
    ensures
        match result {
            Ok(_) => views(trailer@) == chat_trailer(None),
            Err(e) => views(trailer@) == chat_trailer(Some(e@)),
        },
{
    let mut trailer: Vec<String> = Vec::new();
    if let Err(e) = &result {
        trailer.push(event_text(internal_error_text(e.as_str()).as_str()));
    }
    trailer.push(done_text());
    proof {
        match result {
            Ok(_) => assert(views(trailer@) =~= chat_trailer(None)),
            Err(e) => assert(views(trailer@) =~= chat_trailer(Some(e@))),
        }
    }
    trailer
}

/// The events that end a text completion stream.
pub fn end_completion_stream(result: Result<(), String>) -> (trailer: Vec<String>)
    ensures
        match result {
            Ok(_) => views(trailer@) == completion_trailer(None),
            Err(e) => views(trailer@) == completion_trailer(Some(e@)),
        },
{
    let mut trailer: Vec<String> = Vec::new();
    if let Err(e) = &result {
        trailer.push(event_text(error_text(e.as_str()).as_str()));
    }
    trailer.push(done_text());
    proof {
        match result {
            Ok(_) => assert(views(trailer@) =~= completion_trailer(None)),
            Err(e) => assert(views(trailer@) =~= completion_trailer(Some(e@))),
        }
    }
    trailer
}

/// Whether this is how a chat stream goes on after a step.
pub open spec fn is_chat_progress(
    progress: Progress<ChatCompletionStreamResponse>,
    header: ReplyHeader,
    step: Step,
) -> bool {
    match step {
        Step::Continue => progress is Continue,
        Step::Send { text } => progress matches Progress::Send(chunk) && is_chat_chunk(
            chunk,
            header,
            Some(text),
            None,
        ),
        Step::Finish { reason, error } => {
            &&& progress matches Progress::Finish { last, trailer }
            &&& last is Some <==> reason is Some
            &&& last matches Some(chunk) ==> is_chat_chunk(chunk, header, None, reason)
            &&& views(trailer@) == chat_trailer(error)
        },
    }
}

/// Whether this is how a text completion stream goes on after a step.
pub open spec fn is_completion_progress(
    progress: Progress<String>,
    header: ReplyHeader,
    step: Step,
) -> bool {
    match step {
        Step::Continue => progress is Continue,
        Step::Send { text } => progress matches Progress::Send(sent) && sent@ == completion_event(
            header,
            text,
            None,
        ),
        Step::Finish { reason, error } => {
            &&& progress matches Progress::Finish { last, trailer }
            &&& last is Some <==> reason is Some
            &&& last matches Some(sent) ==> sent@ == completion_event(header, ""@, reason)
            &&& views(trailer@) == completion_trailer(error)
        },
    }
}

/// Processor for reply streams.
pub struct StreamProcessor<T: Tokenizer + ?Sized> {
    tokenizer: Arc<T>,
}

impl<T: Tokenizer + ?Sized> Clone for StreamProcessor<T> {
    /// Another processor that shares the tokenizer.
    fn clone(&self) -> (copy: Self)
        ensures
            copy.tokenizer() == self.tokenizer(),
    {
        StreamProcessor { tokenizer: self.tokenizer.clone() }
    }
}

impl<T: Tokenizer + ?Sized> StreamProcessor<T> {
    /// The tokenizer that chunks are decoded with.
    pub closed spec fn tokenizer(&self) -> Arc<T> {
        self.tokenizer
    }

    /// A processor that decodes chunks with this tokenizer.
    pub fn new(tokenizer: Arc<T>) -> (processor: Self)
        ensures
            processor.tokenizer() == tokenizer,
    {
        StreamProcessor { tokenizer }
    }

    /// Takes one event of a chat stream: the chunk to send for it, or how the stream ends.
    pub fn process_chat_completion<S, C>(
        &self,
        stream: &mut AutoCleanupStream<S, C>,
        header: &ReplyHeader,
        event: StreamEvent,
    ) -> (progress: Progress<ChatCompletionStreamResponse>)
        ensures
            exists|decoded: Result<String, String>| #[trigger]
                may_answer(&*self.tokenizer(), event@, decoded) && is_chat_progress(
                    progress,
                    *header,
                    step(event@, text_result(decoded)),
                ) && final(stream)@ == stream_after(
                    old(stream)@,
                    step(event@, text_result(decoded)),
                ),
    {
        let decoded = decode_event(&*self.tokenizer, &event);
        assert(may_answer(&*self.tokenizer(), event@, decoded));
        match consume_chat_stream(stream, header, event, decoded) {
            Consumed::Continue => Progress::Continue,
            Consumed::Send(chunk) => Progress::Send(chunk),
            Consumed::Finish { last, result } => Progress::Finish {
                last,
                trailer: end_chat_stream(result),
            },
        }
    }

    /// Takes one event of a text completion stream: the event to send for it, or how the stream
    /// ends.
    pub fn process_completion<S, C>(
        &self,
        stream: &mut AutoCleanupStream<S, C>,
        header: &ReplyHeader,
        event: StreamEvent,
    ) -> (progress: Progress<String>)
        ensures
            progress matches Progress::Send(sent) ==> sent@ != done_event(),
            progress matches Progress::Finish { last: Some(sent), trailer } ==> sent@
                != done_event(),
            exists|decoded: Result<String, String>| #[trigger]
                may_answer(&*self.tokenizer(), event@, decoded) && is_completion_progress(
                    progress,
                    *header,
                    step(event@, text_result(decoded)),
                ) && final(stream)@ == stream_after(
                    old(stream)@,
                    step(event@, text_result(decoded)),
                ),
    {
        let decoded = decode_event(&*self.tokenizer, &event);
        assert(may_answer(&*self.tokenizer(), event@, decoded));
        match consume_completion_stream(stream, header, event, decoded) {
            Consumed::Continue => Progress::Continue,
            Consumed::Send(chunk) => Progress::Send(chunk),
            Consumed::Finish { last, result } => Progress::Finish {
                last,
                trailer: end_completion_stream(result),
            },
        }
    }
}

} // verus!
