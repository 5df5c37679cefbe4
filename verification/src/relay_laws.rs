//! Laws of relayed replies: what one event of a worker is answered with, for every event and for
//! whatever the tokenizer makes of its tokens; and laws of the two wrappers of reply streams.

use crate::auto_cleanup_stream::{AbortRequest, AutoCleanupStream};
use crate::chunk::ReplyHeader;
use crate::json::{json_text, Json};
use crate::scheduler::{Event, GenerateComplete, StreamEvent};
use crate::stream_guard::StreamGuard;
use crate::stream_processor::{
    chunk_undelivered, message, process_chat_stream, process_completion_stream, relay_chat_event,
    relay_completion_event, relays_chat, relays_completion, Message, Relay,
};
use crate::text::{decimal, text_result};
use crate::tokenizer::{may_answer, Tokenizer};
use crate::writing_laws::{chat_document, completion_document};
use vstd::prelude::*;

verus! {

/// What is relayed for a chunk: the text of its tokens, or a note that they have none.
pub open spec fn relayed_for(decoded: Result<String, String>) -> Seq<char> {
    match decoded {
        Ok(text) => text@,
        Err(e) => "[ERROR: "@ + e@ + "]"@,
    }
}

/// An event that carries a document.
pub open spec fn carrying(document: Json) -> Seq<char> {
    "data: "@ + json_text(document) + "\n\n"@
}

/// The document that tells an error.
pub open spec fn telling(error: Seq<char>) -> Json {
    Json::Object(map!["error"@ => Json::Str(error)])
}

/// The document that adds this text to a chat.
pub open spec fn chat_text(header: ReplyHeader, text: Seq<char>) -> Json {
    chat_document(
        header.request_id@,
        header.created,
        header.model@,
        map!["content"@ => Json::Str(text)],
        Json::Null,
    )
}

/// The document that ends a chat for this reason.
pub open spec fn chat_reason(header: ReplyHeader, reason: Seq<char>) -> Json {
    chat_document(
        header.request_id@,
        header.created,
        header.model@,
        Map::empty(),
        Json::Str(reason),
    )
}

/// The document that adds this text to a text completion.
pub open spec fn completion_text(header: ReplyHeader, text: Seq<char>) -> Json {
    completion_document(header.request_id@, header.created, header.model@, text, Json::Null)
}

/// The document that ends a text completion for this reason.
pub open spec fn completion_reason(header: ReplyHeader, reason: Seq<char>) -> Json {
    completion_document(
        header.request_id@,
        header.created,
        header.model@,
        Seq::empty(),
        Json::Str(reason),
    )
}

proof fn lemma_zero()
    ensures
        decimal(0) == seq!['0'],
        ""@ == Seq::<char>::empty(),
{
    reveal_strlit("");
    assert(decimal(0) =~= seq!['0']);
    assert(""@ =~= Seq::<char>::empty());
}

/// What a message does to what is shown: the model of a relay, case by case.
pub proof fn lemma_message_of_each_event(event: Event, decoded: Result<Seq<char>, Seq<char>>)
    ensures
        event is Chunk && decoded is Ok ==> message(event, decoded) == Message::Text(
            decoded->Ok_0,
        ),
        event is Chunk && decoded is Err ==> message(event, decoded) == Message::Text(
            "[ERROR: "@ + decoded->Err_0 + "]"@,
        ),
        event matches Event::Complete(complete) ==> message(event, decoded) == Message::Reason(
            complete.finish_reason,
        ),
        event matches Event::Error { message: e } ==> message(event, decoded) == Message::Error(e),
        event matches Event::Failed { status } ==> message(event, decoded) == Message::Error(
            "Stream error: "@ + status,
        ),
        event is Empty ==> message(event, decoded) is Nothing,
        event is End ==> message(event, decoded) is Done,
{
}

/// Every event of a chat is answered at once: a chunk with its text, even an empty one, the end of
/// the generation with its reason, an error with its message, the end of the stream with `[DONE]`.
/// Only the end of the generation changes the guard: it releases the client.
pub proof fn lemma_chat_events_are_relayed<S, C>(
    guard: &mut StreamGuard<S, C>,
    header: &ReplyHeader,
    event: StreamEvent,
    decoded: Result<String, String>,
    relay: Relay,
)
    requires
        call_ensures(relay_chat_event::<S, C>, (guard, header, event, decoded), relay),
    ensures
        event is Chunk ==> {
            &&& relay matches Relay::Chunk(sent)
            &&& sent@ == carrying(chat_text(*header, relayed_for(decoded)))
        },
        event matches StreamEvent::Complete(complete) ==> {
            &&& relay matches Relay::Notice(sent)
            &&& sent@ == carrying(chat_reason(*header, complete.finish_reason@))
            &&& final(guard)@.completed
            &&& final(guard)@.client is None
            &&& final(guard)@.inner == old(guard)@.inner
            &&& final(guard)@.request_id == old(guard)@.request_id
        },
        event matches StreamEvent::Error { message } ==> {
            &&& relay matches Relay::Notice(sent)
            &&& sent@ == carrying(telling(message@))
        },
        event matches StreamEvent::Failed { status } ==> {
            &&& relay matches Relay::Notice(sent)
            &&& sent@ == carrying(telling("Stream error: "@ + status@))
        },
        event is Empty ==> relay is Nothing,
        event is End ==> {
            &&& relay matches Relay::Done(sent)
            &&& sent@ == "data: [DONE]\n\n"@
        },
        !(event is Complete) ==> final(guard)@ == old(guard)@,
{
    lemma_zero();
}

/// Every event of a text completion is answered at once: a chunk with its text, even an empty one,
/// the end of the generation with its reason, an error with its message, the end of the stream
/// with `[DONE]`. Only the end of the generation changes the guard: it releases the client.
pub proof fn lemma_completion_events_are_relayed<S, C>(
    guard: &mut StreamGuard<S, C>,
    header: &ReplyHeader,
    event: StreamEvent,
    decoded: Result<String, String>,
    relay: Relay,
)
    requires
        call_ensures(relay_completion_event::<S, C>, (guard, header, event, decoded), relay),
    ensures
        event is Chunk ==> {
            &&& relay matches Relay::Chunk(sent)
            &&& sent@ == carrying(completion_text(*header, relayed_for(decoded)))
        },
        event matches StreamEvent::Complete(complete) ==> {
            &&& relay matches Relay::Notice(sent)
            &&& sent@ == carrying(completion_reason(*header, complete.finish_reason@))
            &&& final(guard)@.completed
            &&& final(guard)@.client is None
            &&& final(guard)@.inner == old(guard)@.inner
            &&& final(guard)@.request_id == old(guard)@.request_id
        },
        event matches StreamEvent::Error { message } ==> {
            &&& relay matches Relay::Notice(sent)
            &&& sent@ == carrying(telling(message@))
        },
        event matches StreamEvent::Failed { status } ==> {
            &&& relay matches Relay::Notice(sent)
            &&& sent@ == carrying(telling("Stream error: "@ + status@))
        },
        event is Empty ==> relay is Nothing,
        event is End ==> {
            &&& relay matches Relay::Done(sent)
            &&& sent@ == "data: [DONE]\n\n"@
        },
        !(event is Complete) ==> final(guard)@ == old(guard)@,
{
    lemma_zero();
}

/// The tokens of each chunk of a chat are decoded without the special ones, and what the tokenizer
/// answers is relayed. The other events are answered without it.
pub proof fn lemma_chat_is_relayed_as_decoded<S, C, T: Tokenizer + ?Sized>(
    guard: &mut StreamGuard<S, C>,
    header: &ReplyHeader,
    tokenizer: &T,
    event: StreamEvent,
    relay: Relay,
)
    requires
        call_ensures(process_chat_stream::<S, C, T>, (guard, header, tokenizer, event), relay),
    ensures
        event matches StreamEvent::Chunk { token_ids } ==> exists|
            asked: &[u32],
            decoded: Result<String, String>,
        |
            asked@ == token_ids@ && #[trigger] call_ensures(
                T::decode,
                (tokenizer, asked, true),
                decoded,
            ) && relay is Chunk && relay->Chunk_0@ == carrying(
                chat_text(*header, relayed_for(decoded)),
            ),
        event matches StreamEvent::Complete(complete) ==> {
            &&& relay matches Relay::Notice(sent)
            &&& sent@ == carrying(chat_reason(*header, complete.finish_reason@))
            &&& final(guard)@.completed
            &&& final(guard)@.client is None
        },
        event matches StreamEvent::Error { message } ==> {
            &&& relay matches Relay::Notice(sent)
            &&& sent@ == carrying(telling(message@))
        },
        event matches StreamEvent::Failed { status } ==> {
            &&& relay matches Relay::Notice(sent)
            &&& sent@ == carrying(telling("Stream error: "@ + status@))
        },
        event is Empty ==> relay is Nothing,
        event is End ==> {
            &&& relay matches Relay::Done(sent)
            &&& sent@ == "data: [DONE]\n\n"@
        },
        !(event is Complete) ==> final(guard)@ == old(guard)@,
{
    lemma_zero();
    if let StreamEvent::Chunk { token_ids } = event {
        let decoded = choose|decoded: Result<String, String>| #[trigger]
            may_answer(tokenizer, event@, decoded) && relays_chat(
                relay,
                *header,
                message(event@, text_result(decoded)),
            );
        let asked = choose|asked: &[u32]|
            asked@ == token_ids@ && #[trigger] call_ensures(
                T::decode,
                (tokenizer, asked, true),
                decoded,
            );
        assert(call_ensures(T::decode, (tokenizer, asked, true), decoded));
    }
}

/// The tokens of each chunk of a text completion are decoded without the special ones, and what the
/// tokenizer answers is relayed. The other events are answered without it.
pub proof fn lemma_completion_is_relayed_as_decoded<S, C, T: Tokenizer + ?Sized>(
    guard: &mut StreamGuard<S, C>,
    header: &ReplyHeader,
    tokenizer: &T,
    event: StreamEvent,
    relay: Relay,
)
    requires
        call_ensures(
            process_completion_stream::<S, C, T>,
            (guard, header, tokenizer, event),
            relay,
        ),
    ensures
        event matches StreamEvent::Chunk { token_ids } ==> exists|
            asked: &[u32],
            decoded: Result<String, String>,
        |
            asked@ == token_ids@ && #[trigger] call_ensures(
                T::decode,
                (tokenizer, asked, true),
                decoded,
            ) && relay is Chunk && relay->Chunk_0@ == carrying(
                completion_text(*header, relayed_for(decoded)),
            ),
        event matches StreamEvent::Complete(complete) ==> {
            &&& relay matches Relay::Notice(sent)
            &&& sent@ == carrying(completion_reason(*header, complete.finish_reason@))
            &&& final(guard)@.completed
            &&& final(guard)@.client is None
        },
        event matches StreamEvent::Error { message } ==> {
            &&& relay matches Relay::Notice(sent)
            &&& sent@ == carrying(telling(message@))
        },
        event matches StreamEvent::Failed { status } ==> {
            &&& relay matches Relay::Notice(sent)
            &&& sent@ == carrying(telling("Stream error: "@ + status@))
        },
        event is Empty ==> relay is Nothing,
        event is End ==> {
            &&& relay matches Relay::Done(sent)
            &&& sent@ == "data: [DONE]\n\n"@
        },
        !(event is Complete) ==> final(guard)@ == old(guard)@,
{
    lemma_zero();
    if let StreamEvent::Chunk { token_ids } = event {
        let decoded = choose|decoded: Result<String, String>| #[trigger]
            may_answer(tokenizer, event@, decoded) && relays_completion(
                relay,
                *header,
                message(event@, text_result(decoded)),
            );
        let asked = choose|asked: &[u32]|
            asked@ == token_ids@ && #[trigger] call_ensures(
                T::decode,
                (tokenizer, asked, true),
                decoded,
            );
        assert(call_ensures(T::decode, (tokenizer, asked, true), decoded));
    }
}

/// A chunk that cannot be sent ends a relay with `[DONE]`, and leaves the guard as it is.
pub proof fn lemma_undelivered_chunk_ends_a_relay<S, C>(
    guard: &mut StreamGuard<S, C>,
    relay: Relay,
)
    requires
        call_ensures(chunk_undelivered::<S, C>, (guard,), relay),
    ensures
        relay matches Relay::Done(sent) && sent@ == "data: [DONE]\n\n"@,
        final(guard)@ == old(guard)@,
{
}

/// A guard is made unfinished and with its client; marking it takes the client away, and nothing
/// else of it.
pub proof fn lemma_guard_life<S, C>(
    stream: S,
    request_id: String,
    client: C,
    made: StreamGuard<S, C>,
    guard: &mut StreamGuard<S, C>,
)
    requires
        call_ensures(StreamGuard::<S, C>::new, (stream, request_id, client), made),
        call_ensures(StreamGuard::<S, C>::mark_completed, (guard,), ()),
    ensures
        made@.inner == stream,
        made@.request_id == request_id@,
        made@.client == Some(client),
        !made@.completed,
        final(guard)@.completed,
        final(guard)@.client is None,
        final(guard)@.inner == old(guard)@.inner,
        final(guard)@.request_id == old(guard)@.request_id,
{
}

/// A guard that is dropped unfinished aborts its request with its own client, once: no client is
/// left behind. A finished one aborts nothing.
pub proof fn lemma_guard_aborts_its_request<S, C>(
    guard: &mut StreamGuard<S, C>,
    abort: Option<AbortRequest<C>>,
)
    requires
        call_ensures(StreamGuard::<S, C>::abort_on_drop, (guard,), abort),
    ensures
        abort is Some <==> !old(guard)@.completed && old(guard)@.client is Some,
        abort matches Some(request) ==> {
            &&& old(guard)@.client == Some(request.client)
            &&& request.request_id@ == old(guard)@.request_id
            &&& request.reason@ == "Stream dropped before completion"@
            &&& final(guard)@.client is None
        },
        final(guard)@.completed == old(guard)@.completed,
        final(guard)@.inner == old(guard)@.inner,
        final(guard)@.request_id == old(guard)@.request_id,
{
}

/// What a guard tells about itself.
pub proof fn lemma_guard_tells_its_state<S, C>(
    guard: &StreamGuard<S, C>,
    id: &str,
    completed: bool,
)
    requires
        call_ensures(StreamGuard::<S, C>::request_id, (guard,), id),
        call_ensures(StreamGuard::<S, C>::is_completed, (guard,), completed),
    ensures
        id@ == guard@.request_id,
        completed == guard@.completed,
{
}

/// A stream is wrapped unfinished; marking it changes nothing else of it.
pub proof fn lemma_stream_life<S, C>(
    inner: S,
    request_id: String,
    client: C,
    made: AutoCleanupStream<S, C>,
    stream: &mut AutoCleanupStream<S, C>,
)
    requires
        call_ensures(AutoCleanupStream::<S, C>::new, (inner, request_id, client), made),
        call_ensures(AutoCleanupStream::<S, C>::mark_completed, (stream,), ()),
    ensures
        made@.inner == inner,
        made@.request_id == request_id@,
        made@.client == client,
        !made@.completed,
        final(stream)@.completed,
        final(stream)@.inner == old(stream)@.inner,
        final(stream)@.request_id == old(stream)@.request_id,
        final(stream)@.client == old(stream)@.client,
{
}

/// A stream that is dropped unfinished aborts its request, with a clone of its client; a finished
/// one aborts nothing. Either way it is finished afterwards, so that no second abort follows.
pub proof fn lemma_stream_aborts_its_request<S, C: Clone>(
    stream: &mut AutoCleanupStream<S, C>,
    abort: Option<AbortRequest<C>>,
)
    requires
        call_ensures(AutoCleanupStream::<S, C>::abort_on_drop, (stream,), abort),
    ensures
        abort is Some <==> !old(stream)@.completed,
        abort matches Some(request) ==> {
            &&& cloned(old(stream)@.client, request.client)
            &&& request.request_id@ == old(stream)@.request_id
            &&& request.reason@ == "Stream dropped"@
        },
        final(stream)@.completed,
        final(stream)@.inner == old(stream)@.inner,
        final(stream)@.request_id == old(stream)@.request_id,
        final(stream)@.client == old(stream)@.client,
{
}

/// What a stream tells about itself.
pub proof fn lemma_stream_tells_its_state<S, C>(
    stream: &AutoCleanupStream<S, C>,
    id: &str,
    completed: bool,
)
    requires
        call_ensures(AutoCleanupStream::<S, C>::request_id, (stream,), id),
        call_ensures(AutoCleanupStream::<S, C>::is_completed, (stream,), completed),
    ensures
        id@ == stream@.request_id,
        completed == stream@.completed,
{
}

/// The streams inside are handed out to be read, and come back as they were left.
pub proof fn lemma_streams_are_handed_out<S, C>(
    stream: &mut AutoCleanupStream<S, C>,
    from_stream: &mut S,
    guard: &mut StreamGuard<S, C>,
    from_guard: &mut S,
)
    requires
        call_ensures(AutoCleanupStream::<S, C>::stream_mut, (stream,), from_stream),
        call_ensures(StreamGuard::<S, C>::stream_mut, (guard,), from_guard),
    ensures
        *old(from_stream) == old(stream)@.inner,
        final(stream)@.inner == *final(from_stream),
        final(stream)@.completed == old(stream)@.completed,
        final(stream)@.request_id == old(stream)@.request_id,
        final(stream)@.client == old(stream)@.client,
        *old(from_guard) == old(guard)@.inner,
        final(guard)@.inner == *final(from_guard),
        final(guard)@.completed == old(guard)@.completed,
        final(guard)@.request_id == old(guard)@.request_id,
        final(guard)@.client == old(guard)@.client,
{
}

/// What an event is, as the laws speak of it: just what was read.
pub proof fn lemma_events_are_what_was_read(
    token_ids: Vec<u32>,
    complete: GenerateComplete,
    text: String,
)
    ensures
        (StreamEvent::Chunk { token_ids })@ == (Event::Chunk { token_ids: token_ids@ }),
        StreamEvent::Complete(complete)@ matches Event::Complete(c) && c.output_ids
            == complete.output_ids@ && c.finish_reason == complete.finish_reason@
            && c.completion_tokens == complete.completion_tokens,
        (StreamEvent::Error { message: text })@ == (Event::Error { message: text@ }),
        StreamEvent::Empty@ == Event::Empty,
        (StreamEvent::Failed { status: text })@ == (Event::Failed { status: text@ }),
        StreamEvent::End@ == Event::End,
{
}

} // verus!
