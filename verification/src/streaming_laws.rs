//! Laws of streamed replies: what one event of a worker becomes, for every event and for whatever
//! the tokenizer makes of its tokens.

use crate::auto_cleanup_stream::AutoCleanupStream;
use crate::chunk::ReplyHeader;
use crate::json::{json_text, Json};
use crate::protocol::ChatCompletionStreamResponse;
use crate::scheduler::{Event, GenerateComplete, StreamEvent};
use crate::sse::{build_sse_response, ResponseHead};
use crate::stream_processor_v2::{
    client_disconnected, consume_chat_stream, consume_completion_stream, end_chat_stream,
    end_completion_stream, is_chat_progress, is_completion_progress, step, stream_after, Consumed,
    Progress, Step, StreamProcessor,
};
use crate::text::{decimal, text_result, views};
use crate::tokenizer::{may_answer, Tokenizer};
use crate::transcript::{
    content_of, end_of, lemma_content_is_complete, lemma_end_in_range, text_of, transcript,
    Reading,
};
use crate::writing_laws::completion_document;
use std::sync::Arc;
use vstd::prelude::*;

verus! {

/// What is shown for a chunk: the text of its tokens, or a note that they have none.
pub open spec fn shown_for(decoded: Result<String, String>) -> Seq<char> {
    match decoded {
        Ok(text) => text@,
        Err(e) => "[Decode error: "@ + e@ + "]"@,
    }
}

/// A chat chunk that belongs to a reply: one choice, and nothing beside its delta and its reason.
pub open spec fn belongs(chunk: ChatCompletionStreamResponse, header: ReplyHeader) -> bool {
    &&& chunk.id@ == header.request_id@
    &&& chunk.object@ == "chat.completion.chunk"@
    &&& chunk.created == header.created
    &&& chunk.model@ == header.model@
    &&& chunk.choices@.len() == 1
    &&& chunk.choices@[0].index == 0
    &&& chunk.choices@[0].logprobs is None
    &&& chunk.choices@[0].delta.function_call is None
    &&& chunk.choices@[0].delta.tool_calls is None
    &&& chunk.choices@[0].delta.reasoning_content is None
    &&& chunk.usage is None
    &&& chunk.system_fingerprint is None
}

/// A chat chunk that adds this text and does not end the reply.
pub open spec fn adds(
    chunk: ChatCompletionStreamResponse,
    header: ReplyHeader,
    text: Seq<char>,
) -> bool {
    &&& belongs(chunk, header)
    &&& chunk.choices@[0].delta.role matches Some(role) && role@ == "assistant"@
    &&& chunk.choices@[0].delta.content matches Some(content) && content@ == text
    &&& chunk.choices@[0].finish_reason is None
}

/// A chat chunk that ends the reply for this reason and adds nothing.
pub open spec fn ends(
    chunk: ChatCompletionStreamResponse,
    header: ReplyHeader,
    reason: Seq<char>,
) -> bool {
    &&& belongs(chunk, header)
    &&& chunk.choices@[0].delta.role is None
    &&& chunk.choices@[0].delta.content is None
    &&& chunk.choices@[0].finish_reason matches Some(r) && r@ == reason
}

/// An event that adds this text to a text completion and does not end it.
pub open spec fn added(header: ReplyHeader, text: Seq<char>) -> Seq<char> {
    "data: "@ + json_text(
        completion_document(header.request_id@, header.created, header.model@, text, Json::Null),
    ) + "\n\n"@
}

/// An event that ends a text completion for this reason and adds nothing.
pub open spec fn ended(header: ReplyHeader, reason: Seq<char>) -> Seq<char> {
    "data: "@ + json_text(
        completion_document(
            header.request_id@,
            header.created,
            header.model@,
            Seq::empty(),
            Json::Str(reason),
        ),
    ) + "\n\n"@
}

/// A chat sends the text of every chunk as it is, unless that is empty, and reads on. The stream is
/// left alone.
pub proof fn lemma_chat_sends_chunks<S, C>(
    stream: &mut AutoCleanupStream<S, C>,
    header: &ReplyHeader,
    token_ids: Vec<u32>,
    decoded: Result<String, String>,
    consumed: Consumed<ChatCompletionStreamResponse>,
)
    requires
        call_ensures(
            consume_chat_stream::<S, C>,
            (stream, header, StreamEvent::Chunk { token_ids }, decoded),
            consumed,
        ),
    ensures
        shown_for(decoded).len() == 0 ==> consumed is Continue,
        shown_for(decoded).len() > 0 ==> {
            &&& consumed matches Consumed::Send(chunk)
            &&& adds(chunk, *header, shown_for(decoded))
        },
        final(stream)@ == old(stream)@,
{
}

/// A chat ends with the reason that the worker gives, and is completed.
pub proof fn lemma_chat_ends_with_its_reason<S, C>(
    stream: &mut AutoCleanupStream<S, C>,
    header: &ReplyHeader,
    complete: GenerateComplete,
    decoded: Result<String, String>,
    consumed: Consumed<ChatCompletionStreamResponse>,
)
    requires
        call_ensures(
            consume_chat_stream::<S, C>,
            (stream, header, StreamEvent::Complete(complete), decoded),
            consumed,
        ),
    ensures
        consumed matches Consumed::Finish { last: Some(chunk), result } && ends(
            chunk,
            *header,
            complete.finish_reason@,
        ) && result is Ok,
        final(stream)@.completed,
        final(stream)@.inner == old(stream)@.inner,
        final(stream)@.request_id == old(stream)@.request_id,
        final(stream)@.client == old(stream)@.client,
{
}

/// Errors of the worker and of the stream end a chat with their message, and leave the stream to be
/// aborted. Messages without content do nothing; a stream that runs out ends well.
pub proof fn lemma_chat_without_tokens<S, C>(
    stream: &mut AutoCleanupStream<S, C>,
    header: &ReplyHeader,
    event: StreamEvent,
    decoded: Result<String, String>,
    consumed: Consumed<ChatCompletionStreamResponse>,
)
    requires
        call_ensures(consume_chat_stream::<S, C>, (stream, header, event, decoded), consumed),
    ensures
        event matches StreamEvent::Error { message } ==> {
            &&& consumed matches Consumed::Finish { last: None, result: Err(e) }
            &&& e@ == message@
        },
        event matches StreamEvent::Failed { status } ==> {
            &&& consumed matches Consumed::Finish { last: None, result: Err(e) }
            &&& e@ == "Stream error: "@ + status@
        },
        event is Empty ==> consumed is Continue,
        event is End ==> consumed matches Consumed::Finish { last: None, result: Ok(_) },
        event is Error || event is Failed || event is Empty ==> final(stream)@ == old(stream)@,
        event is End ==> final(stream)@.completed,
{
}

/// A text completion sends the text of every chunk as it is, unless that is empty, and reads on.
/// The stream is left alone.
pub proof fn lemma_completion_sends_chunks<S, C>(
    stream: &mut AutoCleanupStream<S, C>,
    header: &ReplyHeader,
    token_ids: Vec<u32>,
    decoded: Result<String, String>,
    consumed: Consumed<String>,
)
    requires
        call_ensures(
            consume_completion_stream::<S, C>,
            (stream, header, StreamEvent::Chunk { token_ids }, decoded),
            consumed,
        ),
    ensures
        shown_for(decoded).len() == 0 ==> consumed is Continue,
        shown_for(decoded).len() > 0 ==> {
            &&& consumed matches Consumed::Send(sent)
            &&& sent@ == added(*header, shown_for(decoded))
        },
        final(stream)@ == old(stream)@,
{
    lemma_zero();
}

/// A text completion ends with the reason that the worker gives, and is completed.
pub proof fn lemma_completion_ends_with_its_reason<S, C>(
    stream: &mut AutoCleanupStream<S, C>,
    header: &ReplyHeader,
    complete: GenerateComplete,
    decoded: Result<String, String>,
    consumed: Consumed<String>,
)
    requires
        call_ensures(
            consume_completion_stream::<S, C>,
            (stream, header, StreamEvent::Complete(complete), decoded),
            consumed,
        ),
    ensures
        consumed matches Consumed::Finish { last: Some(sent), result } && sent@ == ended(
            *header,
            complete.finish_reason@,
        ) && result is Ok,
        final(stream)@.completed,
        final(stream)@.inner == old(stream)@.inner,
        final(stream)@.request_id == old(stream)@.request_id,
        final(stream)@.client == old(stream)@.client,
{
    lemma_zero();
}

/// Errors of the worker and of the stream end a text completion with their message, and leave the
/// stream to be aborted. Messages without content do nothing; a stream that runs out ends well.
pub proof fn lemma_completion_without_tokens<S, C>(
    stream: &mut AutoCleanupStream<S, C>,
    header: &ReplyHeader,
    event: StreamEvent,
    decoded: Result<String, String>,
    consumed: Consumed<String>,
)
    requires
        call_ensures(consume_completion_stream::<S, C>, (stream, header, event, decoded), consumed),
    ensures
        event matches StreamEvent::Error { message } ==> {
            &&& consumed matches Consumed::Finish { last: None, result: Err(e) }
            &&& e@ == message@
        },
        event matches StreamEvent::Failed { status } ==> {
            &&& consumed matches Consumed::Finish { last: None, result: Err(e) }
            &&& e@ == "Stream error: "@ + status@
        },
        event is Empty ==> consumed is Continue,
        event is End ==> consumed matches Consumed::Finish { last: None, result: Ok(_) },
        event is Error || event is Failed || event is Empty ==> final(stream)@ == old(stream)@,
        event is End ==> final(stream)@.completed,
{
}

proof fn lemma_zero()
    ensures
        decimal(0) == seq!['0'],
        ""@ == Seq::<char>::empty(),
{
    reveal_strlit("");
    assert(decimal(0) =~= seq!['0']);
    assert(""@ =~= Seq::<char>::empty());
}

/// The last events of a chat: `[DONE]` alone if it ended well, otherwise the error and then
/// `[DONE]`.
pub proof fn lemma_chat_trailer(result: Result<(), String>, trailer: Vec<String>)
    requires
        call_ensures(end_chat_stream, (result,), trailer),
    ensures
        result is Ok ==> trailer@.len() == 1 && trailer@[0]@ == "data: [DONE]\n\n"@,
        result matches Err(e) ==> {
            &&& trailer@.len() == 2
            &&& trailer@[0]@ == "data: "@ + json_text(
                Json::Object(
                    map![
                        "error"@ => Json::Object(
                            map![
                                "message"@ => Json::Str(e@),
                                "type"@ => Json::Str("internal_error"@),
                            ],
                        ),
                    ],
                ),
            ) + "\n\n"@
            &&& trailer@[1]@ == "data: [DONE]\n\n"@
        },
{
    assert(views(trailer@).len() == trailer@.len());
    assert(trailer@.len() > 0 ==> views(trailer@)[0] == trailer@[0]@);
    assert(trailer@.len() > 1 ==> views(trailer@)[1] == trailer@[1]@);
}

/// The last events of a text completion: `[DONE]` alone if it ended well, otherwise the error and
/// then `[DONE]`.
pub proof fn lemma_completion_trailer(result: Result<(), String>, trailer: Vec<String>)
    requires
        call_ensures(end_completion_stream, (result,), trailer),
    ensures
        result is Ok ==> trailer@.len() == 1 && trailer@[0]@ == "data: [DONE]\n\n"@,
        result matches Err(e) ==> {
            &&& trailer@.len() == 2
            &&& trailer@[0]@ == "data: "@ + json_text(
                Json::Object(map!["error"@ => Json::Str(e@)]),
            ) + "\n\n"@
            &&& trailer@[1]@ == "data: [DONE]\n\n"@
        },
{
    assert(views(trailer@).len() == trailer@.len());
    assert(trailer@.len() > 0 ==> views(trailer@)[0] == trailer@[0]@);
    assert(trailer@.len() > 1 ==> views(trailer@)[1] == trailer@[1]@);
}

/// A client that is gone is still owed `[DONE]`, and nothing else; the stream is left to be
/// aborted.
pub proof fn lemma_disconnected_trailer<S, C>(
    stream: &mut AutoCleanupStream<S, C>,
    trailer: Vec<String>,
)
    requires
        call_ensures(client_disconnected::<S, C>, (stream,), trailer),
    ensures
        trailer@.len() == 1,
        trailer@[0]@ == "data: [DONE]\n\n"@,
        final(stream)@ == old(stream)@,
{
    assert(views(trailer@).len() == trailer@.len());
    assert(views(trailer@)[0] == trailer@[0]@);
}

/// Whether a tokenizer may answer this when it is asked for the text of these tokens without the
/// special ones.
pub open spec fn decodes<T: Tokenizer + ?Sized>(
    tokenizer: Arc<T>,
    token_ids: Seq<u32>,
    decoded: Result<String, String>,
) -> bool {
    exists|asked: &[u32]|
        asked@ == token_ids && #[trigger] call_ensures(
            T::decode,
            (&*tokenizer, asked, true),
            decoded,
        )
}

/// A processor asks its tokenizer for the text of exactly the tokens of a chunk, and sends a chat
/// what it answers, unless that is empty.
pub proof fn lemma_processor_sends_chat_chunks<T: Tokenizer + ?Sized, S, C>(
    processor: &StreamProcessor<T>,
    stream: &mut AutoCleanupStream<S, C>,
    header: &ReplyHeader,
    token_ids: Vec<u32>,
    progress: Progress<ChatCompletionStreamResponse>,
)
    requires
        call_ensures(
            StreamProcessor::<T>::process_chat_completion::<S, C>,
            (processor, stream, header, StreamEvent::Chunk { token_ids }),
            progress,
        ),
    ensures
        exists|decoded: Result<String, String>| #[trigger]
            decodes(processor.tokenizer(), token_ids@, decoded) && if shown_for(decoded).len()
                == 0 {
                progress is Continue
            } else {
                progress matches Progress::Send(chunk) && adds(chunk, *header, shown_for(decoded))
            },
        final(stream)@ == old(stream)@,
{
    let event = StreamEvent::Chunk { token_ids };
    let decoded = choose|decoded: Result<String, String>| #[trigger]
        may_answer(&*processor.tokenizer(), event@, decoded)
            && is_chat_progress(
            progress,
            *header,
            step(event@, text_result(decoded)),
        ) && final(stream)@ == stream_after(
            old(stream)@,
            step(event@, text_result(decoded)),
        );
    assert(decodes(processor.tokenizer(), token_ids@, decoded));
}

/// A processor asks its tokenizer for the text of exactly the tokens of a chunk, and sends a text
/// completion what it answers, unless that is empty.
pub proof fn lemma_processor_sends_completion_chunks<T: Tokenizer + ?Sized, S, C>(
    processor: &StreamProcessor<T>,
    stream: &mut AutoCleanupStream<S, C>,
    header: &ReplyHeader,
    token_ids: Vec<u32>,
    progress: Progress<String>,
)
    requires
        call_ensures(
            StreamProcessor::<T>::process_completion::<S, C>,
            (processor, stream, header, StreamEvent::Chunk { token_ids }),
            progress,
        ),
    ensures
        exists|decoded: Result<String, String>| #[trigger]
            decodes(processor.tokenizer(), token_ids@, decoded) && if shown_for(decoded).len()
                == 0 {
                progress is Continue
            } else {
                progress matches Progress::Send(sent) && sent@ == added(
                    *header,
                    shown_for(decoded),
                )
            },
        final(stream)@ == old(stream)@,
{
    lemma_zero();
    let event = StreamEvent::Chunk { token_ids };
    let decoded = choose|decoded: Result<String, String>| #[trigger]
        may_answer(&*processor.tokenizer(), event@, decoded)
            && is_completion_progress(
            progress,
            *header,
            step(event@, text_result(decoded)),
        ) && final(stream)@ == stream_after(
            old(stream)@,
            step(event@, text_result(decoded)),
        );
    assert(decodes(processor.tokenizer(), token_ids@, decoded));
}

/// The end of a chat, as a processor reports it: the reason or the error of the worker, then
/// `[DONE]`. Only a chat that ended well is completed.
pub proof fn lemma_processor_ends_chats<T: Tokenizer + ?Sized, S, C>(
    processor: &StreamProcessor<T>,
    stream: &mut AutoCleanupStream<S, C>,
    header: &ReplyHeader,
    event: StreamEvent,
    progress: Progress<ChatCompletionStreamResponse>,
)
    requires
        call_ensures(
            StreamProcessor::<T>::process_chat_completion::<S, C>,
            (processor, stream, header, event),
            progress,
        ),
    ensures
        event is Empty ==> progress is Continue && final(stream)@ == old(stream)@,
        event matches StreamEvent::Complete(complete) ==> {
            &&& progress matches Progress::Finish { last: Some(chunk), trailer }
            &&& ends(chunk, *header, complete.finish_reason@)
            &&& trailer@.len() == 1
            &&& trailer@[0]@ == "data: [DONE]\n\n"@
            &&& final(stream)@.completed
        },
        event matches StreamEvent::End ==> {
            &&& progress matches Progress::Finish { last: None, trailer }
            &&& trailer@.len() == 1
            &&& trailer@[0]@ == "data: [DONE]\n\n"@
            &&& final(stream)@.completed
        },
        event is Error || event is Failed ==> {
            &&& progress matches Progress::Finish { last: None, trailer }
            &&& trailer@.len() == 2
            &&& trailer@[0]@ == "data: "@ + json_text(
                Json::Object(
                    map![
                        "error"@ => Json::Object(
                            map![
                                "message"@ => Json::Str(
                                    if event is Error {
                                        event->message@
                                    } else {
                                        "Stream error: "@ + event->status@
                                    },
                                ),
                                "type"@ => Json::Str("internal_error"@),
                            ],
                        ),
                    ],
                ),
            ) + "\n\n"@
            &&& trailer@[1]@ == "data: [DONE]\n\n"@
            &&& final(stream)@ == old(stream)@
        },
{
    if let Progress::Finish { last, trailer } = progress {
        assert(views(trailer@).len() == trailer@.len());
        assert(trailer@.len() > 0 ==> views(trailer@)[0] == trailer@[0]@);
        assert(trailer@.len() > 1 ==> views(trailer@)[1] == trailer@[1]@);
    }
}

/// The end of a text completion, as a processor reports it: the reason or the error of the worker,
/// then `[DONE]`. Only a text completion that ended well is completed.
pub proof fn lemma_processor_ends_completions<T: Tokenizer + ?Sized, S, C>(
    processor: &StreamProcessor<T>,
    stream: &mut AutoCleanupStream<S, C>,
    header: &ReplyHeader,
    event: StreamEvent,
    progress: Progress<String>,
)
    requires
        call_ensures(
            StreamProcessor::<T>::process_completion::<S, C>,
            (processor, stream, header, event),
            progress,
        ),
    ensures
        event is Empty ==> progress is Continue && final(stream)@ == old(stream)@,
        event matches StreamEvent::Complete(complete) ==> {
            &&& progress matches Progress::Finish { last: Some(sent), trailer }
            &&& sent@ == ended(*header, complete.finish_reason@)
            &&& trailer@.len() == 1
            &&& trailer@[0]@ == "data: [DONE]\n\n"@
            &&& final(stream)@.completed
        },
        event matches StreamEvent::End ==> {
            &&& progress matches Progress::Finish { last: None, trailer }
            &&& trailer@.len() == 1
            &&& trailer@[0]@ == "data: [DONE]\n\n"@
            &&& final(stream)@.completed
        },
        event is Error || event is Failed ==> {
            &&& progress matches Progress::Finish { last: None, trailer }
            &&& trailer@.len() == 2
            &&& trailer@[0]@ == "data: "@ + json_text(
                Json::Object(
                    map![
                        "error"@ => Json::Str(
                            if event is Error {
                                event->message@
                            } else {
                                "Stream error: "@ + event->status@
                            },
                        ),
                    ],
                ),
            ) + "\n\n"@
            &&& trailer@[1]@ == "data: [DONE]\n\n"@
            &&& final(stream)@ == old(stream)@
        },
{
    lemma_zero();
    if let Progress::Finish { last, trailer } = progress {
        assert(views(trailer@).len() == trailer@.len());
        assert(trailer@.len() > 0 ==> views(trailer@)[0] == trailer@[0]@);
        assert(trailer@.len() > 1 ==> views(trailer@)[1] == trailer@[1]@);
    }
}

/// A processor decodes with the tokenizer that it is made with, and so do its clones.
pub proof fn lemma_processor_keeps_its_tokenizer<T: Tokenizer + ?Sized>(
    tokenizer: Arc<T>,
    processor: StreamProcessor<T>,
    copy: StreamProcessor<T>,
)
    requires
        call_ensures(StreamProcessor::<T>::new, (tokenizer,), processor),
        call_ensures(StreamProcessor::<T>::clone, (&processor,), copy),
    ensures
        processor.tokenizer() == tokenizer,
        copy.tokenizer() == tokenizer,
{
}

/// A response of events is announced as such, is not to be cached, and keeps its connection.
pub proof fn lemma_head_announces_events(head: ResponseHead)
    requires
        call_ensures(build_sse_response, (), head),
    ensures
        head.status == 200,
        head.headers@.len() == 3,
        head.headers@[0].0@ == "content-type"@ && head.headers@[0].1@ == "text/event-stream"@,
        head.headers@[1].0@ == "Cache-Control"@ && head.headers@[1].1@ == "no-cache"@,
        head.headers@[2].0@ == "Connection"@ && head.headers@[2].1@ == "keep-alive"@,
{
}

/// The texts that the tokenizer gave for the chunks among these readings, one after the other.
pub open spec fn decoded_texts(readings: Seq<Reading>) -> Seq<char>
    decreases readings.len(),
{
    if readings.len() == 0 {
        seq![]
    } else if readings[0].event is Chunk {
        readings[0].decoded->Ok_0 + decoded_texts(readings.drop_first())
    } else {
        decoded_texts(readings.drop_first())
    }
}

proof fn lemma_decoded_texts(readings: Seq<Reading>)
    requires
        forall|i: int| 0 <= i < readings.len() ==> (#[trigger] readings[i]).decoded is Ok,
    ensures
        text_of(readings) == decoded_texts(readings),
    decreases readings.len(),
{
    if readings.len() > 0 {
        let rest = readings.drop_first();
        assert forall|i: int| 0 <= i < rest.len() implies (#[trigger] rest[i]).decoded is Ok by {
            assert(rest[i] == readings[i + 1]);
        }
        lemma_decoded_texts(rest);
        assert(readings[0].decoded is Ok);
        if !(readings[0].event is Chunk) {
            assert(text_of(readings) =~= text_of(rest));
        }
    }
}

/// A client that stays connected reads what the tokenizer gave for the chunks of the worker, one
/// after the other, character for character.
pub proof fn lemma_client_reads_the_decoded_texts(readings: Seq<Reading>)
    requires
        forall|i: int| 0 <= i < readings.len() ==> (#[trigger] readings[i]).delivered,
        forall|i: int| 0 <= i < readings.len() ==> (#[trigger] readings[i]).decoded is Ok,
    ensures
        content_of(transcript(readings)) == decoded_texts(readings.take(end_of(readings) as int)),
{
    lemma_content_is_complete(readings);
    lemma_end_in_range(readings);
    let read = readings.take(end_of(readings) as int);
    assert forall|i: int| 0 <= i < read.len() implies (#[trigger] read[i]).decoded is Ok by {
        assert(read[i] == readings[i]);
    }
    lemma_decoded_texts(read);
}

/// What an event does, whatever the tokenizer said: the text of a chunk is sent unless it is empty,
/// and the reason or the error of the worker ends the reply.
pub proof fn lemma_step_of_each_event(event: Event, decoded: Result<Seq<char>, Seq<char>>)
    ensures
        event is Chunk && decoded is Ok && decoded->Ok_0.len() > 0 ==> step(event, decoded) == (
        Step::Send { text: decoded->Ok_0 }),
        event is Chunk && decoded is Ok && decoded->Ok_0.len() == 0 ==> step(event, decoded)
            is Continue,
        event is Chunk && decoded is Err ==> step(event, decoded) == (Step::Send {
            text: "[Decode error: "@ + decoded->Err_0 + "]"@,
        }),
        event matches Event::Complete(complete) ==> step(event, decoded) == (Step::Finish {
            reason: Some(complete.finish_reason),
            error: None,
        }),
        event matches Event::Error { message } ==> step(event, decoded) == (Step::Finish {
            reason: None,
            error: Some(message),
        }),
        event is Empty ==> step(event, decoded) is Continue,
        event matches Event::Failed { status } ==> step(event, decoded) == (Step::Finish {
            reason: None,
            error: Some("Stream error: "@ + status),
        }),
        event is End ==> step(event, decoded) == (Step::Finish { reason: None, error: None }),
{
    reveal_strlit("[Decode error: ");
}

} // verus!
