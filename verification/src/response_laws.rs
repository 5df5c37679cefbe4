//! Laws of responses that do not stream: from the events of the worker to what the client gets.

use crate::auto_cleanup_stream::AutoCleanupStream;
use crate::chat_handler::{chat_response, is_chat_reply};
use crate::chunk::ReplyHeader;
use crate::collect::{
    chunk_ids, collected_from, lemma_chunks_are_collected, lemma_completion_decides,
    nothing_collected, usage_of, Collected, Collecting, Collector,
};
use crate::completion_handler::{completion_response, is_completion_reply};
use crate::dispatch::Prompt;
use crate::policy::LoadBalancingPolicy;
use crate::protocol::{ChatCompletionResponse, ChatMessage, CompletionResponse, Usage};
use crate::reply::ErrorReply;
use crate::router::{detokenized, GrpcRouter};
use crate::scheduler::{Completed, Event, StreamEvent};
use crate::text::opt_view;
use crate::tokenizer::{may_decode, Tokenizer};
use vstd::prelude::*;

verus! {

/// Counts are exact while they fit, and wrap around at the ends of their range.
pub proof fn lemma_usage_counts(prompt_tokens: usize, completion_tokens: i32, usage: Usage)
    requires
        call_ensures(usage_of, (prompt_tokens, completion_tokens), usage),
    ensures
        usage.prompt_tokens == prompt_tokens as int % 0x1_0000_0000,
        completion_tokens >= 0 ==> usage.completion_tokens == completion_tokens,
        completion_tokens < 0 ==> usage.completion_tokens == completion_tokens + 0x1_0000_0000,
        usage.total_tokens == (usage.prompt_tokens + usage.completion_tokens) % 0x1_0000_0000,
        usage.completion_tokens_details is None,
{
    assert((prompt_tokens as u32) as u64 == (prompt_tokens as u64) % 0x1_0000_0000u64)
        by (bit_vector);
    assert(completion_tokens < 0 ==> (completion_tokens as u32) == completion_tokens
        + 0x1_0000_0000) by (bit_vector);
}

/// Whether a usage counts these tokens, all of which fit.
pub open spec fn counts(usage: Option<Usage>, prompt_tokens: int, completion_tokens: int) -> bool {
    &&& usage matches Some(u)
    &&& u.completion_tokens_details is None
    &&& 0 <= completion_tokens && prompt_tokens + completion_tokens <= u32::MAX ==> {
        &&& u.prompt_tokens == prompt_tokens
        &&& u.completion_tokens == completion_tokens
        &&& u.total_tokens == prompt_tokens + completion_tokens
    }
}

/// A collector starts with nothing; a chunk adds its tokens at the end and is counted; the report
/// of the worker replaces reason and count, and the tokens if it has any. Nothing else is
/// collected.
pub proof fn lemma_collector_takes_events<S, C>(
    fresh: Collector,
    collector: &mut Collector,
    stream: &mut AutoCleanupStream<S, C>,
    event: StreamEvent,
    collecting: Collecting,
)
    requires
        call_ensures(Collector::new, (), fresh),
        call_ensures(Collector::accept::<S, C>, (collector, stream, event), collecting),
    ensures
        fresh.token_ids@.len() == 0,
        fresh.finish_reason is None,
        fresh.completion_tokens == 0,
        event matches StreamEvent::Chunk { token_ids } ==> {
            &&& collecting is Continue
            &&& final(collector).token_ids@ == old(collector).token_ids@ + token_ids@
            &&& opt_view(final(collector).finish_reason) == opt_view(old(collector).finish_reason)
            &&& token_ids@.len() <= i32::MAX && old(collector).completion_tokens
                + token_ids@.len() <= i32::MAX ==> final(collector).completion_tokens
                == old(collector).completion_tokens + token_ids@.len()
            &&& token_ids@.len() <= i32::MAX && old(collector).completion_tokens
                + token_ids@.len() > i32::MAX ==> final(collector).completion_tokens
                == old(collector).completion_tokens + token_ids@.len() - 0x1_0000_0000
        },
        event matches StreamEvent::Complete(complete) ==> {
            &&& collecting is Finished
            &&& final(collector).finish_reason matches Some(reason) && reason@
                == complete.finish_reason@
            &&& final(collector).completion_tokens == complete.completion_tokens
            &&& final(collector).token_ids@ == if complete.output_ids@.len() > 0 {
                complete.output_ids@
            } else {
                old(collector).token_ids@
            }
        },
        event matches StreamEvent::Error { message } ==> {
            &&& collecting matches Collecting::Failed(reply)
            &&& reply.status == 500
            &&& reply.error@ == message@
        },
        event matches StreamEvent::Failed { status } ==> {
            &&& collecting matches Collecting::Failed(reply)
            &&& reply.status == 500
            &&& reply.error@ == "Stream error: "@ + status@
        },
        event is Empty ==> collecting is Continue,
        event is End ==> collecting is Finished,
        event is Error || event is Failed || event is Empty || event is End ==> {
            &&& final(collector).token_ids@ == old(collector).token_ids@
            &&& opt_view(final(collector).finish_reason) == opt_view(old(collector).finish_reason)
            &&& final(collector).completion_tokens == old(collector).completion_tokens
        },
        event is Complete || event is End ==> final(stream)@.completed,
        !(event is Complete || event is End) ==> final(stream)@ == old(stream)@,
{
    let before = old(collector)@;
    let after = final(collector)@;
    assert(after.token_ids == final(collector).token_ids@);
    assert(before.token_ids == old(collector).token_ids@);
}

/// A response to a chat that says this and ends for this reason, if for any.
pub open spec fn chat_says(
    response: ChatCompletionResponse,
    header: ReplyHeader,
    text: Seq<char>,
    finish_reason: Option<Seq<char>>,
) -> bool {
    &&& response.id@ == header.request_id@
    &&& response.object@ == "chat.completion"@
    &&& response.created == header.created
    &&& response.model@ == header.model@
    &&& response.system_fingerprint is None
    &&& response.choices@.len() == 1
    &&& response.choices@[0].index == 0
    &&& response.choices@[0].logprobs is None
    &&& response.choices@[0].matched_stop is None
    &&& response.choices@[0].hidden_states is None
    &&& finish_reason is None <==> response.choices@[0].finish_reason is None
    &&& finish_reason matches Some(reason) ==> response.choices@[0].finish_reason->0@ == reason
    &&& response.choices@[0].message matches ChatMessage::Assistant {
        role,
        content,
        name,
        tool_calls,
        function_call,
        reasoning_content,
    }
    &&& role@ == "assistant"@
    &&& content matches Some(said) && said@ == text
    &&& name is None
    &&& tool_calls is None
    &&& function_call is None
    &&& reasoning_content is None
}

/// A response to a text completion that says this and ends for this reason, if for any.
pub open spec fn completion_says(
    response: CompletionResponse,
    header: ReplyHeader,
    text: Seq<char>,
    finish_reason: Option<Seq<char>>,
) -> bool {
    &&& response.id@ == header.request_id@
    &&& response.object@ == "text_completion"@
    &&& response.created == header.created
    &&& response.model@ == header.model@
    &&& response.system_fingerprint is None
    &&& response.choices@.len() == 1
    &&& response.choices@[0].index == 0
    &&& response.choices@[0].logprobs is None
    &&& response.choices@[0].matched_stop is None
    &&& response.choices@[0].hidden_states is None
    &&& finish_reason is None <==> response.choices@[0].finish_reason is None
    &&& finish_reason matches Some(reason) ==> response.choices@[0].finish_reason->0@ == reason
    &&& response.choices@[0].text@ == text
}

/// A chat response says the text of what was collected, ends for the reason that was collected, and
/// counts the tokens of prompt and reply. Text that cannot be had is an internal error.
pub proof fn lemma_chat_response_says_what_was_collected(
    header: ReplyHeader,
    prompt_tokens: usize,
    collected: Collector,
    text: Result<String, String>,
    response: Result<ChatCompletionResponse, ErrorReply>,
)
    requires
        call_ensures(chat_response, (header, prompt_tokens, collected, text), response),
    ensures
        text matches Ok(said) ==> {
            &&& response matches Ok(r)
            &&& chat_says(r, header, said@, opt_view(collected.finish_reason))
            &&& counts(r.usage, prompt_tokens as int, collected.completion_tokens as int)
        },
        text matches Err(e) ==> {
            &&& response matches Err(reply)
            &&& reply.status == 500
            &&& reply.error@ == "Detokenization failed: "@ + e@
        },
{
}

/// A text completion response says the text of what was collected, after the prompt if that is
/// echoed, ends for the reason that was collected, and counts the tokens of prompt and reply. Text
/// that cannot be had is an internal error.
pub proof fn lemma_completion_response_says_what_was_collected(
    header: ReplyHeader,
    prompt: &Prompt,
    echo: bool,
    collected: Collector,
    output: Result<String, String>,
    response: Result<CompletionResponse, ErrorReply>,
)
    requires
        call_ensures(completion_response, (header, prompt, echo, collected, output), response),
    ensures
        output matches Ok(said) ==> {
            &&& response matches Ok(r)
            &&& completion_says(
                r,
                header,
                if echo {
                    prompt.text@ + said@
                } else {
                    said@
                },
                opt_view(collected.finish_reason),
            )
            &&& counts(
                r.usage,
                prompt.token_ids@.len() as int,
                collected.completion_tokens as int,
            )
        },
        output matches Err(e) ==> {
            &&& response matches Err(reply)
            &&& reply.status == 500
            &&& reply.error@ == "Detokenization failed: "@ + e@
        },
{
}

/// Whether a tokenizer may give this text for these tokens without the special ones.
pub open spec fn gives_text<T: Tokenizer + ?Sized>(
    tokenizer: &T,
    token_ids: Seq<u32>,
    text: Seq<char>,
) -> bool {
    exists|asked: &[u32], decoded: Result<String, String>|
        asked@ == token_ids && decoded is Ok && decoded->Ok_0@ == text && #[trigger] call_ensures(
            T::decode,
            (tokenizer, asked, true),
            decoded,
        )
}

/// Whether a tokenizer may fail with this message on these tokens without the special ones.
pub open spec fn gives_no_text<T: Tokenizer + ?Sized>(
    tokenizer: &T,
    token_ids: Seq<u32>,
    message: Seq<char>,
) -> bool {
    exists|asked: &[u32], decoded: Result<String, String>|
        asked@ == token_ids && decoded is Err && decoded->Err_0@ == message
            && #[trigger] call_ensures(T::decode, (tokenizer, asked, true), decoded)
}

proof fn lemma_decoding<T: Tokenizer + ?Sized>(
    tokenizer: &T,
    token_ids: Seq<u32>,
    decoded: Result<String, String>,
)
    requires
        may_decode(tokenizer, token_ids, true, decoded),
    ensures
        decoded matches Ok(text) ==> gives_text(tokenizer, token_ids, text@),
        decoded matches Err(e) ==> gives_no_text(tokenizer, token_ids, e@),
{
    let asked = choose|asked: &[u32]|
        asked@ == token_ids && #[trigger] call_ensures(
            T::decode,
            (tokenizer, asked, true),
            decoded,
        );
    assert(call_ensures(T::decode, (tokenizer, asked, true), decoded));
}

/// What a chat that does not stream is answered, from the tokens and the reason that were
/// collected: the text which the tokenizer gives for all of these tokens.
pub proof fn lemma_chat_is_answered_with_its_text<
    T: Tokenizer + ?Sized,
    P: LoadBalancingPolicy<C> + ?Sized,
    C: Clone,
>(
    router: &GrpcRouter<T, P, C>,
    header: ReplyHeader,
    prompt_tokens: usize,
    collected: Collector,
    response: Result<ChatCompletionResponse, ErrorReply>,
)
    requires
        call_ensures(
            GrpcRouter::<T, P, C>::handle_chat_non_streaming,
            (router, header, prompt_tokens, collected),
            response,
        ),
    ensures
        response matches Ok(r) ==> {
            &&& exists|text: Seq<char>| #[trigger]
                gives_text(&*router.tokenizer(), collected.token_ids@, text) && chat_says(
                    r,
                    header,
                    text,
                    opt_view(collected.finish_reason),
                )
            &&& counts(r.usage, prompt_tokens as int, collected.completion_tokens as int)
        },
        response matches Err(reply) ==> {
            &&& reply.status == 500
            &&& exists|e: Seq<char>| #[trigger]
                gives_no_text(&*router.tokenizer(), collected.token_ids@, e) && reply.error@
                    == "Detokenization failed: "@ + ("Detokenization failed: "@ + e)
        },
{
    let decoded = choose|decoded: Result<String, String>| #[trigger]
        may_decode(&*router.tokenizer(), collected@.token_ids, true, decoded) && is_chat_reply(
            response,
            header,
            prompt_tokens as nat,
            collected@,
            detokenized(decoded),
        );
    lemma_decoding(&*router.tokenizer(), collected.token_ids@, decoded);
}

/// What a text completion that does not stream is answered, from the tokens and the reason that
/// were collected: the text which the tokenizer gives for all of these tokens, after the prompt if
/// that is echoed.
pub proof fn lemma_completion_is_answered_with_its_text<
    T: Tokenizer + ?Sized,
    P: LoadBalancingPolicy<C> + ?Sized,
    C: Clone,
>(
    router: &GrpcRouter<T, P, C>,
    header: ReplyHeader,
    prompt: &Prompt,
    echo: bool,
    collected: Collector,
    response: Result<CompletionResponse, ErrorReply>,
)
    requires
        call_ensures(
            GrpcRouter::<T, P, C>::handle_completion_non_streaming,
            (router, header, prompt, echo, collected),
            response,
        ),
    ensures
        response matches Ok(r) ==> {
            &&& exists|text: Seq<char>| #[trigger]
                gives_text(&*router.tokenizer(), collected.token_ids@, text) && completion_says(
                    r,
                    header,
                    if echo {
                        prompt.text@ + text
                    } else {
                        text
                    },
                    opt_view(collected.finish_reason),
                )
            &&& counts(
                r.usage,
                prompt.token_ids@.len() as int,
                collected.completion_tokens as int,
            )
        },
        response matches Err(reply) ==> {
            &&& reply.status == 500
            &&& exists|e: Seq<char>| #[trigger]
                gives_no_text(&*router.tokenizer(), collected.token_ids@, e) && reply.error@
                    == "Detokenization failed: "@ + ("Detokenization failed: "@ + e)
        },
{
    let decoded = choose|decoded: Result<String, String>| #[trigger]
        may_decode(&*router.tokenizer(), collected@.token_ids, true, decoded)
            && is_completion_reply(
            response,
            header,
            *prompt,
            echo,
            collected@,
            detokenized(decoded),
        );
    lemma_decoding(&*router.tokenizer(), collected.token_ids@, decoded);
}

/// The tokens that these events carry, one chunk after the other.
pub open spec fn tokens_of(events: Seq<Event>) -> Seq<u32>
    decreases events.len(),
{
    if events.len() == 0 {
        seq![]
    } else if events.last() is Chunk {
        tokens_of(events.drop_last()) + events.last()->token_ids
    } else {
        tokens_of(events.drop_last())
    }
}

proof fn lemma_tokens_of(events: Seq<Event>)
    ensures
        tokens_of(events) == chunk_ids(events),
    decreases events.len(),
{
    if events.len() > 0 {
        lemma_tokens_of(events.drop_last());
        assert(tokens_of(events) =~= chunk_ids(events));
    }
}

/// The tokens of a reply: those of the report if it has any, and those of the chunks otherwise.
pub open spec fn tokens_told(events: Seq<Event>, report: Option<Completed>) -> Seq<u32> {
    if report is Some && report->0.output_ids.len() > 0 {
        report->0.output_ids
    } else {
        tokens_of(events)
    }
}

/// Whether this is what is collected from a stream that told these events and then, if it did, its
/// report: the tokens of the report if it has any and those of the chunks otherwise; its reason,
/// or none; its count, or that of the chunks.
pub open spec fn is_what_was_told(
    collected: Collected,
    events: Seq<Event>,
    report: Option<Completed>,
) -> bool {
    match report {
        Some(complete) => {
            &&& collected.token_ids == if complete.output_ids.len() > 0 {
                complete.output_ids
            } else {
                tokens_of(events)
            }
            &&& collected.finish_reason == Some(complete.finish_reason)
            &&& collected.completion_tokens == complete.completion_tokens
        },
        None => {
            &&& collected.token_ids == tokens_of(events)
            &&& collected.finish_reason is None
            &&& tokens_of(events).len() <= i32::MAX ==> collected.completion_tokens == tokens_of(
                events,
            ).len()
        },
    }
}

/// What a worker tells is what is collected.
pub proof fn lemma_collected_is_what_was_told(events: Seq<Event>, report: Option<Completed>)
    requires
        forall|i: int| 0 <= i < events.len() ==> !((#[trigger] events[i]) is Complete),
    ensures
        is_what_was_told(
            collected_from(
                nothing_collected(),
                if report is Some {
                    events.push(Event::Complete(report->0))
                } else {
                    events
                },
            ),
            events,
            report,
        ),
{
    lemma_chunks_are_collected(events);
    lemma_tokens_of(events);
    if let Some(complete) = report {
        lemma_completion_decides(events, complete);
    }
}

/// From the events of a worker to the response of a chat: it ends for the reason that the worker
/// reports, or without one if the stream ended without a report, and says the text of the tokens
/// that the worker sent.
pub proof fn lemma_chat_tells_what_the_worker_told<
    T: Tokenizer + ?Sized,
    P: LoadBalancingPolicy<C> + ?Sized,
    C: Clone,
>(
    router: &GrpcRouter<T, P, C>,
    header: ReplyHeader,
    prompt_tokens: usize,
    events: Seq<Event>,
    report: Option<Completed>,
    collected: Collector,
    response: Result<ChatCompletionResponse, ErrorReply>,
)
    requires
        forall|i: int| 0 <= i < events.len() ==> !((#[trigger] events[i]) is Complete),
        collected@ == collected_from(
            nothing_collected(),
            if report is Some {
                events.push(Event::Complete(report->0))
            } else {
                events
            },
        ),
        call_ensures(
            GrpcRouter::<T, P, C>::handle_chat_non_streaming,
            (router, header, prompt_tokens, collected),
            response,
        ),
    ensures
        response matches Ok(r) ==> {
            &&& exists|text: Seq<char>| #[trigger]
                gives_text(&*router.tokenizer(), tokens_told(events, report), text) && chat_says(
                    r,
                    header,
                    text,
                    if report is Some {
                        Some(report->0.finish_reason)
                    } else {
                        None
                    },
                )
            &&& report is Some ==> counts(
                r.usage,
                prompt_tokens as int,
                report->0.completion_tokens as int,
            )
            &&& report is None && tokens_of(events).len() <= i32::MAX ==> counts(
                r.usage,
                prompt_tokens as int,
                tokens_of(events).len() as int,
            )
        },
{
    lemma_collected_is_what_was_told(events, report);
    assert(collected.token_ids@ == collected@.token_ids);
    assert(collected.token_ids@ == tokens_told(events, report));
    assert(opt_view(collected.finish_reason) == collected@.finish_reason);
    lemma_chat_is_answered_with_its_text(router, header, prompt_tokens, collected, response);
}

/// From the events of a worker to the response of a text completion: it ends for the reason that
/// the worker reports, or without one if the stream ended without a report, and says the text of
/// the tokens that the worker sent.
pub proof fn lemma_completion_tells_what_the_worker_told<
    T: Tokenizer + ?Sized,
    P: LoadBalancingPolicy<C> + ?Sized,
    C: Clone,
>(
    router: &GrpcRouter<T, P, C>,
    header: ReplyHeader,
    prompt: &Prompt,
    echo: bool,
    events: Seq<Event>,
    report: Option<Completed>,
    collected: Collector,
    response: Result<CompletionResponse, ErrorReply>,
)
    requires
        forall|i: int| 0 <= i < events.len() ==> !((#[trigger] events[i]) is Complete),
        collected@ == collected_from(
            nothing_collected(),
            if report is Some {
                events.push(Event::Complete(report->0))
            } else {
                events
            },
        ),
        call_ensures(
            GrpcRouter::<T, P, C>::handle_completion_non_streaming,
            (router, header, prompt, echo, collected),
            response,
        ),
    ensures
        response matches Ok(r) ==> {
            &&& exists|text: Seq<char>| #[trigger]
                gives_text(&*router.tokenizer(), tokens_told(events, report), text)
                    && completion_says(
                    r,
                    header,
                    if echo {
                        prompt.text@ + text
                    } else {
                        text
                    },
                    if report is Some {
                        Some(report->0.finish_reason)
                    } else {
                        None
                    },
                )
            &&& report is Some ==> counts(
                r.usage,
                prompt.token_ids@.len() as int,
                report->0.completion_tokens as int,
            )
            &&& report is None && tokens_of(events).len() <= i32::MAX ==> counts(
                r.usage,
                prompt.token_ids@.len() as int,
                tokens_of(events).len() as int,
            )
        },
{
    lemma_collected_is_what_was_told(events, report);
    assert(collected.token_ids@ == collected@.token_ids);
    assert(collected.token_ids@ == tokens_told(events, report));
    assert(opt_view(collected.finish_reason) == collected@.finish_reason);
    lemma_completion_is_answered_with_its_text(router, header, prompt, echo, collected, response);
}

} // verus!
