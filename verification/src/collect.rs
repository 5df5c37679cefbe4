//! Collecting a reply stream into a single response.

use crate::auto_cleanup_stream::{AutoCleanupStream, Cleanup};
use crate::protocol::Usage;
use crate::reply::{ErrorReply, INTERNAL_SERVER_ERROR};
use crate::scheduler::{Completed, Event, StreamEvent};
use crate::text::{concat, opt_view};
use vstd::prelude::*;

verus! {

/// What has been read of a reply so far.
pub struct Collector {
    pub token_ids: Vec<u32>,
    pub finish_reason: Option<String>,
    pub completion_tokens: i32,
}

/// The model of [`Collector`].
pub struct Collected {
    pub token_ids: Seq<u32>,
    pub finish_reason: Option<Seq<char>>,
    pub completion_tokens: i32,
}

impl View for Collector {
    type V = Collected;

    open spec fn view(&self) -> Collected {
        Collected {
            token_ids: self.token_ids@,
            finish_reason: opt_view(self.finish_reason),
            completion_tokens: self.completion_tokens,
        }
    }
}

/// How collecting goes on after an event.
pub enum Collecting {
    /// Read on.
    Continue,
    /// The reply is complete.
    Finished,
    /// The request failed.
    Failed(ErrorReply),
}

/// A count of tokens after so many more; it wraps around at the ends of its range.
pub open spec fn counted(count: i32, more: nat) -> i32 {
    count.wrapping_add(more as i32)
}

/// A collection without anything.
pub open spec fn nothing_collected() -> Collected {
    Collected { token_ids: Seq::empty(), finish_reason: None, completion_tokens: 0 }
}

/// What has been read of a reply after one more event.
pub open spec fn collected_after(collected: Collected, event: Event) -> Collected {
    match event {
        Event::Chunk { token_ids } => Collected {
            token_ids: collected.token_ids + token_ids,
            completion_tokens: counted(collected.completion_tokens, token_ids.len()),
            ..collected
        },
        Event::Complete(complete) => Collected {
            token_ids: if complete.output_ids.len() > 0 {
                complete.output_ids
            } else {
                collected.token_ids
            },
            finish_reason: Some(complete.finish_reason),
            completion_tokens: complete.completion_tokens,
        },
        _ => collected,
    }
}

/// Whether this is how collecting goes on after an event.
pub open spec fn goes_on(collecting: Collecting, event: Event) -> bool {
    match event {
        Event::Chunk { token_ids } => collecting is Continue,
        Event::Complete(complete) => collecting is Finished,
        Event::Error { message } => collecting matches Collecting::Failed(reply) && reply.says(
            INTERNAL_SERVER_ERROR,
            message,
        ),
        Event::Empty => collecting is Continue,
        Event::Failed { status } => collecting matches Collecting::Failed(reply) && reply.says(
            INTERNAL_SERVER_ERROR,
            "Stream error: "@ + status,
        ),
        Event::End => collecting is Finished,
    }
}

/// The stream after an event: one that is read to its end is marked as completed.
pub open spec fn collected_stream<S, C>(stream: Cleanup<S, C>, event: Event) -> Cleanup<S, C> {
    if event is Complete || event is End {
        stream.marked()
    } else {
        stream
    }
}

impl Collector {
    /// A collector that has not read anything.
    pub fn new() -> (collector: Collector)
        ensures
            collector@ == nothing_collected(),
    {
        Collector { token_ids: Vec::new(), finish_reason: None, completion_tokens: 0 }
    }

    /// Takes one event of the stream.
    pub fn accept<S, C>(&mut self, stream: &mut AutoCleanupStream<S, C>, event: StreamEvent) -> (
    collecting: Collecting)
        ensures
            goes_on(collecting, event@),
            final(self)@ == collected_after(old(self)@, event@),
            final(stream)@ == collected_stream(old(stream)@, event@),
    {
        match event {
            StreamEvent::Chunk { token_ids } => {
                let more: usize = token_ids.len();
                self.token_ids.extend_from_slice(token_ids.as_slice());
                self.completion_tokens = self.completion_tokens.wrapping_add(
                    #[verifier::truncate]
                    (more as i32),
                );
                assert(self.token_ids@ =~= old(self).token_ids@ + token_ids@);
                Collecting::Continue
            },
            StreamEvent::Complete(complete) => {
                if complete.output_ids.len() > 0 {
                    self.token_ids = complete.output_ids;
                }
                self.finish_reason = Some(complete.finish_reason);
                self.completion_tokens = complete.completion_tokens;
                stream.mark_completed();
                Collecting::Finished
            },
            StreamEvent::Error { message } => Collecting::Failed(
                ErrorReply::new(INTERNAL_SERVER_ERROR, message),
            ),
            StreamEvent::Empty => Collecting::Continue,
            StreamEvent::Failed { status } => Collecting::Failed(
                ErrorReply::new(INTERNAL_SERVER_ERROR, concat("Stream error: ", status.as_str())),
            ),
            StreamEvent::End => {
                stream.mark_completed();
                Collecting::Finished
            },
        }
    }
}

/// Letting go of the stream after an event sends an abort to the worker, unless the reply is
/// complete.
pub proof fn lemma_aborted_unless_finished<S, C>(
    stream: Cleanup<S, C>,
    event: Event,
    collecting: Collecting,
)
    requires
        !stream.completed,
        goes_on(collecting, event),
    ensures
        collected_stream(stream, event).aborts() <==> !(collecting is Finished),
{
}

/// Whether a usage counts these tokens. Counts are taken modulo the range of a `u32`.
pub open spec fn is_usage(usage: Usage, prompt_tokens: nat, completion_tokens: i32) -> bool {
    &&& usage.prompt_tokens == prompt_tokens as u32
    &&& usage.completion_tokens == completion_tokens as u32
    &&& usage.total_tokens == (prompt_tokens as u32).wrapping_add(completion_tokens as u32)
    &&& usage.completion_tokens_details is None
}

/// The usage of a request with so many tokens in its prompt and in its reply.
pub fn usage_of(prompt_tokens: usize, completion_tokens: i32) -> (usage: Usage)
    ensures
        is_usage(usage, prompt_tokens as nat, completion_tokens),
{
    let prompt: u32 = #[verifier::truncate]
    (prompt_tokens as u32);
    let completion: u32 = #[verifier::truncate]
    (completion_tokens as u32);
    Usage {
        prompt_tokens: prompt,
        completion_tokens: completion,
        total_tokens: prompt.wrapping_add(completion),
        completion_tokens_details: None,
    }
}

/// A usage is exact: prompt and reply as they were counted, each as long as it fits, and their sum
/// as long as that fits.
pub proof fn lemma_usage_adds_up(usage: Usage, prompt_tokens: nat, completion_tokens: i32)
    requires
        is_usage(usage, prompt_tokens, completion_tokens),
    ensures
        prompt_tokens <= u32::MAX ==> usage.prompt_tokens == prompt_tokens,
        completion_tokens >= 0 ==> usage.completion_tokens == completion_tokens,
        usage.prompt_tokens + usage.completion_tokens <= u32::MAX ==> usage.total_tokens
            == usage.prompt_tokens + usage.completion_tokens,
        completion_tokens >= 0 && prompt_tokens + completion_tokens <= u32::MAX
            ==> usage.total_tokens == prompt_tokens + completion_tokens,
{
}

/// What has been read after these events, one after the other.
pub open spec fn collected_from(collected: Collected, events: Seq<Event>) -> Collected
    decreases events.len(),
{
    if events.len() == 0 {
        collected
    } else {
        collected_after(collected_from(collected, events.drop_last()), events.last())
    }
}

/// The tokens of the chunks among these events, one after the other.
pub open spec fn chunk_ids(events: Seq<Event>) -> Seq<u32>
    decreases events.len(),
{
    if events.len() == 0 {
        seq![]
    } else {
        chunk_ids(events.drop_last()) + (match events.last() {
            Event::Chunk { token_ids } => token_ids,
            _ => seq![],
        })
    }
}

/// Before the generation is complete, the reply is what the chunks held, and is counted as such
/// while the count fits.
pub proof fn lemma_chunks_are_collected(events: Seq<Event>)
    requires
        forall|i: int| 0 <= i < events.len() ==> !((#[trigger] events[i]) is Complete),
    ensures
        collected_from(nothing_collected(), events).token_ids == chunk_ids(events),
        chunk_ids(events).len() <= i32::MAX ==> collected_from(
            nothing_collected(),
            events,
        ).completion_tokens == chunk_ids(events).len(),
        collected_from(nothing_collected(), events).finish_reason is None,
    decreases events.len(),
{
    if events.len() > 0 {
        let before = events.drop_last();
        assert forall|i: int| 0 <= i < before.len() implies !((
        #[trigger] before[i]) is Complete) by {
            assert(before[i] == events[i]);
        }
        lemma_chunks_are_collected(before);
        assert(!(events[events.len() - 1] is Complete));
        assert(collected_from(nothing_collected(), events).token_ids =~= chunk_ids(events));
    }
}

/// Once the generation is complete, its report decides: its reason and its count stand, and so do
/// its tokens if it gives any; otherwise the tokens are those of the chunks.
pub proof fn lemma_completion_decides(events: Seq<Event>, complete: Completed)
    requires
        forall|i: int| 0 <= i < events.len() ==> !((#[trigger] events[i]) is Complete),
    ensures
        ({
            let reply = collected_from(
                nothing_collected(),
                events.push(Event::Complete(complete)),
            );
            &&& reply.finish_reason == Some(complete.finish_reason)
            &&& reply.completion_tokens == complete.completion_tokens
            &&& reply.token_ids == if complete.output_ids.len() > 0 {
                complete.output_ids
            } else {
                chunk_ids(events)
            }
        }),
{
    lemma_chunks_are_collected(events);
    assert(events.push(Event::Complete(complete)).drop_last() =~= events);
}

} // verus!
