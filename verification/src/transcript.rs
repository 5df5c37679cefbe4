//! What holds of a streamed reply as a whole: the steps of
//! [`crate::stream_processor_v2`], one after the other.

use crate::auto_cleanup_stream::Cleanup;
use crate::scheduler::Event;
use crate::stream_processor_v2::{step, stream_after, Step};
use vstd::prelude::*;

verus! {

/// One reading of a stream: the event, the text of its tokens if it is a chunk, and whether what
/// was sent for it could be delivered.
pub struct Reading {
    pub event: Event,
    pub decoded: Result<Seq<char>, Seq<char>>,
    pub delivered: bool,
}

impl Reading {
    /// What the reading does.
    pub open spec fn step(self) -> Step {
        step(self.event, self.decoded)
    }

    /// Whether nothing is read after this reading.
    pub open spec fn is_last(self) -> bool {
        self.step() is Finish || (self.step() is Send && !self.delivered)
    }
}

/// What a client is sent.
pub enum Item {
    Content(Seq<char>),
    Reason(Seq<char>),
    Error(Seq<char>),
    Done,
}

/// The items that end a stream.
pub open spec fn ending(reason: Option<Seq<char>>, error: Option<Seq<char>>) -> Seq<Item> {
    let reasons = match reason {
        Some(r) => seq![Item::Reason(r)],
        None => seq![],
    };
    let errors = match error {
        Some(e) => seq![Item::Error(e)],
        None => seq![],
    };
    reasons + errors + seq![Item::Done]
}

/// Everything a client is sent for these readings.
pub open spec fn transcript(readings: Seq<Reading>) -> Seq<Item>
    decreases readings.len(),
{
    if readings.len() == 0 {
        seq![]
    } else {
        match readings[0].step() {
            Step::Continue => transcript(readings.drop_first()),
            Step::Send { text } => seq![Item::Content(text)] + (if readings[0].delivered {
                transcript(readings.drop_first())
            } else {
                ending(None, None)
            }),
            Step::Finish { reason, error } => ending(reason, error),
        }
    }
}

/// The position of the reading that ends the stream, or the number of readings if none does.
pub open spec fn end_of(readings: Seq<Reading>) -> nat
    decreases readings.len(),
{
    if readings.len() == 0 || readings[0].is_last() {
        0
    } else {
        1 + end_of(readings.drop_first())
    }
}

/// Whether one of the readings ends the stream.
pub open spec fn is_over(readings: Seq<Reading>) -> bool {
    end_of(readings) < readings.len()
}

/// The error that ends the stream, if one does.
pub open spec fn error_of(readings: Seq<Reading>) -> Option<Seq<char>> {
    if is_over(readings) {
        match readings[end_of(readings) as int].step() {
            Step::Finish { reason, error } => error,
            _ => None,
        }
    } else {
        None
    }
}

/// The stream after these readings.
pub open spec fn stream_at<S, C>(stream: Cleanup<S, C>, readings: Seq<Reading>) -> Cleanup<S, C>
    decreases readings.len(),
{
    if readings.len() == 0 {
        stream
    } else if readings[0].is_last() {
        stream_after(stream, readings[0].step())
    } else {
        stream_at(stream_after(stream, readings[0].step()), readings.drop_first())
    }
}

/// The contents of a list of items, one after the other.
pub open spec fn content_of(items: Seq<Item>) -> Seq<char>
    decreases items.len(),
{
    if items.len() == 0 {
        seq![]
    } else {
        (match items[0] {
            Item::Content(text) => text,
            _ => seq![],
        }) + content_of(items.drop_first())
    }
}

/// The texts of the chunks among these readings, one after the other.
pub open spec fn text_of(readings: Seq<Reading>) -> Seq<char>
    decreases readings.len(),
{
    if readings.len() == 0 {
        seq![]
    } else {
        (match readings[0].event {
            Event::Chunk { token_ids } => match readings[0].decoded {
                Ok(text) => text,
                Err(e) => "[Decode error: "@ + e + "]"@,
            },
            _ => seq![],
        }) + text_of(readings.drop_first())
    }
}

/// The position found by [`end_of`] is that of the first reading that ends the stream.
proof fn lemma_end_of(readings: Seq<Reading>)
    ensures
        end_of(readings) <= readings.len(),
        is_over(readings) ==> readings[end_of(readings) as int].is_last(),
        forall|i: int| 0 <= i < end_of(readings) ==> !(#[trigger] readings[i]).is_last(),
    decreases readings.len(),
{
    if readings.len() > 0 && !readings[0].is_last() {
        let rest = readings.drop_first();
        lemma_end_of(rest);
        assert forall|i: int| 0 <= i < end_of(readings) implies !(
        #[trigger] readings[i]).is_last() by {
            if i > 0 {
                assert(readings[i] == rest[i - 1]);
            }
        }
    }
}

/// The reading that ends a stream is one of them, if there is one.
pub proof fn lemma_end_in_range(readings: Seq<Reading>)
    ensures
        end_of(readings) <= readings.len(),
{
    lemma_end_of(readings);
}

/// Every stream that ends closes with `[DONE]`, which is sent once and as the very last thing. A
/// stream that is still being read has not sent it.
pub proof fn lemma_done_comes_once_and_last(readings: Seq<Reading>)
    ensures
        is_over(readings) ==> transcript(readings).len() > 0 && transcript(readings).last()
            == Item::Done,
        forall|i: int|
            0 <= i < transcript(readings).len() && (#[trigger] transcript(readings)[i])
                == Item::Done ==> is_over(readings) && i == transcript(readings).len() - 1,
    decreases readings.len(),
{
    lemma_end_of(readings);
    if readings.len() > 0 {
        let rest = readings.drop_first();
        lemma_done_comes_once_and_last(rest);
        if !readings[0].is_last() && readings[0].step() is Send {
            assert forall|i: int|
                0 <= i < transcript(readings).len() && (#[trigger] transcript(readings)[i])
                    == Item::Done implies is_over(readings) && i == transcript(readings).len()
                - 1 by {
                assert(i > 0);
                assert(transcript(readings)[i] == transcript(rest)[i - 1]);
            }
        }
    }
}

/// Whether the stream ended because its client was gone.
pub open spec fn is_disconnected(readings: Seq<Reading>) -> bool {
    is_over(readings) && readings[end_of(readings) as int].step() is Send
}

/// The worker is told to abort a request exactly if reading its stream was given up half-way, or
/// the stream ended with an error, or the client disconnected.
pub proof fn lemma_aborted_unless_ended_well<S, C>(stream: Cleanup<S, C>, readings: Seq<Reading>)
    requires
        !stream.completed,
    ensures
        stream_at(stream, readings).aborts() <==> !is_over(readings) || error_of(readings) is Some
            || is_disconnected(readings),
    decreases readings.len(),
{
    lemma_end_of(readings);
    if readings.len() > 0 && !readings[0].is_last() {
        let rest = readings.drop_first();
        lemma_aborted_unless_ended_well(stream, rest);
        assert(is_over(readings) ==> readings[end_of(readings) as int] == rest[end_of(
            rest,
        ) as int]);
    }
}

/// An error that ends a stream is told to the client, right before `[DONE]`; no other error is.
pub proof fn lemma_error_is_told(readings: Seq<Reading>)
    ensures
        error_of(readings) matches Some(e) ==> transcript(readings).len() >= 2 && transcript(
            readings,
        )[transcript(readings).len() - 2] == Item::Error(e),
        forall|i: int|
            0 <= i < transcript(readings).len() && (#[trigger] transcript(readings)[i]) is Error
                ==> error_of(readings) == Some(transcript(readings)[i]->Error_0),
    decreases readings.len(),
{
    lemma_end_of(readings);
    if readings.len() > 0 && !readings[0].is_last() {
        let rest = readings.drop_first();
        lemma_error_is_told(rest);
        lemma_end_of(rest);
        assert(error_of(readings) == error_of(rest)) by {
            assert(is_over(readings) ==> readings[end_of(readings) as int] == rest[end_of(
                rest,
            ) as int]);
        }
        if readings[0].step() is Send {
            assert forall|i: int| 0 < i < transcript(readings).len() implies (
            #[trigger] transcript(readings)[i]) == transcript(rest)[i - 1] by {
            }
        }
    }
}

/// A client that stays connected is sent the text of every chunk that was read before the stream
/// ended: all of it, in order, and nothing else.
pub proof fn lemma_content_is_complete(readings: Seq<Reading>)
    requires
        forall|i: int| 0 <= i < readings.len() ==> (#[trigger] readings[i]).delivered,
    ensures
        content_of(transcript(readings)) == text_of(readings.take(end_of(readings) as int)),
    decreases readings.len(),
{
    lemma_end_of(readings);
    let read = readings.take(end_of(readings) as int);
    if readings.len() == 0 {
    } else if readings[0].is_last() {
        let items = transcript(readings);
        lemma_ending_has_no_content(items);
        assert(read =~= seq![]);
    } else {
        let rest = readings.drop_first();
        assert forall|i: int| 0 <= i < rest.len() implies (#[trigger] rest[i]).delivered by {
            assert(rest[i] == readings[i + 1]);
        }
        lemma_content_is_complete(rest);
        lemma_end_of(rest);
        assert(read.drop_first() =~= rest.take(end_of(rest) as int));
        assert(read[0] == readings[0]);
        if readings[0].step() is Send {
            assert(transcript(readings).drop_first() =~= transcript(rest));
        } else {
            assert(text_of(read) =~= text_of(read.drop_first()));
        }
    }
}

proof fn lemma_ending_has_no_content(items: Seq<Item>)
    requires
        forall|i: int| 0 <= i < items.len() ==> !((#[trigger] items[i]) is Content),
    ensures
        content_of(items) == Seq::<char>::empty(),
    decreases items.len(),
{
    if items.len() > 0 {
        let rest = items.drop_first();
        assert forall|i: int| 0 <= i < rest.len() implies !((#[trigger] rest[i]) is Content) by {
            assert(rest[i] == items[i + 1]);
        }
        lemma_ending_has_no_content(rest);
        assert(content_of(items) =~= Seq::<char>::empty());
    }
}

/// Nothing that a worker sends after the end of a stream reaches the client or changes whether
/// the request is aborted.
pub proof fn lemma_nothing_follows_the_end<S, C>(
    stream: Cleanup<S, C>,
    readings: Seq<Reading>,
    more: Seq<Reading>,
)
    requires
        is_over(readings),
    ensures
        transcript(readings + more) == transcript(readings),
        stream_at(stream, readings + more) == stream_at(stream, readings),
    decreases readings.len(),
{
    lemma_end_of(readings);
    let all = readings + more;
    assert(all[0] == readings[0]);
    assert(all.drop_first() =~= readings.drop_first() + more);
    if !readings[0].is_last() {
        lemma_nothing_follows_the_end(
            stream_after(stream, readings[0].step()),
            readings.drop_first(),
            more,
        );
    }
}

} // verus!
