//! What holds of a relayed stream as a whole: the events of [`crate::stream_processor`], one after
//! the other.

use crate::scheduler::Event;
use crate::stream_guard::Guard;
use crate::stream_processor::{guard_after, message, Message};
use crate::transcript::Reading;
use vstd::prelude::*;

verus! {

/// Whether nothing is read after this reading: the stream has ended, or the client is gone.
pub open spec fn stops(reading: Reading) -> bool {
    reading.event is End || (reading.event is Chunk && !reading.delivered)
}

/// What one reading is answered with.
pub open spec fn answer(reading: Reading) -> Seq<Message> {
    let m = message(reading.event, reading.decoded);
    match m {
        Message::Nothing => seq![],
        _ => seq![m],
    }
}

/// Everything a client is sent for these readings.
pub open spec fn sent(readings: Seq<Reading>) -> Seq<Message>
    decreases readings.len(),
{
    if readings.len() == 0 {
        seq![]
    } else if readings[0].event is End {
        seq![Message::Done]
    } else if stops(readings[0]) {
        answer(readings[0]).push(Message::Done)
    } else {
        answer(readings[0]) + sent(readings.drop_first())
    }
}

/// The position of the reading after which nothing is read, or the number of readings if there is
/// none.
pub open spec fn stop_of(readings: Seq<Reading>) -> nat
    decreases readings.len(),
{
    if readings.len() == 0 || stops(readings[0]) {
        0
    } else {
        1 + stop_of(readings.drop_first())
    }
}

/// Whether reading has stopped.
pub open spec fn has_stopped(readings: Seq<Reading>) -> bool {
    stop_of(readings) < readings.len()
}

/// The guard after these readings.
pub open spec fn guard_at<S, C>(guard: Guard<S, C>, readings: Seq<Reading>) -> Guard<S, C>
    decreases readings.len(),
{
    if readings.len() == 0 || stops(readings[0]) {
        guard
    } else {
        guard_at(guard_after(guard, readings[0].event), readings.drop_first())
    }
}

/// The texts among a list of messages, one after the other.
pub open spec fn texts(messages: Seq<Message>) -> Seq<char>
    decreases messages.len(),
{
    if messages.len() == 0 {
        seq![]
    } else {
        (match messages[0] {
            Message::Text(text) => text,
            _ => seq![],
        }) + texts(messages.drop_first())
    }
}

/// The texts of the chunks among these readings, one after the other.
pub open spec fn chunks(readings: Seq<Reading>) -> Seq<char>
    decreases readings.len(),
{
    if readings.len() == 0 {
        seq![]
    } else {
        (match readings[0].event {
            Event::Chunk { token_ids } => match readings[0].decoded {
                Ok(text) => text,
                Err(e) => "[ERROR: "@ + e + "]"@,
            },
            _ => seq![],
        }) + chunks(readings.drop_first())
    }
}

/// Readings after which reading goes on are answered one by one, in order: errors and the end of
/// the generation are no exception.
pub proof fn lemma_answers_follow_readings(first: Seq<Reading>, rest: Seq<Reading>)
    requires
        forall|i: int| 0 <= i < first.len() ==> !stops(#[trigger] first[i]),
    ensures
        sent(first + rest) == sent(first) + sent(rest),
        first.len() == 1 ==> sent(first) == answer(first[0]),
    decreases first.len(),
{
    if first.len() == 0 {
        assert(first + rest =~= rest);
        assert(sent(first) + sent(rest) =~= sent(rest));
    } else {
        let tail = first.drop_first();
        assert forall|i: int| 0 <= i < tail.len() implies !stops(#[trigger] tail[i]) by {
            assert(tail[i] == first[i + 1]);
        }
        lemma_answers_follow_readings(tail, rest);
        assert((first + rest).drop_first() =~= tail + rest);
        assert((first + rest)[0] == first[0]);
        assert(!stops(first[0]));
        assert(sent(first + rest) =~= sent(first) + sent(rest));
        if first.len() == 1 {
            assert(sent(tail) =~= seq![]);
            assert(sent(first) =~= answer(first[0]));
        }
    }
}

/// `[DONE]` is sent exactly once, as the last thing, and only when reading has stopped.
pub proof fn lemma_relay_done_comes_once_and_last(readings: Seq<Reading>)
    ensures
        has_stopped(readings) ==> sent(readings).len() > 0 && sent(readings).last()
            == Message::Done,
        forall|i: int|
            0 <= i < sent(readings).len() && (#[trigger] sent(readings)[i]) == Message::Done
                ==> has_stopped(readings) && i == sent(readings).len() - 1,
    decreases readings.len(),
{
    if readings.len() > 0 && !stops(readings[0]) {
        let rest = readings.drop_first();
        lemma_relay_done_comes_once_and_last(rest);
        let k = answer(readings[0]).len();
        assert forall|i: int|
            0 <= i < sent(readings).len() && (#[trigger] sent(readings)[i])
                == Message::Done implies has_stopped(readings) && i == sent(readings).len() - 1 by {
            if i >= k {
                assert(sent(readings)[i] == sent(rest)[i - k]);
            }
        }
    }
}

/// The worker is told to abort a request exactly if its generation was not complete when reading
/// stopped, or was given up.
pub proof fn lemma_relay_aborts_unless_complete<S, C>(guard: Guard<S, C>, readings: Seq<Reading>)
    requires
        !guard.completed,
        guard.client is Some,
    ensures
        guard_at(guard, readings).aborts() <==> forall|i: int|
            0 <= i < stop_of(readings) ==> !((#[trigger] readings[i]).event is Complete),
    decreases readings.len(),
{
    if readings.len() > 0 && !stops(readings[0]) {
        let rest = readings.drop_first();
        assert(forall|i: int| 0 <= i < rest.len() ==> #[trigger] rest[i] == readings[i + 1]);
        if readings[0].event is Complete {
            lemma_marked_guard_stays_marked(guard.marked(), rest);
        } else {
            lemma_relay_aborts_unless_complete(guard, rest);
            lemma_stop_is_in_range(rest);
            if guard_at(guard, readings).aborts() {
                assert forall|i: int| 0 <= i < stop_of(readings) implies !((
                #[trigger] readings[i]).event is Complete) by {
                    if i > 0 {
                        assert(readings[i] == rest[i - 1]);
                    }
                }
            } else {
                let j = choose|j: int|
                    0 <= j < stop_of(rest) && ((#[trigger] rest[j]).event is Complete);
                assert(readings[j + 1].event is Complete);
            }
        }
    }
}

proof fn lemma_marked_guard_stays_marked<S, C>(guard: Guard<S, C>, readings: Seq<Reading>)
    requires
        guard.completed,
    ensures
        !guard_at(guard, readings).aborts(),
    decreases readings.len(),
{
    if readings.len() > 0 && !stops(readings[0]) {
        lemma_marked_guard_stays_marked(
            guard_after(guard, readings[0].event),
            readings.drop_first(),
        );
    }
}

/// A client that stays connected is sent the text of every chunk that was read, before the
/// generation was complete and after, all of it and in order.
pub proof fn lemma_relayed_text_is_complete(readings: Seq<Reading>)
    requires
        forall|i: int| 0 <= i < readings.len() ==> (#[trigger] readings[i]).delivered,
    ensures
        texts(sent(readings)) == chunks(readings.take(stop_of(readings) as int)),
    decreases readings.len(),
{
    let read = readings.take(stop_of(readings) as int);
    if readings.len() == 0 {
    } else if stops(readings[0]) {
        assert(sent(readings).drop_first() =~= seq![]);
        assert(texts(sent(readings).drop_first()) =~= seq![]);
        assert(texts(sent(readings)) =~= seq![]);
        assert(read =~= seq![]);
    } else {
        let rest = readings.drop_first();
        assert forall|i: int| 0 <= i < rest.len() implies (#[trigger] rest[i]).delivered by {
            assert(rest[i] == readings[i + 1]);
        }
        lemma_relayed_text_is_complete(rest);
        lemma_stop_is_in_range(rest);
        assert(read.drop_first() =~= rest.take(stop_of(rest) as int));
        assert(read[0] == readings[0]);
        if answer(readings[0]).len() == 1 {
            assert(sent(readings).drop_first() =~= sent(rest));
        } else {
            assert(sent(readings) =~= sent(rest));
            assert(chunks(read) =~= chunks(read.drop_first()));
        }
    }
}

proof fn lemma_stop_is_in_range(readings: Seq<Reading>)
    ensures
        stop_of(readings) <= readings.len(),
    decreases readings.len(),
{
    if readings.len() > 0 && !stops(readings[0]) {
        lemma_stop_is_in_range(readings.drop_first());
    }
}

} // verus!
