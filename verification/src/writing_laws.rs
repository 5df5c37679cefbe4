//! Laws of what the router writes: numbers, lists, documents, events, ids and times. Each is stated
//! of the results that the functions give, for every argument.

use crate::clock::{epoch_nanos, timestamp_of};
use crate::json::{
    chat_chunk_text, completion_chunk_text, error_text, internal_error_text, json_text,
    on_one_line, Json,
};
use crate::policy::opt_str;
use crate::reply::ErrorReply;
use crate::request_id::{
    chat_request_id, completion_request_id, is_request_id, is_ulid, new_chat_request_id,
    new_completion_request_id,
};
use crate::router::ids_result;
use crate::sse::{done_text, event_text};
use crate::text::{
    contains, decimal, decimal_string, join, joined, opt_view, text_result, views,
};
use std::time::SystemTime;
use vstd::prelude::*;

verus! {

/// The number that a text of decimal digits stands for.
pub open spec fn value_of(digits: Seq<char>) -> int
    decreases digits.len(),
{
    if digits.len() == 0 {
        0
    } else {
        10 * value_of(digits.drop_last()) + (digits.last() as int - '0' as int)
    }
}

/// Whether a text is the usual decimal form of a number: digits alone, the first of them zero only
/// if it is the only one.
pub open spec fn is_numeral(text: Seq<char>, n: int) -> bool {
    &&& text.len() > 0
    &&& forall|i: int| 0 <= i < text.len() ==> '0' <= #[trigger] text[i] <= '9'
    &&& text[0] == '0' ==> text.len() == 1
    &&& value_of(text) == n
}

proof fn lemma_decimal(n: nat)
    ensures
        is_numeral(decimal(n), n as int),
        decimal(n)[0] == '0' ==> n == 0,
    decreases n,
{
    if n < 10 {
        assert(decimal(n).drop_last() =~= seq![]);
        assert(value_of(decimal(n).drop_last()) == 0);
    } else {
        lemma_decimal(n / 10);
        let before = decimal(n / 10);
        let last = decimal(n).last();
        assert(decimal(n).drop_last() =~= before);
        assert('0' <= last <= '9');
        assert(last as int - '0' as int == n % 10);
        assert forall|i: int| 0 <= i < decimal(n).len() implies '0' <= #[trigger] decimal(
            n,
        )[i] <= '9' by {
            if i < before.len() {
                assert(decimal(n)[i] == before[i]);
            }
        }
        assert(decimal(n)[0] == before[0]);
    }
}

/// A number is written so that it can be read back: its numeral stands for it.
pub proof fn lemma_number_is_read_back(n: u64, text: String)
    requires
        call_ensures(decimal_string, (n,), text),
    ensures
        is_numeral(text@, n as int),
{
    lemma_decimal(n as nat);
}

/// The numerals inside documents stand for their numbers, too.
pub proof fn lemma_numerals_are_exact(n: nat)
    ensures
        is_numeral(decimal(n), n as int),
{
    lemma_decimal(n);
}

proof fn lemma_joined_in_two(first: Seq<Seq<char>>, second: Seq<Seq<char>>, separator: Seq<char>)
    requires
        first.len() > 0,
        second.len() > 0,
    ensures
        joined(first + second, separator) == joined(first, separator) + separator + joined(
            second,
            separator,
        ),
    decreases second.len(),
{
    let all = first + second;
    assert(all.drop_last() =~= first + second.drop_last());
    assert(all.last() == second.last());
    if second.len() == 1 {
        assert(first + second.drop_last() =~= first);
        assert(joined(all, separator) =~= joined(first, separator) + separator + second[0]);
    } else {
        lemma_joined_in_two(first, second.drop_last(), separator);
        assert(joined(all, separator) =~= joined(first, separator) + separator + joined(
            second,
            separator,
        ));
    }
}

/// Joining keeps every part, in order, with the separator between each two neighbours: nothing
/// joins to nothing, a single part to itself, and two lists to what each of them joins to, with
/// the separator between.
pub proof fn lemma_join_keeps_every_part(
    first: &Vec<String>,
    second: &Vec<String>,
    whole: &Vec<String>,
    separator: &str,
    first_text: String,
    second_text: String,
    whole_text: String,
)
    requires
        call_ensures(join, (first, separator), first_text),
        call_ensures(join, (second, separator), second_text),
        call_ensures(join, (whole, separator), whole_text),
        whole@ == first@ + second@,
    ensures
        first.len() == 0 ==> first_text@ == Seq::<char>::empty(),
        first.len() == 1 ==> first_text@ == first[0]@,
        first.len() > 0 && second.len() > 0 ==> whole_text@ == first_text@ + separator@
            + second_text@,
{
    assert(views(whole@) =~= views(first@) + views(second@));
    if first.len() > 0 && second.len() > 0 {
        lemma_joined_in_two(views(first@), views(second@), separator@);
    }
}

/// A text is found in a list exactly if one of its strings has the same characters.
pub proof fn lemma_contains_finds_equal_texts(list: &Vec<String>, text: &String, found: bool)
    requires
        call_ensures(contains, (list, text), found),
    ensures
        found <==> exists|i: int| 0 <= i < list.len() && (#[trigger] list[i])@ == text@,
{
    if found {
        let i = choose|i: int| 0 <= i < views(list@).len() && views(list@)[i] == text@;
        assert(list[i]@ == text@);
    }
    if exists|i: int| 0 <= i < list.len() && (#[trigger] list[i])@ == text@ {
        let i = choose|i: int| 0 <= i < list.len() && (#[trigger] list[i])@ == text@;
        assert(views(list@)[i] == text@);
    }
}

/// What is said of texts that may be absent, of results and of lists is said of the characters
/// that they hold, and of nothing else.
pub proof fn lemma_texts_are_taken_as_they_are(
    text: String,
    borrowed: &str,
    ids: Vec<u32>,
    list: Seq<String>,
)
    ensures
        opt_view(Some(text)) == Some(text@),
        opt_view(None) is None,
        opt_str(Some(borrowed)) == Some(borrowed@),
        opt_str(None) is None,
        text_result(Ok(text)) == Ok::<Seq<char>, Seq<char>>(text@),
        text_result(Err(text)) == Err::<Seq<char>, Seq<char>>(text@),
        ids_result(Ok(ids)) == Ok::<Seq<u32>, Seq<char>>(ids@),
        ids_result(Err(text)) == Err::<Seq<u32>, Seq<char>>(text@),
        views(list).len() == list.len(),
        forall|i: int| 0 <= i < list.len() ==> #[trigger] views(list)[i] == list[i]@,
{
}

/// A payload on one line has no line break of either kind, and only such a payload is on one line.
pub proof fn lemma_one_line_has_no_break(text: Seq<char>)
    ensures
        on_one_line(text) <==> !text.contains('\n') && !text.contains('\r'),
{
    if !on_one_line(text) {
        let i = choose|i: int|
            0 <= i < text.len() && !(#[trigger] text[i] != '\n' && text[i] != '\r');
        assert(text.contains(text[i]));
    }
}

/// An error is told as an object with the message as its only member.
pub proof fn lemma_error_document(message: &str, text: String)
    requires
        call_ensures(error_text, (message,), text),
    ensures
        text@ == json_text(Json::Object(map!["error"@ => Json::Str(message@)])),
        on_one_line(text@),
{
}

/// The body of an error reply tells its message.
pub proof fn lemma_reply_body_tells_the_error(reply: &ErrorReply, text: String)
    requires
        call_ensures(ErrorReply::body, (reply,), text),
    ensures
        text@ == json_text(Json::Object(map!["error"@ => Json::Str(reply.error@)])),
{
}

/// An error reply has the status and the message that it is made with.
pub proof fn lemma_reply_keeps_status_and_error(status: u16, error: String, reply: ErrorReply)
    requires
        call_ensures(ErrorReply::new, (status, error), reply),
    ensures
        reply.status == status,
        reply.error@ == error@,
{
}

/// An internal error is told as an object within an object: its message, and what it is.
pub proof fn lemma_internal_error_document(message: &str, text: String)
    requires
        call_ensures(internal_error_text, (message,), text),
    ensures
        text@ == json_text(
            Json::Object(
                map![
                    "error"@ => Json::Object(
                        map![
                            "message"@ => Json::Str(message@),
                            "type"@ => Json::Str("internal_error"@),
                        ],
                    ),
                ],
            ),
        ),
        on_one_line(text@),
{
}

/// A chunk document, given the document of its only choice.
pub open spec fn chunk_document(
    id: Seq<char>,
    object: Seq<char>,
    created: u64,
    model: Seq<char>,
    choice: Map<Seq<char>, Json>,
) -> Json {
    Json::Object(
        map![
            "id"@ => Json::Str(id),
            "object"@ => Json::Str(object),
            "created"@ => Json::Number(decimal(created as nat)),
            "model"@ => Json::Str(model),
            "choices"@ => Json::Array(seq![Json::Object(choice)]),
        ],
    )
}

/// The document of a text completion chunk with this text, which ends the reply for a reason or
/// does not.
pub open spec fn completion_document(
    id: Seq<char>,
    created: u64,
    model: Seq<char>,
    text: Seq<char>,
    finish_reason: Json,
) -> Json {
    chunk_document(
        id,
        "text_completion"@,
        created,
        model,
        map![
            "index"@ => Json::Number(seq!['0']),
            "text"@ => Json::Str(text),
            "logprobs"@ => Json::Null,
            "finish_reason"@ => finish_reason,
        ],
    )
}

/// The document of a chat chunk with this delta, which ends the reply for a reason or does not.
pub open spec fn chat_document(
    id: Seq<char>,
    created: u64,
    model: Seq<char>,
    delta: Map<Seq<char>, Json>,
    finish_reason: Json,
) -> Json {
    chunk_document(
        id,
        "chat.completion.chunk"@,
        created,
        model,
        map![
            "index"@ => Json::Number(seq!['0']),
            "delta"@ => Json::Object(delta),
            "finish_reason"@ => finish_reason,
        ],
    )
}

/// A text completion chunk holds its id, its time, its model and its text just as they are given,
/// and a reason exactly if one is given.
pub proof fn lemma_completion_document(
    id: &str,
    created: u64,
    model: &str,
    text: &str,
    finish_reason: Option<&str>,
    chunk: String,
)
    requires
        call_ensures(completion_chunk_text, (id, created, model, text, finish_reason), chunk),
    ensures
        finish_reason is None ==> chunk@ == json_text(
            completion_document(id@, created, model@, text@, Json::Null),
        ),
        finish_reason matches Some(reason) ==> chunk@ == json_text(
            completion_document(id@, created, model@, text@, Json::Str(reason@)),
        ),
        on_one_line(chunk@),
{
    assert(decimal(0) =~= seq!['0']);
}

/// A chat chunk holds its id, its time and its model just as they are given, content and a reason
/// exactly if they are given.
pub proof fn lemma_chat_document(
    id: &str,
    created: u64,
    model: &str,
    content: Option<&str>,
    finish_reason: Option<&str>,
    chunk: String,
)
    requires
        call_ensures(chat_chunk_text, (id, created, model, content, finish_reason), chunk),
    ensures
        chunk@ == json_text(
            chat_document(
                id@,
                created,
                model@,
                if content is Some {
                    map!["content"@ => Json::Str(content->0@)]
                } else {
                    Map::empty()
                },
                if finish_reason is Some {
                    Json::Str(finish_reason->0@)
                } else {
                    Json::Null
                },
            ),
        ),
        on_one_line(chunk@),
{
    assert(decimal(0) =~= seq!['0']);
}

/// An event is its payload, after `data: ` and before a blank line.
pub proof fn lemma_event_frames_its_payload(payload: &str, text: String)
    requires
        call_ensures(event_text, (payload,), text),
    ensures
        text@ == "data: "@ + payload@ + "\n\n"@,
{
}

/// The event that ends a stream.
pub proof fn lemma_done_text(text: String)
    requires
        call_ensures(done_text, (), text),
    ensures
        text@ == "data: [DONE]\n\n"@,
{
}

/// Ids are made of a prefix, which tells chats from text completions, and of what they are given.
pub proof fn lemma_ids_keep_their_ulid(ulid: &str, chat: String, completion: String)
    requires
        call_ensures(chat_request_id, (ulid,), chat),
        call_ensures(completion_request_id, (ulid,), completion),
    ensures
        chat@ == "chatcmpl-"@ + ulid@,
        completion@ == "cmpl-"@ + ulid@,
{
}

/// Whether a text is a prefix followed by 26 digits and capital letters, without the letters that
/// are mistaken for others.
pub open spec fn is_prefixed_ulid(text: Seq<char>, prefix: Seq<char>) -> bool {
    &&& text.len() == prefix.len() + 26
    &&& text.take(prefix.len() as int) == prefix
    &&& forall|i: int|
        prefix.len() <= i < text.len() ==> {
            let c = #[trigger] text[i];
            ||| '0' <= c <= '9'
            ||| 'A' <= c <= 'Z' && c != 'I' && c != 'L' && c != 'O' && c != 'U'
        }
}

/// Fresh ids have the form of a ULID after their prefix.
pub proof fn lemma_fresh_ids_are_prefixed_ulids(chat: String, completion: String)
    requires
        call_ensures(new_chat_request_id, (), chat),
        call_ensures(new_completion_request_id, (), completion),
    ensures
        is_prefixed_ulid(chat@, "chatcmpl-"@),
        is_prefixed_ulid(completion@, "cmpl-"@),
{
    lemma_request_id_is_prefixed_ulid(chat@, "chatcmpl-"@);
    lemma_request_id_is_prefixed_ulid(completion@, "cmpl-"@);
}

/// An id is its prefix and a ULID.
pub proof fn lemma_request_id_is_prefixed_ulid(id: Seq<char>, prefix: Seq<char>)
    requires
        is_request_id(id, prefix),
    ensures
        is_prefixed_ulid(id, prefix),
{
    let ulid = choose|ulid: Seq<char>| #[trigger]
        is_ulid(ulid) && id == prefix + ulid;
    assert(id.take(prefix.len() as int) =~= prefix);
    assert forall|i: int| prefix.len() <= i < id.len() implies {
        let c = #[trigger] id[i];
        ||| '0' <= c <= '9'
        ||| 'A' <= c <= 'Z' && c != 'I' && c != 'L' && c != 'O' && c != 'U'
    } by {
        assert(id[i] == ulid[i - prefix.len()]);
    }
}

/// A timestamp counts the seconds that are over since the epoch, and none before it.
pub proof fn lemma_timestamp_counts_whole_seconds(time: SystemTime, secs: u64)
    requires
        call_ensures(timestamp_of, (time,), secs),
    ensures
        epoch_nanos(time) >= 0 ==> secs * 1_000_000_000 <= epoch_nanos(time) < (secs + 1)
            * 1_000_000_000,
        epoch_nanos(time) < 0 ==> secs == 0,
{
}

} // verus!
