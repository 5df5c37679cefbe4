//! Laws of the prompt that a chat is written as.

use crate::protocol::{ChatMessage, ContentPart, UserMessageContent};
use crate::template::{
    chat_prompt, chat_prompt_string, lemma_prompt_grows_with_the_chat, part_texts, rendered,
    rendered_all, user_text,
};
use crate::text::joined;
use vstd::prelude::*;

verus! {

/// Whether one of these parts is a text.
pub open spec fn has_text(parts: Seq<ContentPart>) -> bool {
    exists|i: int| 0 <= i < parts.len() && (#[trigger] parts[i]) is Text
}

proof fn lemma_part_texts_in_two(first: Seq<ContentPart>, second: Seq<ContentPart>)
    ensures
        part_texts(first + second) == part_texts(first) + part_texts(second),
    decreases second.len(),
{
    let all = first + second;
    if second.len() == 0 {
        assert(all =~= first);
        assert(part_texts(first) + part_texts(second) =~= part_texts(first));
    } else {
        lemma_part_texts_in_two(first, second.drop_last());
        assert(all.drop_last() =~= first + second.drop_last());
        assert(all.last() == second.last());
        assert(part_texts(all) =~= part_texts(first) + part_texts(second));
    }
}

proof fn lemma_texts_of_parts(parts: Seq<ContentPart>)
    ensures
        has_text(parts) <==> part_texts(parts).len() > 0,
    decreases parts.len(),
{
    if parts.len() > 0 {
        let before = parts.drop_last();
        lemma_texts_of_parts(before);
        if has_text(parts) && !(parts.last() is Text) {
            let i = choose|i: int| 0 <= i < parts.len() && (#[trigger] parts[i]) is Text;
            assert(before[i] is Text);
        }
        if part_texts(parts).len() > 0 {
            if parts.last() is Text {
                assert(parts[parts.len() - 1] is Text);
            } else {
                let i = choose|i: int| 0 <= i < before.len() && (#[trigger] before[i]) is Text;
                assert(parts[i] is Text);
            }
        }
    }
}

/// A user who sends a text says that text.
pub proof fn lemma_text_is_what_is_said(text: String)
    ensures
        user_text(UserMessageContent::Text(text)) == text@,
{
}

/// Images say nothing, wherever they stand among the parts: leaving one out changes nothing.
pub proof fn lemma_images_say_nothing(
    before: Seq<ContentPart>,
    image: ContentPart,
    after: Seq<ContentPart>,
    with_image: Vec<ContentPart>,
    without: Vec<ContentPart>,
)
    requires
        !(image is Text),
        with_image@ == before + seq![image] + after,
        without@ == before + after,
    ensures
        user_text(UserMessageContent::Parts(with_image)) == user_text(
            UserMessageContent::Parts(without),
        ),
{
    lemma_part_texts_in_two(before, after);
    lemma_part_texts_in_two(before + seq![image], after);
    lemma_part_texts_in_two(before, seq![image]);
    assert(seq![image].drop_last() =~= seq![]);
    assert(part_texts(seq![image].drop_last()) =~= seq![]);
    assert(part_texts(seq![image]) =~= seq![]);
    assert(part_texts(before) + part_texts(seq![image]) =~= part_texts(before));
}

/// A text that follows the other parts is said last: after one space if another text comes before
/// it, and alone otherwise.
pub proof fn lemma_texts_are_said_in_order(
    parts: Vec<ContentPart>,
    text: String,
    more: Vec<ContentPart>,
)
    requires
        more@ == parts@.push(ContentPart::Text { text }),
    ensures
        has_text(parts@) ==> user_text(UserMessageContent::Parts(more)) == user_text(
            UserMessageContent::Parts(parts),
        ) + " "@ + text@,
        !has_text(parts@) ==> user_text(UserMessageContent::Parts(more)) == text@,
        !has_text(parts@) ==> user_text(UserMessageContent::Parts(parts)) == Seq::<char>::empty(),
{
    lemma_texts_of_parts(parts@);
    assert(more@.drop_last() =~= parts@);
    assert(part_texts(more@) == part_texts(parts@).push(text@));
    assert(part_texts(more@).drop_last() =~= part_texts(parts@));
    if !has_text(parts@) {
        assert(joined(part_texts(parts@), " "@) =~= seq![]);
    }
}

/// A chat that has not begun is written as the word given to the assistant.
pub proof fn lemma_empty_chat(messages: &[ChatMessage], prompt: String)
    requires
        call_ensures(chat_prompt_string, (messages,), prompt),
        messages@.len() == 0,
    ensures
        prompt@ == "Assistant:"@,
{
    assert(rendered_all(messages@) + "Assistant:"@ =~= "Assistant:"@);
}

/// A message in front of a chat adds one line in front of its prompt: who speaks and what is said.
/// An assistant without content and the results of tools and functions add nothing.
pub proof fn lemma_message_adds_its_line(
    message: ChatMessage,
    rest: &[ChatMessage],
    messages: &[ChatMessage],
    rest_prompt: String,
    prompt: String,
)
    requires
        call_ensures(chat_prompt_string, (rest,), rest_prompt),
        call_ensures(chat_prompt_string, (messages,), prompt),
        messages@ == seq![message] + rest@,
    ensures
        message matches ChatMessage::System { role, content, name } ==> prompt@ == "System: "@
            + content@ + "\n"@ + rest_prompt@,
        message matches ChatMessage::User { role, content, name } ==> prompt@ == "User: "@
            + user_text(content) + "\n"@ + rest_prompt@,
        message matches ChatMessage::Assistant {
            role,
            content,
            name,
            tool_calls,
            function_call,
            reasoning_content,
        } ==> prompt@ == if content is Some {
            "Assistant: "@ + content->0@ + "\n"@ + rest_prompt@
        } else {
            rest_prompt@
        },
        message is Tool ==> prompt@ == rest_prompt@,
        message is Function ==> prompt@ == rest_prompt@,
{
    let one = seq![message];
    lemma_prompt_grows_with_the_chat(one, rest@);
    assert(one.drop_last() =~= seq![]);
    assert(rendered_all(one.drop_last()) =~= seq![]);
    assert(rendered_all(one) =~= rendered(message));
    assert(chat_prompt(messages@) =~= rendered(message) + chat_prompt(rest@));
}

} // verus!
