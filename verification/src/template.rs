//! Writing a chat as the text of a prompt.

use crate::protocol::{ChatMessage, ContentPart, UserMessageContent};
use crate::text::{concat, join, joined, views};
use vstd::prelude::*;

verus! {

/// The texts among the parts of a message; other parts are left out.
pub open spec fn part_texts(parts: Seq<ContentPart>) -> Seq<Seq<char>>
    decreases parts.len(),
{
    if parts.len() == 0 {
        seq![]
    } else {
        match parts.last() {
            ContentPart::Text { text } => part_texts(parts.drop_last()).push(text@),
            _ => part_texts(parts.drop_last()),
        }
    }
}

/// The text of what a user says.
pub open spec fn user_text(content: UserMessageContent) -> Seq<char> {
    match content {
        UserMessageContent::Text(text) => text@,
        UserMessageContent::Parts(parts) => joined(part_texts(parts@), " "@),
    }
}

/// A line of a prompt: who speaks, and what is said.
pub open spec fn line(speaker: Seq<char>, text: Seq<char>) -> Seq<char> {
    speaker + text + "\n"@
}

/// What a message adds to a prompt. An assistant without content says nothing, and the results of
/// tools and functions are left out.
pub open spec fn rendered(message: ChatMessage) -> Seq<char> {
    match message {
        ChatMessage::System { role, content, name } => line("System: "@, content@),
        ChatMessage::User { role, content, name } => line("User: "@, user_text(content)),
        ChatMessage::Assistant {
            role,
            content,
            name,
            tool_calls,
            function_call,
            reasoning_content,
        } => match content {
            Some(text) => line("Assistant: "@, text@),
            None => seq![],
        },
        _ => seq![],
    }
}

/// What a list of messages adds to a prompt, in order.
pub open spec fn rendered_all(messages: Seq<ChatMessage>) -> Seq<char>
    decreases messages.len(),
{
    if messages.len() == 0 {
        seq![]
    } else {
        rendered_all(messages.drop_last()) + rendered(messages.last())
    }
}

/// The prompt of a chat: its messages, and the assistant who is to speak next.
pub open spec fn chat_prompt(messages: Seq<ChatMessage>) -> Seq<char> {
    rendered_all(messages) + "Assistant:"@
}

fn user_string(content: &UserMessageContent) -> (text: String)
    ensures
        text@ == user_text(*content),
{
    match content {
        UserMessageContent::Text(text) => text.clone(),
        UserMessageContent::Parts(parts) => {
            let mut texts: Vec<String> = Vec::new();
            assert(views(texts@) =~= seq![]);
            for i in 0..parts.len()
                invariant
                    views(texts@) == part_texts(parts@.take(i as int)),
            {
                let ghost before = texts@;
                if let ContentPart::Text { text } = &parts[i] {
                    texts.push(text.clone());
                    assert(views(texts@) =~= views(before).push(text@));
                }
                assert(parts@.take(i + 1).drop_last() =~= parts@.take(i as int));
            }
            assert(parts@.take(parts.len() as int) =~= parts@);
            join(&texts, " ")
        },
    }
}

fn push_line(prompt: &mut String, speaker: &str, text: &str)
    ensures
        final(prompt)@ == old(prompt)@ + line(speaker@, text@),
{
    let mut line = concat(speaker, text);
    line.append("\n");
    prompt.append(line.as_str());
}

/// Writes a chat as the text of a prompt.
pub fn chat_prompt_string(messages: &[ChatMessage]) -> (prompt: String)
    ensures
        prompt@ == chat_prompt(messages@),
{
    let mut prompt = String::new();
    for i in 0..messages.len()
        invariant
            prompt@ == rendered_all(messages@.take(i as int)),
    {
        let ghost before = prompt@;
        match &messages[i] {
            ChatMessage::System { content, .. } => {
                push_line(&mut prompt, "System: ", content.as_str());
            },
            ChatMessage::User { content, .. } => {
                let text = user_string(content);
                push_line(&mut prompt, "User: ", text.as_str());
            },
            ChatMessage::Assistant { content, .. } => {
                if let Some(text) = content {
                    push_line(&mut prompt, "Assistant: ", text.as_str());
                }
            },
            _ => {},
        }
        proof {
            assert(messages@.take(i + 1).drop_last() =~= messages@.take(i as int));
            assert(prompt@ =~= before + rendered(messages@[i as int]));
        }
    }
    assert(messages@.take(messages.len() as int) =~= messages@);
    prompt.append("Assistant:");
    prompt
}

/// A longer chat is written as its beginning, followed by the rest: what was said before keeps its
/// place in the prompt.
pub proof fn lemma_prompt_grows_with_the_chat(first: Seq<ChatMessage>, rest: Seq<ChatMessage>)
    ensures
        rendered_all(first + rest) == rendered_all(first) + rendered_all(rest),
        chat_prompt(first + rest) == rendered_all(first) + chat_prompt(rest),
    decreases rest.len(),
{
    let all = first + rest;
    if rest.len() == 0 {
        assert(all =~= first);
        assert(rendered_all(first) + rendered_all(rest) =~= rendered_all(first));
    } else {
        lemma_prompt_grows_with_the_chat(first, rest.drop_last());
        assert(all.drop_last() =~= first + rest.drop_last());
        assert(all.last() == rest.last());
        assert(rendered_all(all) =~= rendered_all(first) + rendered_all(rest));
    }
    assert(chat_prompt(all) =~= rendered_all(first) + chat_prompt(rest));
}

/// Every prompt ends by giving the word to the assistant.
pub proof fn lemma_prompt_ends_with_the_assistant(messages: Seq<ChatMessage>)
    ensures
        "Assistant:"@.is_suffix_of(chat_prompt(messages)),
{
    let prompt = chat_prompt(messages);
    assert(prompt.subrange(prompt.len() - "Assistant:"@.len(), prompt.len() as int)
        =~= "Assistant:"@);
}

} // verus!
