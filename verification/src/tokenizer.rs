//! Tokenizers, which users of the router supply.

use crate::scheduler::{Event, StreamEvent};
use vstd::prelude::*;

verus! {

/// Turns text into tokens and back. An error is given by its message.
///
/// The router relies on nothing about what a tokenizer answers.
pub trait Tokenizer {
    /// The tokens of a text.
    fn encode(&self, text: &str) -> Result<Vec<u32>, String>;

    /// The text of a list of tokens, with or without the special ones.
    fn decode(&self, token_ids: &[u32], skip_special_tokens: bool) -> Result<String, String>;
}

/// Whether the tokenizer may answer this when it is asked for the tokens of a text.
pub open spec fn may_encode<T: Tokenizer + ?Sized>(
    tokenizer: &T,
    text: Seq<char>,
    answer: Result<Vec<u32>, String>,
) -> bool {
    exists|asked: &str|
        asked@ == text && #[trigger] call_ensures(T::encode, (tokenizer, asked), answer)
}

/// Whether the tokenizer may answer this when it is asked for the text of a list of tokens.
pub open spec fn may_decode<T: Tokenizer + ?Sized>(
    tokenizer: &T,
    token_ids: Seq<u32>,
    skip_special_tokens: bool,
    answer: Result<String, String>,
) -> bool {
    exists|asked: &[u32]|
        asked@ == token_ids && #[trigger] call_ensures(
            T::decode,
            (tokenizer, asked, skip_special_tokens),
            answer,
        )
}

/// Whether this may come of asking a tokenizer for the text of an event. Only chunks are decoded,
/// and without their special tokens.
pub open spec fn may_answer<T: Tokenizer + ?Sized>(
    tokenizer: &T,
    event: Event,
    decoded: Result<String, String>,
) -> bool {
    event matches Event::Chunk { token_ids } ==> may_decode(tokenizer, token_ids, true, decoded)
}

/// Asks a tokenizer for the text of an event.
pub fn decode_event<T: Tokenizer + ?Sized>(tokenizer: &T, event: &StreamEvent) -> (decoded: Result<
    String,
    String,
>)
    ensures
        may_answer(tokenizer, event@, decoded),
{
    match event {
        StreamEvent::Chunk { token_ids } => tokenizer.decode(token_ids.as_slice(), true),
        _ => Ok(String::new()),
    }
}

} // verus!
