//! The messages exchanged with the scheduler of a worker.

use crate::protocol::F32Bits;
use vstd::prelude::*;

verus! {

/// A prompt, as text and as tokens.
#[derive(Debug)]
pub struct TokenizedInput {
    pub original_text: String,
    pub input_ids: Vec<u32>,
}

/// How the next token is chosen, and when to stop.
#[derive(Debug)]
pub struct SamplingParams {
    pub temperature: F32Bits,
    pub top_p: F32Bits,
    pub top_k: i32,
    pub max_tokens: Option<i32>,
    pub stop: Vec<String>,
    pub ignore_eos: bool,
}

impl Default for SamplingParams {
    /// The message with every field unset: zero, false, absent or empty.
    fn default() -> (params: Self)
        ensures
            params.temperature.bits == 0,
            params.top_p.bits == 0,
            params.top_k == 0,
            params.max_tokens is None,
            params.stop@ == Seq::<String>::empty(),
            !params.ignore_eos,
    {
        SamplingParams {
            temperature: F32Bits { bits: 0 },
            top_p: F32Bits { bits: 0 },
            top_k: 0,
            max_tokens: None,
            stop: Vec::new(),
            ignore_eos: false,
        }
    }
}

/// A request to generate tokens.
#[derive(Debug)]
pub struct GenerateRequest {
    pub request_id: String,
    pub tokenized: Option<TokenizedInput>,
    pub sampling_params: Option<SamplingParams>,
    pub stream: bool,
    pub data_parallel_rank: Option<i32>,
}

/// What the end of a generation reports.
#[derive(Debug)]
pub struct GenerateComplete {
    pub output_ids: Vec<u32>,
    pub finish_reason: String,
    pub completion_tokens: i32,
}

/// What reading the reply stream of a worker gives.
#[derive(Debug)]
pub enum StreamEvent {
    /// Tokens that were generated since the last chunk.
    Chunk { token_ids: Vec<u32> },
    /// The generation is complete.
    Complete(GenerateComplete),
    /// The worker reports an error.
    Error { message: String },
    /// A message without content.
    Empty,
    /// The stream itself failed, with this status.
    Failed { status: String },
    /// The stream has ended.
    End,
}

/// The model of [`GenerateComplete`].
pub struct Completed {
    pub output_ids: Seq<u32>,
    pub finish_reason: Seq<char>,
    pub completion_tokens: i32,
}

/// The model of [`StreamEvent`].
pub enum Event {
    Chunk { token_ids: Seq<u32> },
    Complete(Completed),
    Error { message: Seq<char> },
    Empty,
    Failed { status: Seq<char> },
    End,
}

impl View for GenerateComplete {
    type V = Completed;

    open spec fn view(&self) -> Completed {
        Completed {
            output_ids: self.output_ids@,
            finish_reason: self.finish_reason@,
            completion_tokens: self.completion_tokens,
        }
    }
}

impl View for StreamEvent {
    type V = Event;

    open spec fn view(&self) -> Event {
        match *self {
            StreamEvent::Chunk { token_ids } => Event::Chunk { token_ids: token_ids@ },
            StreamEvent::Complete(complete) => Event::Complete(complete@),
            StreamEvent::Error { message } => Event::Error { message: message@ },
            StreamEvent::Empty => Event::Empty,
            StreamEvent::Failed { status } => Event::Failed { status: status@ },
            StreamEvent::End => Event::End,
        }
    }
}

} // verus!
