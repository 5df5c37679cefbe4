//! Requests on their way to a worker.

use crate::chunk::ReplyHeader;
use crate::clock::timestamp;
use crate::policy::{opt_str, LoadBalancingPolicy};
use crate::protocol::{ChatCompletionRequest, CompletionRequest, F32Bits, ONE_BITS};
use crate::reply::{ErrorReply, INTERNAL_SERVER_ERROR};
use crate::router::{ids_result, reject, rejects, tokenized, GrpcRouter, Rejection, Route};
use crate::scheduler::{GenerateRequest, SamplingParams, TokenizedInput};
use crate::text::{concat, copy_ids, copy_strings, views};
use crate::tokenizer::{may_encode, Tokenizer};
use std::time::SystemTime;
use vstd::prelude::*;

verus! {

/// A prompt, as text and as tokens.
#[derive(Debug)]
pub struct Prompt {
    pub text: String,
    pub token_ids: Vec<u32>,
}

impl Prompt {
    /// Whether the prompt is this text, with these tokens.
    pub open spec fn consists_of(self, text: Seq<char>, token_ids: Seq<u32>) -> bool {
        self.text@ == text && self.token_ids@ == token_ids
    }
}

/// Whether this is what becomes of a text whose tokens are asked for.
pub open spec fn is_text_prompt(
    text: Seq<char>,
    token_ids: Result<Seq<u32>, Seq<char>>,
    prompt: Result<Prompt, Rejection>,
) -> bool {
    match token_ids {
        Ok(ids) => prompt matches Ok(p) && p.consists_of(text, ids),
        Err(e) => rejects(prompt, INTERNAL_SERVER_ERROR, e),
    }
}

/// The prompt for a text and the tokens that were found for it.
pub fn text_prompt(text: String, token_ids: Result<Vec<u32>, String>) -> (prompt: Result<
    Prompt,
    Rejection,
>)
    ensures
        is_text_prompt(text@, ids_result(token_ids), prompt),
{
    match token_ids {
        Ok(token_ids) => Ok(Prompt { text, token_ids }),
        Err(e) => reject(INTERNAL_SERVER_ERROR, e),
    }
}

/// How the reply to a request reaches its client.
#[derive(Clone, Copy, Debug, PartialEq, Eq, Structural)]
pub enum Delivery {
    /// As events, while it is being generated.
    Streamed,
    /// As one response, after the prompt if that is echoed.
    Collected { echo: bool },
}

/// The delivery that a chat asks for. A chat is never echoed.
pub open spec fn chat_delivery_of(body: ChatCompletionRequest) -> Delivery {
    if body.stream {
        Delivery::Streamed
    } else {
        Delivery::Collected { echo: false }
    }
}

/// The delivery that a chat asks for.
pub fn chat_delivery(body: &ChatCompletionRequest) -> (delivery: Delivery)
    ensures
        delivery == chat_delivery_of(*body),
{
    if body.stream {
        Delivery::Streamed
    } else {
        Delivery::Collected { echo: false }
    }
}

/// The delivery that a text completion asks for.
pub open spec fn completion_delivery_of(body: CompletionRequest) -> Delivery {
    if body.stream {
        Delivery::Streamed
    } else {
        Delivery::Collected { echo: body.echo }
    }
}

/// The delivery that a text completion asks for.
pub fn completion_delivery(body: &CompletionRequest) -> (delivery: Delivery)
    ensures
        delivery == completion_delivery_of(*body),
{
    if body.stream {
        Delivery::Streamed
    } else {
        Delivery::Collected { echo: body.echo }
    }
}

/// A request that is ready to be sent, and what is needed for the reply.
pub struct Dispatch<C> {
    pub client: C,
    pub base_url: String,
    pub request: GenerateRequest,
    pub request_id: String,
    pub model: String,
    pub prompt: Prompt,
    pub delivery: Delivery,
}

/// Whether a number is the one that was asked for, or one if none was.
pub open spec fn is_number_or_one(number: F32Bits, asked: Option<F32Bits>) -> bool {
    number.bits == match asked {
        Some(n) => n.bits,
        None => ONE_BITS,
    }
}

/// The number that was asked for, or one.
pub fn number_or_one(asked: Option<F32Bits>) -> (number: F32Bits)
    ensures
        is_number_or_one(number, asked),
{
    match asked {
        Some(number) => number,
        None => F32Bits { bits: ONE_BITS },
    }
}

/// A limit as the scheduler takes it. One beyond the range of an `i32` wraps around.
pub open spec fn token_limit(asked: Option<u32>) -> Option<i32> {
    match asked {
        Some(n) => Some(n as i32),
        None => None,
    }
}

/// A limit as the scheduler takes it.
pub fn token_limit_of(asked: Option<u32>) -> (limit: Option<i32>)
    ensures
        limit == token_limit(asked),
{
    match asked {
        Some(n) => Some(
            #[verifier::truncate]
            (n as i32),
        ),
        None => None,
    }
}

/// A limit that fits is passed on as it is.
pub proof fn lemma_token_limit_is_exact(n: u32)
    requires
        n <= i32::MAX,
    ensures
        token_limit(Some(n)) matches Some(limit) && limit == n,
{
}

/// A rank as the scheduler takes it. One beyond the range of an `i32` wraps around.
pub open spec fn rank(dp_rank: Option<usize>) -> Option<i32> {
    match dp_rank {
        Some(r) => Some(r as i32),
        None => None,
    }
}

/// A rank as the scheduler takes it.
pub fn rank_of(dp_rank: Option<usize>) -> (r: Option<i32>)
    ensures
        r == rank(dp_rank),
{
    match dp_rank {
        Some(r) => Some(
            #[verifier::truncate]
            (r as i32),
        ),
        None => None,
    }
}

/// A rank that fits is passed on as it is.
pub proof fn lemma_rank_is_exact(r: usize)
    requires
        r <= i32::MAX,
    ensures
        rank(Some(r)) matches Some(passed) && passed == r,
{
}

/// Whether these are the stop sequences that were asked for, or none if none were.
pub open spec fn are_stops(stop: Seq<String>, asked: Option<Vec<String>>) -> bool {
    views(stop) == match asked {
        Some(list) => views(list@),
        None => Seq::empty(),
    }
}

/// The stop sequences that were asked for.
pub fn stops_of(asked: &Option<Vec<String>>) -> (stop: Vec<String>)
    ensures
        are_stops(stop@, *asked),
{
    match asked {
        Some(list) => copy_strings(list),
        None => {
            let stop: Vec<String> = Vec::new();
            assert(views(stop@) =~= Seq::empty());
            stop
        },
    }
}

/// The name of the model in a reply.
pub open spec fn model_name(model_id: Option<Seq<char>>) -> Seq<char> {
    match model_id {
        Some(name) => name,
        None => "unknown"@,
    }
}

/// The name of the model in a reply.
pub fn model_name_of(model_id: Option<&str>) -> (model: String)
    ensures
        model@ == model_name(opt_str(model_id)),
{
    match model_id {
        Some(name) => name.to_string(),
        None => "unknown".to_string(),
    }
}

/// Whether the input of a generation is this prompt.
pub open spec fn is_input(
    tokenized: Option<TokenizedInput>,
    prompt: Seq<char>,
    ids: Seq<u32>,
) -> bool {
    tokenized matches Some(input) && input.original_text@ == prompt && input.input_ids@ == ids
}

/// Whether a dispatch sends this prompt along a route.
pub open spec fn is_dispatch<C>(
    dispatch: Dispatch<C>,
    route: Route<C>,
    id: Seq<char>,
    model: Seq<char>,
    prompt: Seq<char>,
    ids: Seq<u32>,
    delivery: Delivery,
) -> bool {
    &&& dispatch.client == route.client
    &&& dispatch.base_url@ == route.base_url@
    &&& dispatch.request_id@ == id
    &&& dispatch.model@ == model
    &&& dispatch.prompt.consists_of(prompt, ids)
    &&& dispatch.request.request_id@ == id
    &&& is_input(dispatch.request.tokenized, prompt, ids)
    &&& dispatch.request.stream == (delivery is Streamed)
    &&& dispatch.delivery == delivery
    &&& dispatch.request.data_parallel_rank == rank(route.dp_rank)
}

/// Makes a request ready to be sent along a route.
pub fn dispatch_along<C>(
    route: Route<C>,
    request_id: String,
    model: String,
    prompt: Prompt,
    sampling: SamplingParams,
    delivery: Delivery,
) -> (dispatch: Dispatch<C>)
    ensures
        is_dispatch(
            dispatch,
            route,
            request_id@,
            model@,
            prompt.text@,
            prompt.token_ids@,
            delivery,
        ),
        dispatch.request.sampling_params == Some(sampling),
{
    let request = GenerateRequest {
        request_id: request_id.clone(),
        tokenized: Some(
            TokenizedInput {
                original_text: prompt.text.clone(),
                input_ids: copy_ids(&prompt.token_ids),
            },
        ),
        sampling_params: Some(sampling),
        stream: matches!(delivery, Delivery::Streamed),
        data_parallel_rank: rank_of(route.dp_rank),
    };
    Dispatch {
        client: route.client,
        base_url: route.base_url,
        request,
        request_id,
        model,
        prompt,
        delivery,
    }
}

/// The reply to a request that the worker did not take.
pub fn generation_failed(status: &str) -> (reply: ErrorReply)
    ensures
        reply.says(INTERNAL_SERVER_ERROR, "Generation failed: "@ + status@),
{
    ErrorReply::new(INTERNAL_SERVER_ERROR, concat("Generation failed: ", status))
}

impl<T: Tokenizer + ?Sized, P: LoadBalancingPolicy<C> + ?Sized, C: Clone> GrpcRouter<T, P, C> {
    /// Whether this may come of asking for the tokens of a text.
    pub open spec fn may_resolve_text(
        &self,
        text: Seq<char>,
        prompt: Result<Prompt, Rejection>,
    ) -> bool {
        exists|encoded: Result<Vec<u32>, String>| #[trigger]
            may_encode(&*self.tokenizer(), text, encoded) && is_text_prompt(
                text,
                tokenized(encoded),
                prompt,
            )
    }

    /// The prompt with this text and the tokens that the tokenizer finds for it.
    pub fn resolve_text(&self, text: String) -> (prompt: Result<Prompt, Rejection>)
        ensures
            self.may_resolve_text(text@, prompt),
    {
        let token_ids = self.tokenize(text.as_str());
        text_prompt(text, token_ids)
    }

    /// Whether this may come of sending a prompt to a worker: the request that goes to it, or why
    /// there is none.
    pub open spec fn may_send(
        &self,
        id: Seq<char>,
        model: Seq<char>,
        prompt: Seq<char>,
        ids: Seq<u32>,
        delivery: Delivery,
        dispatch: Result<Dispatch<C>, Rejection>,
    ) -> bool {
        exists|route: Result<Route<C>, Rejection>| #[trigger]
            self.may_route(prompt, route) && match route {
                Ok(r) => dispatch matches Ok(d) && is_dispatch(
                    d,
                    r,
                    id,
                    model,
                    prompt,
                    ids,
                    delivery,
                ),
                Err(rejection) => dispatch == Err::<Dispatch<C>, Rejection>(rejection),
            }
    }

    /// Chooses a worker for a prompt and makes the request ready to be sent to it.
    pub fn dispatch(
        &self,
        request_id: String,
        model: String,
        prompt: Prompt,
        sampling: SamplingParams,
        delivery: Delivery,
    ) -> (dispatch: Result<Dispatch<C>, Rejection>)
        ensures
            self.may_send(
                request_id@,
                model@,
                prompt.text@,
                prompt.token_ids@,
                delivery,
                dispatch,
            ),
            dispatch matches Ok(d) ==> d.request.sampling_params == Some(sampling),
    {
        match self.route(prompt.text.as_str()) {
            Ok(route) => {
                assert(self.may_route(prompt.text@, Ok::<Route<C>, Rejection>(route)));
                Ok(dispatch_along(route, request_id, model, prompt, sampling, delivery))
            },
            Err(rejection) => {
                assert(self.may_route(prompt.text@, Err::<Route<C>, Rejection>(rejection)));
                Err(rejection)
            },
        }
    }

    /// What every part of the reply to a request repeats: its id, the model, and when the worker
    /// took it.
    pub fn reply_header(request_id: String, model: String) -> (header: ReplyHeader)
        ensures
            header.request_id@ == request_id@,
            header.model@ == model@,
            exists|time: SystemTime| header.created == #[trigger] timestamp(time),
    {
        ReplyHeader { request_id, model, created: Self::current_timestamp() }
    }
}

} // verus!
