//! Text completion requests: what is sent to a worker, and the response for what it collects.

use crate::chunk::ReplyHeader;
use crate::collect::{is_usage, usage_of, Collected, Collector};
use crate::dispatch::{
    are_stops, completion_delivery, completion_delivery_of, is_number_or_one, model_name,
    model_name_of, number_or_one, stops_of, token_limit, token_limit_of, Delivery, Dispatch, Prompt,
};
use crate::policy::{opt_str, LoadBalancingPolicy};
use crate::protocol::{CompletionChoice, CompletionRequest, CompletionResponse, PromptInput};
use crate::reply::{ErrorReply, BAD_REQUEST, INTERNAL_SERVER_ERROR};
use crate::request_id::{is_request_id, new_completion_request_id};
use crate::router::{detokenized, reject, rejects, GrpcRouter, Rejection};
use crate::scheduler::SamplingParams;
use crate::text::{concat, join, joined, opt_view, text_result, views};
use crate::tokenizer::{may_decode, Tokenizer};
use vstd::prelude::*;

verus! {

/// The tokens that a list of numbers stands for: those with the same bits.
pub open spec fn as_ids(numbers: Seq<i32>) -> Seq<u32> {
    numbers.map_values(|n: i32| n as u32)
}

/// The tokens that a list of numbers stands for.
pub fn ids_of(numbers: &Vec<i32>) -> (ids: Vec<u32>)
    ensures
        ids@ == as_ids(numbers@),
{
    let mut ids: Vec<u32> = Vec::new();
    for i in 0..numbers.len()
        invariant
            ids.len() == i,
            forall|j: int| 0 <= j < i ==> #[trigger] ids[j] == numbers[j] as u32,
    {
        ids.push(
            #[verifier::truncate]
            (numbers[i] as u32),
        );
    }
    assert(ids@ =~= as_ids(numbers@));
    ids
}

/// What a prompt gives: a text, or tokens, or nothing at all. Of a batch only the first list
/// counts.
pub enum Given {
    Text(Seq<char>),
    Tokens(Seq<u32>),
    Nothing,
}

/// What a prompt gives.
pub open spec fn given(prompt: PromptInput) -> Given {
    match prompt {
        PromptInput::String(text) => Given::Text(text@),
        PromptInput::StringArray(lines) => Given::Text(joined(views(lines@), "\n"@)),
        PromptInput::IntArray(ids) => Given::Tokens(as_ids(ids@)),
        PromptInput::IntBatch(batch) => if batch.len() == 0 {
            Given::Nothing
        } else {
            Given::Tokens(as_ids(batch[0]@))
        },
    }
}

/// Whether this is what becomes of tokens whose text is asked for.
pub open spec fn is_token_prompt(
    token_ids: Seq<u32>,
    text: Result<Seq<char>, Seq<char>>,
    prompt: Result<Prompt, Rejection>,
) -> bool {
    match text {
        Ok(t) => prompt matches Ok(p) && p.consists_of(t, token_ids),
        Err(e) => rejects(prompt, BAD_REQUEST, "Invalid token IDs: "@ + e),
    }
}

/// The prompt for tokens and the text that was found for them.
pub fn token_prompt(token_ids: Vec<u32>, text: Result<String, String>) -> (prompt: Result<
    Prompt,
    Rejection,
>)
    ensures
        is_token_prompt(token_ids@, text_result(text), prompt),
{
    match text {
        Ok(text) => Ok(Prompt { text, token_ids }),
        Err(e) => reject(BAD_REQUEST, concat("Invalid token IDs: ", e.as_str())),
    }
}

/// Whether this is how a text completion asks for its tokens to be chosen.
pub open spec fn is_completion_sampling(params: SamplingParams, body: CompletionRequest) -> bool {
    &&& is_number_or_one(params.temperature, body.temperature)
    &&& is_number_or_one(params.top_p, body.top_p)
    &&& params.top_k == match body.top_k {
        Some(k) => k as int,
        None => -1,
    }
    &&& params.max_tokens == token_limit(body.max_tokens)
    &&& are_stops(params.stop@, body.stop)
    &&& !params.ignore_eos
}

/// How a text completion asks for its tokens to be chosen.
pub fn completion_sampling(body: &CompletionRequest) -> (params: SamplingParams)
    ensures
        is_completion_sampling(params, *body),
{
    let defaults = SamplingParams::default();
    SamplingParams {
        temperature: number_or_one(body.temperature),
        top_p: number_or_one(body.top_p),
        top_k: match body.top_k {
            Some(k) => k,
            None => -1,
        },
        max_tokens: token_limit_of(body.max_tokens),
        stop: stops_of(&body.stop),
        ignore_eos: defaults.ignore_eos,
    }
}

/// The text of a response: what was generated, after the prompt if it is echoed.
pub open spec fn answered(echo: bool, prompt: Seq<char>, output: Seq<char>) -> Seq<char> {
    if echo {
        prompt + output
    } else {
        output
    }
}

/// An echoed response starts with the prompt, and what is left is the response without the echo.
pub proof fn lemma_echo_starts_with_the_prompt(prompt: Seq<char>, output: Seq<char>)
    ensures
        prompt.is_prefix_of(answered(true, prompt, output)),
        answered(true, prompt, output).skip(prompt.len() as int) == answered(false, prompt, output),
{
    assert(prompt =~= (prompt + output).subrange(0, prompt.len() as int));
    assert((prompt + output).skip(prompt.len() as int) =~= output);
}

/// Whether this is the response for what was collected, with this text.
pub open spec fn is_completion_response(
    response: CompletionResponse,
    header: ReplyHeader,
    prompt_tokens: nat,
    collected: Collected,
    text: Seq<char>,
) -> bool {
    &&& response.id@ == header.request_id@
    &&& response.object@ == "text_completion"@
    &&& response.created == header.created
    &&& response.model@ == header.model@
    &&& response.choices.len() == 1
    &&& response.choices[0].index == 0
    &&& response.choices[0].text@ == text
    &&& response.choices[0].logprobs is None
    &&& opt_view(response.choices[0].finish_reason) == collected.finish_reason
    &&& response.choices[0].matched_stop is None
    &&& response.choices[0].hidden_states is None
    &&& response.usage matches Some(usage) && is_usage(
        usage,
        prompt_tokens,
        collected.completion_tokens,
    )
    &&& response.system_fingerprint is None
}

/// Whether this is the response to a prompt for what was collected, given the text of that.
pub open spec fn is_completion_reply(
    response: Result<CompletionResponse, ErrorReply>,
    header: ReplyHeader,
    prompt: Prompt,
    echo: bool,
    collected: Collected,
    output: Result<Seq<char>, Seq<char>>,
) -> bool {
    match output {
        Ok(text) => response matches Ok(r) && is_completion_response(
            r,
            header,
            prompt.token_ids@.len(),
            collected,
            answered(echo, prompt.text@, text),
        ),
        Err(e) => response matches Err(reply) && reply.says(
            INTERNAL_SERVER_ERROR,
            "Detokenization failed: "@ + e,
        ),
    }
}

/// The response to a prompt for what was collected. `output` is what detokenizing that gave.
pub fn completion_response(
    header: ReplyHeader,
    prompt: &Prompt,
    echo: bool,
    collected: Collector,
    output: Result<String, String>,
) -> (response: Result<CompletionResponse, ErrorReply>)
    ensures
        is_completion_reply(response, header, *prompt, echo, collected@, text_result(output)),
{
    let output_text = match output {
        Ok(text) => text,
        Err(e) => {
            return Err(
                ErrorReply::new(
                    INTERNAL_SERVER_ERROR,
                    concat("Detokenization failed: ", e.as_str()),
                ),
            );
        },
    };
    let text = if echo {
        concat(prompt.text.as_str(), output_text.as_str())
    } else {
        output_text
    };
    let mut choices: Vec<CompletionChoice> = Vec::new();
    choices.push(
        CompletionChoice {
            index: 0,
            text,
            logprobs: None,
            finish_reason: collected.finish_reason,
            matched_stop: None,
            hidden_states: None,
        },
    );
    Ok(
        CompletionResponse {
            id: header.request_id,
            object: "text_completion".to_string(),
            created: header.created,
            model: header.model,
            choices,
            usage: Some(usage_of(prompt.token_ids.len(), collected.completion_tokens)),
            system_fingerprint: None,
        },
    )
}

impl<T: Tokenizer + ?Sized, P: LoadBalancingPolicy<C> + ?Sized, C: Clone> GrpcRouter<T, P, C> {
    /// Whether this may come of asking for the text of tokens, special ones included.
    pub open spec fn may_resolve_tokens(
        &self,
        ids: Seq<u32>,
        prompt: Result<Prompt, Rejection>,
    ) -> bool {
        exists|decoded: Result<String, String>| #[trigger]
            may_decode(&*self.tokenizer(), ids, false, decoded) && is_token_prompt(
                ids,
                detokenized(decoded),
                prompt,
            )
    }

    /// Whether this may come of resolving what a prompt gives.
    pub open spec fn may_resolve(&self, input: Given, prompt: Result<Prompt, Rejection>) -> bool {
        match input {
            Given::Text(text) => self.may_resolve_text(text, prompt),
            Given::Tokens(ids) => self.may_resolve_tokens(ids, prompt),
            Given::Nothing => rejects(prompt, BAD_REQUEST, "Empty prompt array"@),
        }
    }

    /// The text and the tokens of a prompt, or why the request is rejected.
    pub fn resolve_prompt(&self, input: &PromptInput) -> (prompt: Result<Prompt, Rejection>)
        ensures
            self.may_resolve(given(*input), prompt),
    {
        match input {
            PromptInput::String(text) => self.resolve_text(text.clone()),
            PromptInput::StringArray(lines) => self.resolve_text(join(lines, "\n")),
            PromptInput::IntArray(numbers) => self.resolve_ids(numbers),
            PromptInput::IntBatch(batch) => {
                if batch.len() == 0 {
                    return reject(BAD_REQUEST, "Empty prompt array".to_string());
                }
                self.resolve_ids(&batch[0])
            },
        }
    }

    /// The prompt that a list of numbers stands for.
    fn resolve_ids(&self, numbers: &Vec<i32>) -> (prompt: Result<Prompt, Rejection>)
        ensures
            self.may_resolve_tokens(as_ids(numbers@), prompt),
    {
        let ids = ids_of(numbers);
        let text = self.detokenize(ids.as_slice(), false);
        token_prompt(ids, text)
    }

    /// Whether this may come of taking a text completion: the request that goes to a worker, or
    /// why there is none.
    pub open spec fn may_take_completion(
        &self,
        id: Seq<char>,
        body: CompletionRequest,
        model_id: Option<Seq<char>>,
        dispatch: Result<Dispatch<C>, Rejection>,
    ) -> bool {
        exists|prompt: Result<Prompt, Rejection>| #[trigger]
            self.may_resolve(given(body.prompt), prompt) && match prompt {
                Ok(p) => {
                    &&& self.may_send(
                        id,
                        model_name(model_id),
                        p.text@,
                        p.token_ids@,
                        completion_delivery_of(body),
                        dispatch,
                    )
                    &&& dispatch matches Ok(d) ==> {
                        &&& d.request.sampling_params matches Some(params)
                        &&& is_completion_sampling(params, body)
                    }
                },
                Err(rejection) => dispatch == Err::<Dispatch<C>, Rejection>(rejection),
            }
    }

    /// Takes a text completion under this id: resolves its prompt, chooses a worker.
    pub fn take_completion(
        &self,
        request_id: String,
        body: &CompletionRequest,
        model_id: Option<&str>,
    ) -> (dispatch: Result<Dispatch<C>, Rejection>)
        ensures
            self.may_take_completion(request_id@, *body, opt_str(model_id), dispatch),
    {
        match self.resolve_prompt(&body.prompt) {
            Ok(prompt) => {
                assert(self.may_resolve(given(body.prompt), Ok::<Prompt, Rejection>(prompt)));
                self.dispatch(
                    request_id,
                    model_name_of(model_id),
                    prompt,
                    completion_sampling(body),
                    completion_delivery(body),
                )
            },
            Err(rejection) => {
                assert(self.may_resolve(given(body.prompt), Err::<Prompt, Rejection>(rejection)));
                Err(rejection)
            },
        }
    }

    /// Takes a text completion request: gives it an id and makes it ready to be sent to a worker.
    pub fn handle_completion(&self, body: &CompletionRequest, model_id: Option<&str>) -> (dispatch:
        Result<Dispatch<C>, Rejection>)
        ensures
            exists|id: Seq<char>| #[trigger]
                is_request_id(id, "cmpl-"@) && self.may_take_completion(
                    id,
                    *body,
                    opt_str(model_id),
                    dispatch,
                ),
    {
        let request_id = new_completion_request_id();
        self.take_completion(request_id, body, model_id)
    }

    /// The response to a text completion that does not stream, for what was collected.
    pub fn handle_completion_non_streaming(
        &self,
        header: ReplyHeader,
        prompt: &Prompt,
        echo: bool,
        collected: Collector,
    ) -> (response: Result<CompletionResponse, ErrorReply>)
        ensures
            exists|decoded: Result<String, String>| #[trigger]
                may_decode(&*self.tokenizer(), collected@.token_ids, true, decoded)
                    && is_completion_reply(
                    response,
                    header,
                    *prompt,
                    echo,
                    collected@,
                    detokenized(decoded),
                ),
    {
        let token_ids = collected.token_ids.as_slice();
        assert(token_ids@ == collected@.token_ids);
        let output = self.detokenize(token_ids, true);
        completion_response(header, prompt, echo, collected, output)
    }
}

/// The flags of a text completion decide how it is answered: by events, or by one response that
/// echoes the prompt or does not. Either way the reply bears the id that the worker knows the
/// request by, and the model that was asked for.
pub proof fn lemma_completion_is_answered_as_asked<
    T: Tokenizer + ?Sized,
    P: LoadBalancingPolicy<C> + ?Sized,
    C: Clone,
>(
    router: &GrpcRouter<T, P, C>,
    id: Seq<char>,
    body: CompletionRequest,
    model_id: Option<Seq<char>>,
    dispatch: Result<Dispatch<C>, Rejection>,
)
    requires
        router.may_take_completion(id, body, model_id, dispatch),
    ensures
        dispatch matches Ok(d) ==> {
            &&& d.delivery is Streamed <==> body.stream
            &&& d.delivery is Streamed || d.delivery == (Delivery::Collected { echo: body.echo })
            &&& d.request.stream == body.stream
            &&& d.request_id@ == id
            &&& d.request.request_id@ == id
            &&& d.model@ == model_name(model_id)
        },
{
}

/// A prompt that is given as tokens is sent to the worker as these tokens, whatever the tokenizer
/// makes of them.
pub proof fn lemma_tokens_are_sent_unchanged<
    T: Tokenizer + ?Sized,
    P: LoadBalancingPolicy<C> + ?Sized,
    C: Clone,
>(
    router: &GrpcRouter<T, P, C>,
    id: Seq<char>,
    body: CompletionRequest,
    model_id: Option<Seq<char>>,
    dispatch: Result<Dispatch<C>, Rejection>,
    token_ids: Seq<u32>,
)
    requires
        router.may_take_completion(id, body, model_id, dispatch),
        given(body.prompt) == Given::Tokens(token_ids),
    ensures
        dispatch matches Ok(d) ==> {
            &&& d.request.tokenized matches Some(input)
            &&& input.input_ids@ == token_ids
        },
{
}

/// An empty batch of prompts is a fault of the request, and reaches neither tokenizer nor worker.
pub proof fn lemma_empty_batch_is_rejected<
    T: Tokenizer + ?Sized,
    P: LoadBalancingPolicy<C> + ?Sized,
    C: Clone,
>(
    router: &GrpcRouter<T, P, C>,
    id: Seq<char>,
    body: CompletionRequest,
    model_id: Option<Seq<char>>,
    dispatch: Result<Dispatch<C>, Rejection>,
)
    requires
        router.may_take_completion(id, body, model_id, dispatch),
        body.prompt matches PromptInput::IntBatch(batch) && batch.len() == 0,
    ensures
        rejects(dispatch, BAD_REQUEST, "Empty prompt array"@),
{
}

} // verus!
