//! Chat completion requests: what is sent to a worker, and the response for what it collects.

use crate::chunk::ReplyHeader;
use crate::collect::{is_usage, usage_of, Collected, Collector};
use crate::dispatch::{
    are_stops, chat_delivery, chat_delivery_of, is_number_or_one, model_name, model_name_of,
    number_or_one, stops_of, token_limit, token_limit_of, Delivery, Dispatch, Prompt,
};
use crate::policy::{opt_str, LoadBalancingPolicy};
use crate::protocol::{ChatChoice, ChatCompletionRequest, ChatCompletionResponse, ChatMessage};
use crate::reply::{ErrorReply, INTERNAL_SERVER_ERROR};
use crate::request_id::{is_request_id, new_chat_request_id};
use crate::router::{detokenized, reject, GrpcRouter, Rejection, Route};
use crate::scheduler::SamplingParams;
use crate::template::chat_prompt;
use crate::text::{concat, opt_view, text_result};
use crate::tokenizer::{may_decode, Tokenizer};
use vstd::prelude::*;

verus! {

/// Whether this is how a chat asks for its tokens to be chosen. The newer name of the limit has
/// precedence.
pub open spec fn is_chat_sampling(params: SamplingParams, body: ChatCompletionRequest) -> bool {
    &&& is_number_or_one(params.temperature, body.temperature)
    &&& is_number_or_one(params.top_p, body.top_p)
    &&& params.top_k == 0
    &&& params.max_tokens == token_limit(
        if body.max_completion_tokens is Some {
            body.max_completion_tokens
        } else {
            body.max_tokens
        },
    )
    &&& are_stops(params.stop@, body.stop)
    &&& params.ignore_eos == body.ignore_eos
}

/// How a chat asks for its tokens to be chosen.
pub fn chat_sampling(body: &ChatCompletionRequest) -> (params: SamplingParams)
    ensures
        is_chat_sampling(params, *body),
{
    let asked = match body.max_completion_tokens {
        Some(n) => Some(n),
        None => body.max_tokens,
    };
    let defaults = SamplingParams::default();
    SamplingParams {
        temperature: number_or_one(body.temperature),
        top_p: number_or_one(body.top_p),
        top_k: defaults.top_k,
        max_tokens: token_limit_of(asked),
        stop: stops_of(&body.stop),
        ignore_eos: body.ignore_eos,
    }
}

/// The newer limit of a chat stands, whatever the older one says; the older one stands alone.
pub proof fn lemma_newer_limit_has_precedence(
    params: SamplingParams,
    body: ChatCompletionRequest,
    limit: u32,
)
    requires
        is_chat_sampling(params, body),
        limit <= i32::MAX,
        body.max_completion_tokens == Some(limit) || (body.max_completion_tokens is None
            && body.max_tokens == Some(limit)),
    ensures
        params.max_tokens matches Some(n) && n == limit,
{
}

/// Whether a message is what an assistant says.
pub open spec fn is_assistant_message(message: ChatMessage, text: Seq<char>) -> bool {
    match message {
        ChatMessage::Assistant {
            role,
            content,
            name,
            tool_calls,
            function_call,
            reasoning_content,
        } => {
            &&& role@ == "assistant"@
            &&& opt_view(content) == Some(text)
            &&& name is None
            &&& tool_calls is None
            &&& function_call is None
            &&& reasoning_content is None
        },
        _ => false,
    }
}

/// Whether this is the response for what was collected, with this text.
pub open spec fn is_chat_response(
    response: ChatCompletionResponse,
    header: ReplyHeader,
    prompt_tokens: nat,
    collected: Collected,
    text: Seq<char>,
) -> bool {
    &&& response.id@ == header.request_id@
    &&& response.object@ == "chat.completion"@
    &&& response.created == header.created
    &&& response.model@ == header.model@
    &&& response.choices.len() == 1
    &&& response.choices[0].index == 0
    &&& is_assistant_message(response.choices[0].message, text)
    &&& response.choices[0].logprobs is None
    &&& opt_view(response.choices[0].finish_reason) == collected.finish_reason
    &&& response.choices[0].matched_stop is None
    &&& response.choices[0].hidden_states is None
    &&& response.usage matches Some(usage) && is_usage(
        usage,
        prompt_tokens,
        collected.completion_tokens,
    )
    &&& response.system_fingerprint is None
}

/// Whether this is the response for what was collected, given the text of that.
pub open spec fn is_chat_reply(
    response: Result<ChatCompletionResponse, ErrorReply>,
    header: ReplyHeader,
    prompt_tokens: nat,
    collected: Collected,
    output: Result<Seq<char>, Seq<char>>,
) -> bool {
    match output {
        Ok(text) => response matches Ok(r) && is_chat_response(
            r,
            header,
            prompt_tokens,
            collected,
            text,
        ),
        Err(e) => response matches Err(reply) && reply.says(
            INTERNAL_SERVER_ERROR,
            "Detokenization failed: "@ + e,
        ),
    }
}

/// The response for what was collected. `text` is what detokenizing it gave.
pub fn chat_response(
    header: ReplyHeader,
    prompt_tokens: usize,
    collected: Collector,
    text: Result<String, String>,
) -> (response: Result<ChatCompletionResponse, ErrorReply>)
    ensures
        is_chat_reply(
            response,
            header,
            prompt_tokens as nat,
            collected@,
            text_result(text),
        ),
{
    let output_text = match text {
        Ok(text) => text,
        Err(e) => {
            return Err(
                ErrorReply::new(
                    INTERNAL_SERVER_ERROR,
                    concat("Detokenization failed: ", e.as_str()),
                ),
            );
        },
    };
    let message = ChatMessage::Assistant {
        role: "assistant".to_string(),
        content: Some(output_text),
        name: None,
        tool_calls: None,
        function_call: None,
        reasoning_content: None,
    };
    let mut choices: Vec<ChatChoice> = Vec::new();
    choices.push(
        ChatChoice {
            index: 0,
            message,
            logprobs: None,
            finish_reason: collected.finish_reason,
            matched_stop: None,
            hidden_states: None,
        },
    );
    Ok(
        ChatCompletionResponse {
            id: header.request_id,
            object: "chat.completion".to_string(),
            created: header.created,
            model: header.model,
            choices,
            usage: Some(usage_of(prompt_tokens, collected.completion_tokens)),
            system_fingerprint: None,
        },
    )
}

impl<T: Tokenizer + ?Sized, P: LoadBalancingPolicy<C> + ?Sized, C: Clone> GrpcRouter<T, P, C> {
    /// Whether this may come of taking a chat: the request that goes to a worker, or why there is
    /// none.
    pub open spec fn may_take_chat(
        &self,
        id: Seq<char>,
        body: ChatCompletionRequest,
        model_id: Option<Seq<char>>,
        dispatch: Result<Dispatch<C>, Rejection>,
    ) -> bool {
        exists|prompt: Result<Prompt, Rejection>| #[trigger]
            self.may_resolve_text(chat_prompt(body.messages@), prompt) && match prompt {
                Ok(p) => {
                    &&& self.may_send(
                        id,
                        model_name(model_id),
                        p.text@,
                        p.token_ids@,
                        chat_delivery_of(body),
                        dispatch,
                    )
                    &&& dispatch matches Ok(d) ==> {
                        &&& d.request.sampling_params matches Some(params)
                        &&& is_chat_sampling(params, body)
                    }
                },
                Err(rejection) => dispatch == Err::<Dispatch<C>, Rejection>(rejection),
            }
    }

    /// Takes a chat under this id: writes its prompt, finds its tokens, chooses a worker.
    pub fn take_chat(
        &self,
        request_id: String,
        body: &ChatCompletionRequest,
        model_id: Option<&str>,
    ) -> (dispatch: Result<Dispatch<C>, Rejection>)
        ensures
            self.may_take_chat(request_id@, *body, opt_str(model_id), dispatch),
    {
        let text = match self.apply_chat_template(body.messages.as_slice()) {
            Ok(text) => text,
            Err(e) => {
                return reject(INTERNAL_SERVER_ERROR, concat("Chat template error: ", e.as_str()));
            },
        };
        let ghost prompt_text = text@;
        match self.resolve_text(text) {
            Ok(prompt) => {
                assert(self.may_resolve_text(prompt_text, Ok::<Prompt, Rejection>(prompt)));
                self.dispatch(
                    request_id,
                    model_name_of(model_id),
                    prompt,
                    chat_sampling(body),
                    chat_delivery(body),
                )
            },
            Err(rejection) => {
                assert(self.may_resolve_text(prompt_text, Err::<Prompt, Rejection>(rejection)));
                Err(rejection)
            },
        }
    }

    /// Takes a chat request: gives it an id and makes it ready to be sent to a worker.
    pub fn handle_chat_completion(
        &self,
        body: &ChatCompletionRequest,
        model_id: Option<&str>,
    ) -> (dispatch: Result<Dispatch<C>, Rejection>)
        ensures
            exists|id: Seq<char>| #[trigger]
                is_request_id(id, "chatcmpl-"@) && self.may_take_chat(
                    id,
                    *body,
                    opt_str(model_id),
                    dispatch,
                ),
    {
        let request_id = new_chat_request_id();
        self.take_chat(request_id, body, model_id)
    }

    /// The response to a chat that does not stream, for what was collected.
    pub fn handle_chat_non_streaming(
        &self,
        header: ReplyHeader,
        prompt_tokens: usize,
        collected: Collector,
    ) -> (response: Result<ChatCompletionResponse, ErrorReply>)
        ensures
            exists|decoded: Result<String, String>| #[trigger]
                may_decode(&*self.tokenizer(), collected@.token_ids, true, decoded)
                    && is_chat_reply(
                    response,
                    header,
                    prompt_tokens as nat,
                    collected@,
                    detokenized(decoded),
                ),
    {
        let token_ids = collected.token_ids.as_slice();
        assert(token_ids@ == collected@.token_ids);
        let text = self.detokenize(token_ids, true);
        chat_response(header, prompt_tokens, collected, text)
    }
}

/// The flag of a chat decides how it is answered: by events, or by one response. Either way the
/// reply bears the id that the worker knows the request by, and the model that was asked for.
pub proof fn lemma_chat_is_answered_as_asked<
    T: Tokenizer + ?Sized,
    P: LoadBalancingPolicy<C> + ?Sized,
    C: Clone,
>(
    router: &GrpcRouter<T, P, C>,
    id: Seq<char>,
    body: ChatCompletionRequest,
    model_id: Option<Seq<char>>,
    dispatch: Result<Dispatch<C>, Rejection>,
)
    requires
        router.may_take_chat(id, body, model_id, dispatch),
    ensures
        dispatch matches Ok(d) ==> {
            &&& d.delivery is Streamed <==> body.stream
            &&& d.delivery is Streamed || d.delivery == (Delivery::Collected { echo: false })
            &&& d.request.stream == body.stream
            &&& d.request_id@ == id
            &&& d.request.request_id@ == id
            &&& d.model@ == model_name(model_id)
        },
{
}

/// A chat reaches a worker as its prompt: that is the text which the worker is sent, and by which
/// it is chosen.
pub proof fn lemma_chat_is_sent_as_its_prompt<
    T: Tokenizer + ?Sized,
    P: LoadBalancingPolicy<C> + ?Sized,
    C: Clone,
>(
    router: &GrpcRouter<T, P, C>,
    id: Seq<char>,
    body: ChatCompletionRequest,
    model_id: Option<Seq<char>>,
    dispatch: Result<Dispatch<C>, Rejection>,
)
    requires
        router.may_take_chat(id, body, model_id, dispatch),
        dispatch is Ok,
    ensures
        dispatch matches Ok(d) && {
            &&& d.request.tokenized matches Some(input)
            &&& input.original_text@ == chat_prompt(body.messages@)
            &&& input.input_ids@ == d.prompt.token_ids@
        },
        exists|route: Result<Route<C>, Rejection>| #[trigger]
            router.may_route(chat_prompt(body.messages@), route) && (route matches Ok(r)
                && dispatch matches Ok(d) && d.client == r.client),
{
}

} // verus!
