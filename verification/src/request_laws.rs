//! Laws of requests: the prompt that is found for them, the worker that is chosen, and what that
//! worker is sent.

use crate::chat_handler::{chat_sampling, is_chat_sampling};
use crate::chunk::ReplyHeader;
use crate::clock::{epoch_nanos, timestamp};
use crate::completion_handler::{
    as_ids, completion_sampling, given, ids_of, is_completion_sampling, is_token_prompt,
};
use crate::dispatch::{
    are_stops, chat_delivery, chat_delivery_of, completion_delivery, completion_delivery_of,
    generation_failed, is_dispatch, is_text_prompt, model_name, model_name_of, Delivery, Dispatch,
    Prompt,
};
use crate::policy::{may_select, opt_str, LoadBalancingPolicy, Worker};
use crate::protocol::{
    ChatCompletionRequest, ChatMessage, CompletionRequest, F32Bits, PromptInput, ONE_BITS,
};
use crate::reply::ErrorReply;
use crate::request_id::is_request_id;
use crate::router::{
    detokenize_answer, detokenized, ids_result, tokenize_answer, tokenized, GrpcRouter, Rejection,
    Route, SelectError,
};
use crate::scheduler::SamplingParams;
use crate::template::chat_prompt;
use crate::text::{joined, text_result, views};
use crate::tokenizer::{may_decode, may_encode, Tokenizer};
use crate::writing_laws::{is_prefixed_ulid, lemma_request_id_is_prefixed_ulid};
use std::time::SystemTime;
use vstd::prelude::*;

verus! {

/// The number one, in single precision.
pub proof fn lemma_one()
    ensures
        ONE_BITS == 0x3f80_0000,
{
}

/// What a worker takes for fields that are not set: zero, no limit, no stop sequences.
pub proof fn lemma_unset_fields_are_zero(params: SamplingParams)
    requires
        call_ensures(SamplingParams::default, (), params),
    ensures
        params.temperature.bits == 0,
        params.top_p.bits == 0,
        params.top_k == 0,
        params.max_tokens is None,
        params.stop@.len() == 0,
        !params.ignore_eos,
{
}

/// Whether this is the number that was asked for, bit for bit, or one if none was.
pub open spec fn is_asked_or_one(number: F32Bits, asked: Option<F32Bits>) -> bool {
    &&& asked matches Some(n) ==> number.bits == n.bits
    &&& asked is None ==> number.bits == 0x3f80_0000
}

/// Whether this is the limit that was asked for, which wraps around if it does not fit, or none if
/// none was.
pub open spec fn is_limit(limit: Option<i32>, asked: Option<u32>) -> bool {
    match asked {
        Some(n) => limit is Some && limit->0 == if n <= i32::MAX {
            n as int
        } else {
            n - 0x1_0000_0000
        },
        None => limit is None,
    }
}

/// Whether these are the stop sequences that were asked for, in order, or none if none were.
pub open spec fn are_asked(stop: Seq<String>, asked: Option<Vec<String>>) -> bool {
    match asked {
        Some(list) => {
            &&& stop.len() == list@.len()
            &&& forall|i: int| 0 <= i < stop.len() ==> (#[trigger] stop[i])@ == list@[i]@
        },
        None => stop.len() == 0,
    }
}

/// What a chat asks for, field by field. No field depends on another, except that the newer limit
/// takes the place of the older one.
pub open spec fn asks_as_chat(params: SamplingParams, body: ChatCompletionRequest) -> bool {
    &&& is_asked_or_one(params.temperature, body.temperature)
    &&& is_asked_or_one(params.top_p, body.top_p)
    &&& params.top_k == 0
    &&& body.max_completion_tokens is Some ==> is_limit(
        params.max_tokens,
        body.max_completion_tokens,
    )
    &&& body.max_completion_tokens is None ==> is_limit(params.max_tokens, body.max_tokens)
    &&& are_asked(params.stop@, body.stop)
    &&& params.ignore_eos <==> body.ignore_eos
}

/// What a text completion asks for, field by field. No field depends on another.
pub open spec fn asks_as_completion(params: SamplingParams, body: CompletionRequest) -> bool {
    &&& is_asked_or_one(params.temperature, body.temperature)
    &&& is_asked_or_one(params.top_p, body.top_p)
    &&& body.top_k matches Some(k) ==> params.top_k == k
    &&& body.top_k is None ==> params.top_k == -1
    &&& is_limit(params.max_tokens, body.max_tokens)
    &&& are_asked(params.stop@, body.stop)
    &&& !params.ignore_eos
}

proof fn lemma_limit(n: u32)
    ensures
        n > i32::MAX ==> (n as i32) == n - 0x1_0000_0000,
{
    assert(n > 0x7fff_ffff ==> (n as i32) == n - 0x1_0000_0000) by (bit_vector);
}

proof fn lemma_stops(stop: Seq<String>, asked: Option<Vec<String>>)
    requires
        are_stops(stop, asked),
    ensures
        are_asked(stop, asked),
{
    assert(views(stop).len() == stop.len());
    if let Some(list) = asked {
        assert(views(list@).len() == list@.len());
        assert forall|i: int| 0 <= i < stop.len() implies (#[trigger] stop[i])@ == list@[i]@ by {
            assert(views(stop)[i] == views(list@)[i]);
        }
    }
}

/// A chat asks the worker for what its body says, whether it streams or not.
pub proof fn lemma_chat_asks_for_what_it_says(body: &ChatCompletionRequest, params: SamplingParams)
    requires
        call_ensures(chat_sampling, (body,), params),
    ensures
        asks_as_chat(params, *body),
{
    if let Some(n) = body.max_completion_tokens {
        lemma_limit(n);
    }
    if let Some(n) = body.max_tokens {
        lemma_limit(n);
    }
    lemma_stops(params.stop@, body.stop);
}

/// A text completion asks the worker for what its body says, whether it streams or not.
pub proof fn lemma_completion_asks_for_what_it_says(
    body: &CompletionRequest,
    params: SamplingParams,
)
    requires
        call_ensures(completion_sampling, (body,), params),
    ensures
        asks_as_completion(params, *body),
{
    if let Some(n) = body.max_tokens {
        lemma_limit(n);
    }
    lemma_stops(params.stop@, body.stop);
}

/// How requests are answered: by events if they ask for a stream, by one response otherwise; text
/// completions say whether that echoes the prompt.
pub proof fn lemma_deliveries(
    chat: &ChatCompletionRequest,
    chat_way: Delivery,
    completion: &CompletionRequest,
    completion_way: Delivery,
)
    requires
        call_ensures(chat_delivery, (chat,), chat_way),
        call_ensures(completion_delivery, (completion,), completion_way),
    ensures
        chat.stream ==> chat_way is Streamed,
        !chat.stream ==> chat_way == (Delivery::Collected { echo: false }),
        completion.stream ==> completion_way is Streamed,
        !completion.stream ==> completion_way == (Delivery::Collected { echo: completion.echo }),
{
}

/// Replies bear the model that the request was addressed to, or say that it is unknown.
pub proof fn lemma_model_is_named(model_id: Option<&str>, model: String)
    requires
        call_ensures(model_name_of, (model_id,), model),
    ensures
        model_id matches Some(name) ==> model@ == name@,
        model_id is None ==> model@ == "unknown"@,
{
}

/// A worker that refuses a request is an internal error, told with its status.
pub proof fn lemma_refusal_is_told(status: &str, reply: ErrorReply)
    requires
        call_ensures(generation_failed, (status,), reply),
    ensures
        reply.status == 500,
        reply.error@ == "Generation failed: "@ + status@,
{
}

/// Answers of a tokenizer are passed on as they are; its errors say which way it failed.
pub proof fn lemma_tokenizer_answers_are_passed_on(
    encoded: Result<Vec<u32>, String>,
    ids: Result<Vec<u32>, String>,
    decoded: Result<String, String>,
    text: Result<String, String>,
)
    requires
        call_ensures(tokenize_answer, (encoded,), ids),
        call_ensures(detokenize_answer, (decoded,), text),
    ensures
        encoded matches Ok(answer) ==> ids is Ok && ids->Ok_0@ == answer@,
        encoded matches Err(e) ==> ids is Err && ids->Err_0@ == "Tokenization failed: "@ + e@,
        decoded matches Ok(answer) ==> text is Ok && text->Ok_0@ == answer@,
        decoded matches Err(e) ==> text is Err && text->Err_0@ == "Detokenization failed: "@ + e@,
{
}

/// Whether a tokenizer may give these tokens for this text.
pub open spec fn gives_tokens<T: Tokenizer + ?Sized>(
    tokenizer: &T,
    text: Seq<char>,
    ids: Seq<u32>,
) -> bool {
    exists|asked: &str, encoded: Result<Vec<u32>, String>|
        asked@ == text && encoded is Ok && encoded->Ok_0@ == ids && #[trigger] call_ensures(
            T::encode,
            (tokenizer, asked),
            encoded,
        )
}

/// Whether a tokenizer may fail with this message on this text.
pub open spec fn gives_no_tokens<T: Tokenizer + ?Sized>(
    tokenizer: &T,
    text: Seq<char>,
    message: Seq<char>,
) -> bool {
    exists|asked: &str, encoded: Result<Vec<u32>, String>|
        asked@ == text && encoded is Err && encoded->Err_0@ == message && #[trigger] call_ensures(
            T::encode,
            (tokenizer, asked),
            encoded,
        )
}

/// Whether a tokenizer may give this text for these tokens, special ones included or not.
pub open spec fn writes<T: Tokenizer + ?Sized>(
    tokenizer: &T,
    ids: Seq<u32>,
    skip_special_tokens: bool,
    text: Seq<char>,
) -> bool {
    exists|asked: &[u32], decoded: Result<String, String>|
        asked@ == ids && decoded is Ok && decoded->Ok_0@ == text && #[trigger] call_ensures(
            T::decode,
            (tokenizer, asked, skip_special_tokens),
            decoded,
        )
}

/// Whether a tokenizer may fail with this message on these tokens.
pub open spec fn writes_nothing<T: Tokenizer + ?Sized>(
    tokenizer: &T,
    ids: Seq<u32>,
    skip_special_tokens: bool,
    message: Seq<char>,
) -> bool {
    exists|asked: &[u32], decoded: Result<String, String>|
        asked@ == ids && decoded is Err && decoded->Err_0@ == message && #[trigger] call_ensures(
            T::decode,
            (tokenizer, asked, skip_special_tokens),
            decoded,
        )
}

proof fn lemma_encoding<T: Tokenizer + ?Sized>(
    tokenizer: &T,
    text: Seq<char>,
    encoded: Result<Vec<u32>, String>,
)
    requires
        may_encode(tokenizer, text, encoded),
    ensures
        encoded matches Ok(ids) ==> gives_tokens(tokenizer, text, ids@),
        encoded matches Err(e) ==> gives_no_tokens(tokenizer, text, e@),
{
    let asked = choose|asked: &str|
        asked@ == text && #[trigger] call_ensures(T::encode, (tokenizer, asked), encoded);
    assert(call_ensures(T::encode, (tokenizer, asked), encoded));
}

proof fn lemma_decoding<T: Tokenizer + ?Sized>(
    tokenizer: &T,
    ids: Seq<u32>,
    skip_special_tokens: bool,
    decoded: Result<String, String>,
)
    requires
        may_decode(tokenizer, ids, skip_special_tokens, decoded),
    ensures
        decoded matches Ok(text) ==> writes(tokenizer, ids, skip_special_tokens, text@),
        decoded matches Err(e) ==> writes_nothing(tokenizer, ids, skip_special_tokens, e@),
{
    let asked = choose|asked: &[u32]|
        asked@ == ids && #[trigger] call_ensures(
            T::decode,
            (tokenizer, asked, skip_special_tokens),
            decoded,
        );
    assert(call_ensures(T::decode, (tokenizer, asked, skip_special_tokens), decoded));
}

/// The router tokenizes with its tokenizer, and asks it for the whole text.
pub proof fn lemma_router_tokenizes<
    T: Tokenizer + ?Sized,
    P: LoadBalancingPolicy<C> + ?Sized,
    C,
>(
    router: &GrpcRouter<T, P, C>,
    prompt: &str,
    ids: Result<Vec<u32>, String>,
)
    requires
        call_ensures(GrpcRouter::<T, P, C>::tokenize, (router, prompt), ids),
    ensures
        ids matches Ok(found) ==> gives_tokens(&*router.tokenizer(), prompt@, found@),
        ids matches Err(message) ==> exists|e: Seq<char>| #[trigger]
            gives_no_tokens(&*router.tokenizer(), prompt@, e) && message@
                == "Tokenization failed: "@ + e,
{
    let encoded = choose|encoded: Result<Vec<u32>, String>| #[trigger]
        may_encode(&*router.tokenizer(), prompt@, encoded) && ids_result(ids)
            == tokenized(encoded);
    lemma_encoding(&*router.tokenizer(), prompt@, encoded);
}

/// The router detokenizes with its tokenizer, and asks it for all tokens, with or without special
/// ones as it is asked itself.
pub proof fn lemma_router_detokenizes<
    T: Tokenizer + ?Sized,
    P: LoadBalancingPolicy<C> + ?Sized,
    C,
>(
    router: &GrpcRouter<T, P, C>,
    token_ids: &[u32],
    skip_special_tokens: bool,
    text: Result<String, String>,
)
    requires
        call_ensures(
            GrpcRouter::<T, P, C>::detokenize,
            (router, token_ids, skip_special_tokens),
            text,
        ),
    ensures
        text matches Ok(found) ==> writes(
            &*router.tokenizer(),
            token_ids@,
            skip_special_tokens,
            found@,
        ),
        text matches Err(message) ==> exists|e: Seq<char>| #[trigger]
            writes_nothing(&*router.tokenizer(), token_ids@, skip_special_tokens, e) && message@
                == "Detokenization failed: "@ + e,
{
    let decoded = choose|decoded: Result<String, String>| #[trigger]
        may_decode(&*router.tokenizer(), token_ids@, skip_special_tokens, decoded)
            && text_result(text) == detokenized(decoded);
    lemma_decoding(&*router.tokenizer(), token_ids@, skip_special_tokens, decoded);
}

/// The tokens of a list of numbers have their bits: a number that is not negative is its own token.
pub proof fn lemma_ids_have_the_same_bits(numbers: &Vec<i32>, ids: Vec<u32>)
    requires
        call_ensures(ids_of, (numbers,), ids),
    ensures
        have_the_bits(ids@, numbers@),
{
    lemma_bits(numbers@);
}

/// Whether these tokens have the bits of these numbers.
pub open spec fn have_the_bits(ids: Seq<u32>, numbers: Seq<i32>) -> bool {
    &&& ids.len() == numbers.len()
    &&& forall|i: int|
        0 <= i < ids.len() ==> #[trigger] ids[i] == if numbers[i] >= 0 {
            numbers[i] as int
        } else {
            numbers[i] + 0x1_0000_0000
        }
}

proof fn lemma_bits(numbers: Seq<i32>)
    ensures
        have_the_bits(as_ids(numbers), numbers),
{
    let ids = as_ids(numbers);
    assert forall|i: int| 0 <= i < ids.len() implies #[trigger] ids[i] == if numbers[i] >= 0 {
        numbers[i] as int
    } else {
        numbers[i] + 0x1_0000_0000
    } by {
        let n = numbers[i];
        assert(n < 0 ==> (n as u32) == n + 0x1_0000_0000) by (bit_vector);
    }
}

/// A text prompt is that text, with the tokens that the tokenizer gives for it.
pub open spec fn resolves_text<T: Tokenizer + ?Sized>(
    tokenizer: &T,
    text: Seq<char>,
    prompt: Result<Prompt, Rejection>,
) -> bool {
    &&& prompt matches Ok(p) ==> p.text@ == text && gives_tokens(tokenizer, text, p.token_ids@)
    &&& prompt matches Err(rejection) ==> {
        &&& rejection matches Rejection::Reply(reply)
        &&& reply.status == 500
        &&& exists|e: Seq<char>| #[trigger]
            gives_no_tokens(tokenizer, text, e) && reply.error@ == "Tokenization failed: "@ + e
    }
}

/// A token prompt is these tokens, unchanged, with the text that the tokenizer gives for them,
/// special ones included.
pub open spec fn resolves_tokens<T: Tokenizer + ?Sized>(
    tokenizer: &T,
    numbers: Seq<i32>,
    prompt: Result<Prompt, Rejection>,
) -> bool {
    &&& prompt matches Ok(p) ==> have_the_bits(p.token_ids@, numbers) && writes(
        tokenizer,
        p.token_ids@,
        false,
        p.text@,
    )
    &&& prompt matches Err(rejection) ==> {
        &&& rejection matches Rejection::Reply(reply)
        &&& reply.status == 400
        &&& exists|ids: Seq<u32>, e: Seq<char>| #[trigger]
            writes_nothing(tokenizer, ids, false, e) && have_the_bits(ids, numbers)
                && reply.error@ == "Invalid token IDs: "@ + ("Detokenization failed: "@ + e)
    }
}

/// What each form of prompt stands for: a text for itself, several texts for their lines, tokens
/// for themselves, and a batch for the first of its lists.
pub open spec fn resolves<T: Tokenizer + ?Sized>(
    tokenizer: &T,
    input: PromptInput,
    prompt: Result<Prompt, Rejection>,
) -> bool {
    match input {
        PromptInput::String(text) => resolves_text(tokenizer, text@, prompt),
        PromptInput::StringArray(lines) => resolves_text(
            tokenizer,
            joined(views(lines@), "\n"@),
            prompt,
        ),
        PromptInput::IntArray(numbers) => resolves_tokens(tokenizer, numbers@, prompt),
        PromptInput::IntBatch(batch) => if batch@.len() > 0 {
            resolves_tokens(tokenizer, batch@[0]@, prompt)
        } else {
            prompt matches Err(Rejection::Reply(reply)) && reply.status == 400 && reply.error@
                == "Empty prompt array"@
        },
    }
}

proof fn lemma_resolving_text<
    T: Tokenizer + ?Sized,
    P: LoadBalancingPolicy<C> + ?Sized,
    C: Clone,
>(
    router: &GrpcRouter<T, P, C>,
    text: Seq<char>,
    prompt: Result<Prompt, Rejection>,
)
    requires
        router.may_resolve_text(text, prompt),
    ensures
        resolves_text(&*router.tokenizer(), text, prompt),
{
    let encoded = choose|encoded: Result<Vec<u32>, String>| #[trigger]
        may_encode(&*router.tokenizer(), text, encoded) && is_text_prompt(
            text,
            tokenized(encoded),
            prompt,
        );
    lemma_encoding(&*router.tokenizer(), text, encoded);
}

proof fn lemma_resolving_tokens<
    T: Tokenizer + ?Sized,
    P: LoadBalancingPolicy<C> + ?Sized,
    C: Clone,
>(
    router: &GrpcRouter<T, P, C>,
    numbers: Seq<i32>,
    prompt: Result<Prompt, Rejection>,
)
    requires
        router.may_resolve_tokens(as_ids(numbers), prompt),
    ensures
        resolves_tokens(&*router.tokenizer(), numbers, prompt),
{
    let ids = as_ids(numbers);
    let decoded = choose|decoded: Result<String, String>| #[trigger]
        may_decode(&*router.tokenizer(), ids, false, decoded)
            && is_token_prompt(ids, detokenized(decoded), prompt);
    lemma_decoding(&*router.tokenizer(), ids, false, decoded);
    lemma_bits(numbers);
    if let Err(e) = decoded {
        assert(writes_nothing(&*router.tokenizer(), ids, false, e@));
    }
}

proof fn lemma_resolving<
    T: Tokenizer + ?Sized,
    P: LoadBalancingPolicy<C> + ?Sized,
    C: Clone,
>(
    router: &GrpcRouter<T, P, C>,
    input: PromptInput,
    prompt: Result<Prompt, Rejection>,
)
    requires
        router.may_resolve(given(input), prompt),
    ensures
        resolves(&*router.tokenizer(), input, prompt),
{
    match input {
        PromptInput::String(text) => lemma_resolving_text(router, text@, prompt),
        PromptInput::StringArray(lines) => lemma_resolving_text(
            router,
            joined(views(lines@), "\n"@),
            prompt,
        ),
        PromptInput::IntArray(numbers) => lemma_resolving_tokens(router, numbers@, prompt),
        PromptInput::IntBatch(batch) => if batch@.len() > 0 {
            lemma_resolving_tokens(router, batch@[0]@, prompt);
        },
    }
}

/// Every form of prompt is resolved to what it stands for.
pub proof fn lemma_prompts_are_resolved<
    T: Tokenizer + ?Sized,
    P: LoadBalancingPolicy<C> + ?Sized,
    C: Clone,
>(
    router: &GrpcRouter<T, P, C>,
    input: &PromptInput,
    prompt: Result<Prompt, Rejection>,
)
    requires
        call_ensures(GrpcRouter::<T, P, C>::resolve_prompt, (router, input), prompt),
    ensures
        resolves(&*router.tokenizer(), *input, prompt),
{
    lemma_resolving(router, *input, prompt);
}

/// Whether a policy may answer this when it is shown these workers and this text.
pub open spec fn answers<C, P: LoadBalancingPolicy<C> + ?Sized>(
    policy: &P,
    workers: Seq<Worker<C>>,
    text: Option<Seq<char>>,
    answer: Option<usize>,
) -> bool {
    exists|shown: &[Worker<C>], asked: Option<&str>|
        shown@ == workers && (asked is Some <==> text is Some) && (asked is Some ==> asked->0@
            == text->0) && #[trigger] call_ensures(
            P::select_worker,
            (policy, shown, asked),
            answer,
        )
}

proof fn lemma_answering<C, P: LoadBalancingPolicy<C> + ?Sized>(
    policy: &P,
    workers: Seq<Worker<C>>,
    text: Option<Seq<char>>,
    answer: Option<usize>,
)
    requires
        may_select(policy, workers, text, answer),
    ensures
        answers(policy, workers, text, answer),
{
    let (shown, asked) = choose|shown: &[Worker<C>], asked: Option<&str>|
        shown@ == workers && opt_str(asked) == text && #[trigger] call_ensures(
            P::select_worker,
            (policy, shown, asked),
            answer,
        );
    assert(call_ensures(P::select_worker, (policy, shown, asked), answer));
}

/// A worker is chosen by the policy alone, which sees all workers and the text of the request. Only
/// without any worker it is not asked.
pub proof fn lemma_policy_chooses<
    T: Tokenizer + ?Sized,
    P: LoadBalancingPolicy<C> + ?Sized,
    C,
>(
    router: &GrpcRouter<T, P, C>,
    request_text: Option<&str>,
    worker: Result<&Worker<C>, SelectError>,
)
    requires
        call_ensures(GrpcRouter::<T, P, C>::select_worker, (router, request_text), worker),
    ensures
        worker is Err && worker->Err_0 is NoWorkers <==> router.workers().len() == 0,
        router.workers().len() > 0 ==> exists|answer: Option<usize>| #[trigger]
            answers(
                &*router.policy(),
                router.workers(),
                opt_str(request_text),
                answer,
            ) && match answer {
                None => worker is Err && worker->Err_0 is NoHealthyWorker,
                Some(i) => if i < router.workers().len() {
                    worker is Ok && *worker->Ok_0 == router.workers()[i as int]
                } else {
                    worker is Err && worker->Err_0 == SelectError::OutOfRange(i)
                },
            },
        opt_str(request_text) is Some <==> request_text is Some,
        request_text matches Some(t) ==> opt_str(request_text) == Some(t@),
{
    if router.workers().len() > 0 {
        let answer = choose|answer: Option<usize>| #[trigger]
            may_select(
                &*router.policy(),
                router.workers(),
                opt_str(request_text),
                answer,
            ) && match answer {
                None => worker == Err::<&Worker<C>, SelectError>(SelectError::NoHealthyWorker),
                Some(i) => if i < router.workers().len() {
                    worker == Ok::<&Worker<C>, SelectError>(&router.workers()[i as int])
                } else {
                    worker == Err::<&Worker<C>, SelectError>(SelectError::OutOfRange(i))
                },
            };
        lemma_answering(&*router.policy(), router.workers(), opt_str(request_text), answer);
    }
}

/// The URL by which the client of a worker is found: its base URL if several workers run on a node,
/// its own otherwise.
pub open spec fn found_by<C>(data_parallel_size: usize, worker: Worker<C>) -> Seq<char> {
    if data_parallel_size > 1 {
        worker.base_url@
    } else {
        worker.url@
    }
}

/// Clients are found by URL; a URL without one is told.
pub proof fn lemma_clients_are_found_by_url<
    T: Tokenizer + ?Sized,
    P: LoadBalancingPolicy<C> + ?Sized,
    C: Clone,
>(
    router: &GrpcRouter<T, P, C>,
    worker_url: &str,
    client: Result<C, String>,
)
    requires
        call_ensures(GrpcRouter::<T, P, C>::get_grpc_client, (router, worker_url), client),
    ensures
        router.clients().contains_key(worker_url@) ==> client is Ok && cloned(
            router.clients()[worker_url@],
            client->Ok_0,
        ),
        !router.clients().contains_key(worker_url@) ==> client is Err && client->Err_0@
            == "No gRPC client configured for "@ + worker_url@,
{
}

/// A route to a worker has the client that is found for it, its base URL and its rank; without a
/// client there is none.
pub proof fn lemma_route_leads_to_its_worker<
    T: Tokenizer + ?Sized,
    P: LoadBalancingPolicy<C> + ?Sized,
    C: Clone,
>(
    router: &GrpcRouter<T, P, C>,
    worker: &Worker<C>,
    route: Result<Route<C>, Rejection>,
)
    requires
        call_ensures(GrpcRouter::<T, P, C>::route_to, (router, worker), route),
    ensures
        leads_to(router, *worker, route),
{
}

/// Whether a route leads to a worker.
pub open spec fn leads_to<
    T: Tokenizer + ?Sized,
    P: LoadBalancingPolicy<C> + ?Sized,
    C: Clone,
>(
    router: &GrpcRouter<T, P, C>,
    worker: Worker<C>,
    route: Result<Route<C>, Rejection>,
) -> bool {
    let url = found_by(router.data_parallel_size(), worker);
    if router.clients().contains_key(url) {
        &&& route matches Ok(r)
        &&& cloned(router.clients()[url], r.client)
        &&& r.base_url@ == worker.base_url@
        &&& r.dp_rank == worker.dp_rank
    } else {
        route matches Err(Rejection::Reply(reply)) && reply.status == 500 && reply.error@
            == "gRPC connection failed"@
    }
}

/// Whether this is a route for a request with this text: the policy is asked with that text, and
/// the route leads to the worker that it chooses. Without a worker the service is unavailable.
pub open spec fn is_routed_by<
    T: Tokenizer + ?Sized,
    P: LoadBalancingPolicy<C> + ?Sized,
    C: Clone,
>(
    router: &GrpcRouter<T, P, C>,
    text: Seq<char>,
    route: Result<Route<C>, Rejection>,
) -> bool {
    if router.workers().len() == 0 {
        route matches Err(Rejection::Reply(reply)) && reply.status == 503 && reply.error@
            == "No workers available"@
    } else {
        exists|answer: Option<usize>| #[trigger]
            answers(&*router.policy(), router.workers(), Some(text), answer) && match answer {
                None => route matches Err(Rejection::Reply(reply)) && reply.status == 503
                    && reply.error@ == "No workers available"@,
                Some(i) => if i < router.workers().len() {
                    leads_to(router, router.workers()[i as int], route)
                } else {
                    route is Err && route->Err_0 == Rejection::OutOfRange(i)
                },
            }
    }
}

proof fn lemma_routing<
    T: Tokenizer + ?Sized,
    P: LoadBalancingPolicy<C> + ?Sized,
    C: Clone,
>(
    router: &GrpcRouter<T, P, C>,
    text: Seq<char>,
    route: Result<Route<C>, Rejection>,
)
    requires
        router.may_route(text, route),
    ensures
        is_routed_by(router, text, route),
{
    let worker = choose|worker: Result<&Worker<C>, SelectError>| #[trigger]
        router.may_choose(Some(text), worker) && router.is_route_for(worker, route);
    if router.workers().len() > 0 {
        let answer = choose|answer: Option<usize>| #[trigger]
            may_select(
                &*router.policy(),
                router.workers(),
                Some(text),
                answer,
            ) && match answer {
                None => worker == Err::<&Worker<C>, SelectError>(SelectError::NoHealthyWorker),
                Some(i) => if i < router.workers().len() {
                    worker == Ok::<&Worker<C>, SelectError>(&router.workers()[i as int])
                } else {
                    worker == Err::<&Worker<C>, SelectError>(SelectError::OutOfRange(i))
                },
            };
        lemma_answering(&*router.policy(), router.workers(), Some(text), answer);
    }
}

/// A request is routed by its text: the policy is asked with that text and with nothing else.
pub proof fn lemma_requests_are_routed_by_their_text<
    T: Tokenizer + ?Sized,
    P: LoadBalancingPolicy<C> + ?Sized,
    C: Clone,
>(
    router: &GrpcRouter<T, P, C>,
    request_text: &str,
    route: Result<Route<C>, Rejection>,
)
    requires
        call_ensures(GrpcRouter::<T, P, C>::route, (router, request_text), route),
    ensures
        is_routed_by(router, request_text@, route),
{
    lemma_routing(router, request_text@, route);
}

/// A choice of worker decides the route: that to the worker which was chosen, or none.
pub proof fn lemma_choice_decides_the_route<
    T: Tokenizer + ?Sized,
    P: LoadBalancingPolicy<C> + ?Sized,
    C: Clone,
>(
    router: &GrpcRouter<T, P, C>,
    worker: Result<&Worker<C>, SelectError>,
    route: Result<Route<C>, Rejection>,
)
    requires
        call_ensures(GrpcRouter::<T, P, C>::route_for, (router, worker), route),
    ensures
        worker matches Ok(w) ==> leads_to(router, *w, route),
        worker matches Err(e) ==> {
            &&& e is NoWorkers || e is NoHealthyWorker ==> {
                &&& route matches Err(Rejection::Reply(reply))
                &&& reply.status == 503
                &&& reply.error@ == "No workers available"@
            }
            &&& e matches SelectError::OutOfRange(i) ==> route is Err && route->Err_0
                == Rejection::OutOfRange(i)
        },
{
}

/// The position that a policy answers with is that of the worker which it means.
pub proof fn lemma_answer_is_a_position<
    T: Tokenizer + ?Sized,
    P: LoadBalancingPolicy<C> + ?Sized,
    C,
>(
    router: &GrpcRouter<T, P, C>,
    answer: Option<usize>,
    worker: Result<&Worker<C>, SelectError>,
)
    requires
        call_ensures(GrpcRouter::<T, P, C>::chosen_worker, (router, answer), worker),
    ensures
        answer is None ==> worker is Err && worker->Err_0 is NoHealthyWorker,
        answer matches Some(i) ==> if i < router.workers().len() {
            worker is Ok && *worker->Ok_0 == router.workers()[i as int]
        } else {
            worker is Err && worker->Err_0 == SelectError::OutOfRange(i)
        },
{
}

/// Whether a rank is passed on: as it is if it fits, by its lowest bits otherwise, and not at all
/// if there is none.
pub open spec fn is_passed_on(passed: Option<i32>, dp_rank: Option<usize>) -> bool {
    match dp_rank {
        Some(r) => {
            &&& passed is Some
            &&& r <= i32::MAX ==> passed->0 == r
            &&& (passed->0 as u32) as int == (r as int) % 0x1_0000_0000
        },
        None => passed is None,
    }
}

proof fn lemma_rank(r: usize)
    ensures
        is_passed_on(Some(r as i32), Some(r)),
{
    assert(((r as i32) as u32) as u64 == (r as u64) % 0x1_0000_0000u64) by (bit_vector);
}

/// What a worker is sent, and what is kept for the reply: the prompt as text and as tokens, the
/// rank and the client of the worker, the id and the model of the request.
pub open spec fn sends<C>(
    dispatch: Dispatch<C>,
    id: Seq<char>,
    model: Seq<char>,
    prompt: Seq<char>,
    ids: Seq<u32>,
    stream: bool,
) -> bool {
    &&& dispatch.request_id@ == id
    &&& dispatch.model@ == model
    &&& dispatch.prompt.text@ == prompt
    &&& dispatch.prompt.token_ids@ == ids
    &&& dispatch.request.request_id@ == id
    &&& dispatch.request.tokenized matches Some(input)
    &&& input.original_text@ == prompt
    &&& input.input_ids@ == ids
    &&& dispatch.request.stream == stream
    &&& dispatch.delivery is Streamed <==> stream
}

/// Whether a request with this text is on its way to one of the workers, the one that the policy
/// chose for that text: with its client, its base URL and its rank.
pub open spec fn goes_to_the_chosen_worker<
    T: Tokenizer + ?Sized,
    P: LoadBalancingPolicy<C> + ?Sized,
    C: Clone,
>(
    router: &GrpcRouter<T, P, C>,
    text: Seq<char>,
    dispatch: Dispatch<C>,
) -> bool {
    exists|i: usize| #[trigger]
        answers(&*router.policy(), router.workers(), Some(text), Some(i)) && i
            < router.workers().len() && {
            let worker = router.workers()[i as int];
            let url = found_by(router.data_parallel_size(), worker);
            &&& router.clients().contains_key(url)
            &&& cloned(router.clients()[url], dispatch.client)
            &&& dispatch.base_url@ == worker.base_url@
            &&& is_passed_on(dispatch.request.data_parallel_rank, worker.dp_rank)
        }
}

/// Whether a request with this text is turned away because no worker can take it: none is there,
/// the policy finds none fit, or the one that it chose has no client.
pub open spec fn is_turned_away<
    T: Tokenizer + ?Sized,
    P: LoadBalancingPolicy<C> + ?Sized,
    C: Clone,
>(
    router: &GrpcRouter<T, P, C>,
    text: Seq<char>,
    rejection: Rejection,
) -> bool {
    ||| rejection matches Rejection::Reply(reply) && reply.status == 503 && reply.error@
        == "No workers available"@ && (router.workers().len() == 0 || answers(
        &*router.policy(),
        router.workers(),
        Some(text),
        None,
    ))
    ||| rejection matches Rejection::Reply(reply) && reply.status == 500 && reply.error@
        == "gRPC connection failed"@ && exists|i: usize| #[trigger]
        answers(&*router.policy(), router.workers(), Some(text), Some(i)) && i
            < router.workers().len() && !router.clients().contains_key(
            found_by(router.data_parallel_size(), router.workers()[i as int]),
        )
    ||| rejection matches Rejection::OutOfRange(i) && i >= router.workers().len() && answers(
        &*router.policy(),
        router.workers(),
        Some(text),
        Some(i),
    )
}

proof fn lemma_sending<
    T: Tokenizer + ?Sized,
    P: LoadBalancingPolicy<C> + ?Sized,
    C: Clone,
>(
    router: &GrpcRouter<T, P, C>,
    id: Seq<char>,
    model: Seq<char>,
    prompt: Seq<char>,
    ids: Seq<u32>,
    delivery: Delivery,
    dispatch: Result<Dispatch<C>, Rejection>,
)
    requires
        router.may_send(id, model, prompt, ids, delivery, dispatch),
    ensures
        dispatch matches Ok(d) ==> {
            &&& sends(d, id, model, prompt, ids, delivery is Streamed)
            &&& d.delivery == delivery
            &&& goes_to_the_chosen_worker(router, prompt, d)
        },
        dispatch matches Err(rejection) ==> is_turned_away(router, prompt, rejection),
{
    let route = choose|route: Result<Route<C>, Rejection>| #[trigger]
        router.may_route(prompt, route) && match route {
            Ok(r) => dispatch matches Ok(d) && is_dispatch(
                d,
                r,
                id,
                model,
                prompt,
                ids,
                delivery,
            ),
            Err(rejection) => dispatch == Err::<Dispatch<C>, Rejection>(rejection),
        };
    lemma_routing(router, prompt, route);
    if router.workers().len() > 0 {
        let answer = choose|answer: Option<usize>| #[trigger]
            answers(&*router.policy(), router.workers(), Some(prompt), answer) && match answer {
                None => route matches Err(Rejection::Reply(reply)) && reply.status == 503
                    && reply.error@ == "No workers available"@,
                Some(i) => if i < router.workers().len() {
                    leads_to(router, router.workers()[i as int], route)
                } else {
                    route is Err && route->Err_0 == Rejection::OutOfRange(i)
                },
            };
        if let Some(i) = answer {
            assert(answers(&*router.policy(), router.workers(), Some(prompt), Some(i)));
            if let Some(r) = router.workers()[i as int].dp_rank {
                lemma_rank(r);
            }
        }
    }
}

/// A prompt is sent to the worker that the policy chooses for its text, as it is.
pub proof fn lemma_prompts_are_sent_to_the_chosen_worker<
    T: Tokenizer + ?Sized,
    P: LoadBalancingPolicy<C> + ?Sized,
    C: Clone,
>(
    router: &GrpcRouter<T, P, C>,
    request_id: String,
    model: String,
    prompt: Prompt,
    sampling: SamplingParams,
    delivery: Delivery,
    dispatch: Result<Dispatch<C>, Rejection>,
)
    requires
        call_ensures(
            GrpcRouter::<T, P, C>::dispatch,
            (router, request_id, model, prompt, sampling, delivery),
            dispatch,
        ),
    ensures
        dispatch matches Ok(d) ==> {
            &&& sends(
                d,
                request_id@,
                model@,
                prompt.text@,
                prompt.token_ids@,
                delivery is Streamed,
            )
            &&& d.delivery == delivery
            &&& d.request.sampling_params == Some(sampling)
            &&& goes_to_the_chosen_worker(router, prompt.text@, d)
        },
        dispatch matches Err(rejection) ==> is_turned_away(router, prompt.text@, rejection),
{
    lemma_sending(
        router,
        request_id@,
        model@,
        prompt.text@,
        prompt.token_ids@,
        delivery,
        dispatch,
    );
}

/// The name of a model, where there is one.
pub open spec fn names(model: Seq<char>, model_id: Option<&str>) -> bool {
    &&& model_id matches Some(name) ==> model == name@
    &&& model_id is None ==> model == "unknown"@
}

/// A chat is sent as its prompt, with the tokens that the tokenizer gives for that, to the worker
/// that the policy chooses for it, and asks for what its body says.
pub open spec fn chat_is_sent<
    T: Tokenizer + ?Sized,
    P: LoadBalancingPolicy<C> + ?Sized,
    C: Clone,
>(
    router: &GrpcRouter<T, P, C>,
    id: Seq<char>,
    body: ChatCompletionRequest,
    model_id: Option<&str>,
    d: Dispatch<C>,
) -> bool {
    let prompt = chat_prompt(body.messages@);
    &&& sends(d, id, d.model@, prompt, d.prompt.token_ids@, body.stream)
    &&& gives_tokens(&*router.tokenizer(), prompt, d.prompt.token_ids@)
    &&& names(d.model@, model_id)
    &&& goes_to_the_chosen_worker(router, prompt, d)
    &&& d.request.sampling_params is Some
    &&& asks_as_chat(d.request.sampling_params->0, body)
    &&& !body.stream ==> d.delivery == (Delivery::Collected { echo: false })
}

/// A chat is rejected because its prompt has no tokens, or because no worker can take it.
pub open spec fn chat_is_rejected<
    T: Tokenizer + ?Sized,
    P: LoadBalancingPolicy<C> + ?Sized,
    C: Clone,
>(
    router: &GrpcRouter<T, P, C>,
    body: ChatCompletionRequest,
    rejection: Rejection,
) -> bool {
    let prompt = chat_prompt(body.messages@);
    ||| is_turned_away(router, prompt, rejection)
    ||| {
        &&& rejection matches Rejection::Reply(reply)
        &&& reply.status == 500
        &&& exists|e: Seq<char>| #[trigger]
            gives_no_tokens(&*router.tokenizer(), prompt, e) && reply.error@
                == "Tokenization failed: "@ + e
    }
}

proof fn lemma_taking_chats<
    T: Tokenizer + ?Sized,
    P: LoadBalancingPolicy<C> + ?Sized,
    C: Clone,
>(
    router: &GrpcRouter<T, P, C>,
    id: Seq<char>,
    body: ChatCompletionRequest,
    model_id: Option<&str>,
    dispatch: Result<Dispatch<C>, Rejection>,
)
    requires
        router.may_take_chat(id, body, opt_str(model_id), dispatch),
    ensures
        dispatch matches Ok(d) ==> chat_is_sent(router, id, body, model_id, d),
        dispatch matches Err(rejection) ==> chat_is_rejected(router, body, rejection),
{
    let text = chat_prompt(body.messages@);
    let prompt = choose|prompt: Result<Prompt, Rejection>| #[trigger]
        router.may_resolve_text(text, prompt) && match prompt {
            Ok(p) => {
                &&& router.may_send(
                    id,
                    model_name(opt_str(model_id)),
                    p.text@,
                    p.token_ids@,
                    chat_delivery_of(body),
                    dispatch,
                )
                &&& dispatch matches Ok(d) ==> {
                    &&& d.request.sampling_params matches Some(params)
                    &&& is_chat_sampling(params, body)
                }
            },
            Err(rejection) => dispatch == Err::<Dispatch<C>, Rejection>(rejection),
        };
    lemma_resolving_text(router, text, prompt);
    if let Ok(p) = prompt {
        lemma_sending(
            router,
            id,
            model_name(opt_str(model_id)),
            p.text@,
            p.token_ids@,
            chat_delivery_of(body),
            dispatch,
        );
        if let Ok(d) = dispatch {
            lemma_stops(d.request.sampling_params->0.stop@, body.stop);
            if let Some(n) = body.max_completion_tokens {
                lemma_limit(n);
            }
            if let Some(n) = body.max_tokens {
                lemma_limit(n);
            }
        }
    }
}

/// A chat under a given id: it is sent as its prompt to the worker that the policy chooses for that
/// prompt, or rejected for a reason that the tokenizer, the policy or the clients give.
pub proof fn lemma_chats_are_taken<
    T: Tokenizer + ?Sized,
    P: LoadBalancingPolicy<C> + ?Sized,
    C: Clone,
>(
    router: &GrpcRouter<T, P, C>,
    request_id: String,
    body: &ChatCompletionRequest,
    model_id: Option<&str>,
    dispatch: Result<Dispatch<C>, Rejection>,
)
    requires
        call_ensures(
            GrpcRouter::<T, P, C>::take_chat,
            (router, request_id, body, model_id),
            dispatch,
        ),
    ensures
        dispatch matches Ok(d) ==> chat_is_sent(router, request_id@, *body, model_id, d),
        dispatch matches Err(rejection) ==> chat_is_rejected(router, *body, rejection),
{
    lemma_taking_chats(router, request_id@, *body, model_id, dispatch);
}

/// A chat request gets an id of its own, and is then taken under it.
pub proof fn lemma_chats_are_handled<
    T: Tokenizer + ?Sized,
    P: LoadBalancingPolicy<C> + ?Sized,
    C: Clone,
>(
    router: &GrpcRouter<T, P, C>,
    body: &ChatCompletionRequest,
    model_id: Option<&str>,
    dispatch: Result<Dispatch<C>, Rejection>,
)
    requires
        call_ensures(
            GrpcRouter::<T, P, C>::handle_chat_completion,
            (router, body, model_id),
            dispatch,
        ),
    ensures
        dispatch matches Ok(d) ==> {
            &&& is_prefixed_ulid(d.request_id@, "chatcmpl-"@)
            &&& chat_is_sent(router, d.request_id@, *body, model_id, d)
        },
        dispatch matches Err(rejection) ==> chat_is_rejected(router, *body, rejection),
{
    let id = choose|id: Seq<char>| #[trigger]
        is_request_id(id, "chatcmpl-"@) && router.may_take_chat(
            id,
            *body,
            opt_str(model_id),
            dispatch,
        );
    lemma_request_id_is_prefixed_ulid(id, "chatcmpl-"@);
    lemma_taking_chats(router, id, *body, model_id, dispatch);
}

/// A text completion is sent as the prompt that it stands for, to the worker that the policy
/// chooses for the text of that prompt, and asks for what its body says.
pub open spec fn completion_is_sent<
    T: Tokenizer + ?Sized,
    P: LoadBalancingPolicy<C> + ?Sized,
    C: Clone,
>(
    router: &GrpcRouter<T, P, C>,
    id: Seq<char>,
    body: CompletionRequest,
    model_id: Option<&str>,
    d: Dispatch<C>,
) -> bool {
    &&& sends(d, id, d.model@, d.prompt.text@, d.prompt.token_ids@, body.stream)
    &&& exists|prompt: Prompt|
        prompt.text@ == d.prompt.text@ && prompt.token_ids@ == d.prompt.token_ids@ && #[trigger]
            resolves(
            &*router.tokenizer(),
            body.prompt,
            Ok::<Prompt, Rejection>(prompt),
        )
    &&& names(d.model@, model_id)
    &&& goes_to_the_chosen_worker(router, d.prompt.text@, d)
    &&& d.request.sampling_params is Some
    &&& asks_as_completion(d.request.sampling_params->0, body)
    &&& !body.stream ==> d.delivery == (Delivery::Collected { echo: body.echo })
}

/// A text completion is rejected because its prompt cannot be resolved, or because no worker can
/// take the prompt that it stands for.
pub open spec fn completion_is_rejected<
    T: Tokenizer + ?Sized,
    P: LoadBalancingPolicy<C> + ?Sized,
    C: Clone,
>(
    router: &GrpcRouter<T, P, C>,
    body: CompletionRequest,
    rejection: Rejection,
) -> bool {
    ||| resolves(&*router.tokenizer(), body.prompt, Err::<Prompt, Rejection>(rejection))
    ||| exists|prompt: Prompt| #[trigger]
        resolves(&*router.tokenizer(), body.prompt, Ok::<Prompt, Rejection>(prompt))
            && is_turned_away(router, prompt.text@, rejection)
}

proof fn lemma_taking_completions<
    T: Tokenizer + ?Sized,
    P: LoadBalancingPolicy<C> + ?Sized,
    C: Clone,
>(
    router: &GrpcRouter<T, P, C>,
    id: Seq<char>,
    body: CompletionRequest,
    model_id: Option<&str>,
    dispatch: Result<Dispatch<C>, Rejection>,
)
    requires
        router.may_take_completion(id, body, opt_str(model_id), dispatch),
    ensures
        dispatch matches Ok(d) ==> completion_is_sent(router, id, body, model_id, d),
        dispatch matches Err(rejection) ==> completion_is_rejected(router, body, rejection),
{
    let prompt = choose|prompt: Result<Prompt, Rejection>| #[trigger]
        router.may_resolve(given(body.prompt), prompt) && match prompt {
            Ok(p) => {
                &&& router.may_send(
                    id,
                    model_name(opt_str(model_id)),
                    p.text@,
                    p.token_ids@,
                    completion_delivery_of(body),
                    dispatch,
                )
                &&& dispatch matches Ok(d) ==> {
                    &&& d.request.sampling_params matches Some(params)
                    &&& is_completion_sampling(params, body)
                }
            },
            Err(rejection) => dispatch == Err::<Dispatch<C>, Rejection>(rejection),
        };
    lemma_resolving(router, body.prompt, prompt);
    if let Ok(p) = prompt {
        lemma_sending(
            router,
            id,
            model_name(opt_str(model_id)),
            p.text@,
            p.token_ids@,
            completion_delivery_of(body),
            dispatch,
        );
        assert(resolves(&*router.tokenizer(), body.prompt, Ok::<Prompt, Rejection>(p)));
        if let Ok(d) = dispatch {
            lemma_stops(d.request.sampling_params->0.stop@, body.stop);
            if let Some(n) = body.max_tokens {
                lemma_limit(n);
            }
        }
    }
}

/// A text completion under a given id: it is sent as the prompt that it stands for, to the worker
/// that the policy chooses for the text of that, or rejected for a reason that the request, the
/// tokenizer, the policy or the clients give.
pub proof fn lemma_completions_are_taken<
    T: Tokenizer + ?Sized,
    P: LoadBalancingPolicy<C> + ?Sized,
    C: Clone,
>(
    router: &GrpcRouter<T, P, C>,
    request_id: String,
    body: &CompletionRequest,
    model_id: Option<&str>,
    dispatch: Result<Dispatch<C>, Rejection>,
)
    requires
        call_ensures(
            GrpcRouter::<T, P, C>::take_completion,
            (router, request_id, body, model_id),
            dispatch,
        ),
    ensures
        dispatch matches Ok(d) ==> completion_is_sent(router, request_id@, *body, model_id, d),
        dispatch matches Err(rejection) ==> completion_is_rejected(router, *body, rejection),
{
    lemma_taking_completions(router, request_id@, *body, model_id, dispatch);
}

/// A text completion request gets an id of its own, and is then taken under it.
pub proof fn lemma_completions_are_handled<
    T: Tokenizer + ?Sized,
    P: LoadBalancingPolicy<C> + ?Sized,
    C: Clone,
>(
    router: &GrpcRouter<T, P, C>,
    body: &CompletionRequest,
    model_id: Option<&str>,
    dispatch: Result<Dispatch<C>, Rejection>,
)
    requires
        call_ensures(
            GrpcRouter::<T, P, C>::handle_completion,
            (router, body, model_id),
            dispatch,
        ),
    ensures
        dispatch matches Ok(d) ==> {
            &&& is_prefixed_ulid(d.request_id@, "cmpl-"@)
            &&& completion_is_sent(router, d.request_id@, *body, model_id, d)
        },
        dispatch matches Err(rejection) ==> completion_is_rejected(router, *body, rejection),
{
    let id = choose|id: Seq<char>| #[trigger]
        is_request_id(id, "cmpl-"@) && router.may_take_completion(
            id,
            *body,
            opt_str(model_id),
            dispatch,
        );
    lemma_request_id_is_prefixed_ulid(id, "cmpl-"@);
    lemma_taking_completions(router, id, *body, model_id, dispatch);
}

/// The router writes a chat as the prompt of the chat, and never fails to.
pub proof fn lemma_router_applies_the_template<
    T: Tokenizer + ?Sized,
    P: LoadBalancingPolicy<C> + ?Sized,
    C,
>(
    router: &GrpcRouter<T, P, C>,
    messages: &[ChatMessage],
    prompt: Result<String, String>,
)
    requires
        call_ensures(GrpcRouter::<T, P, C>::apply_chat_template, (router, messages), prompt),
    ensures
        prompt is Ok,
        prompt->Ok_0@ == chat_prompt(messages@),
{
}

/// Every part of a reply bears the id and the model of the request, and the second in which the
/// worker took it.
pub proof fn lemma_reply_header<
    T: Tokenizer + ?Sized,
    P: LoadBalancingPolicy<C> + ?Sized,
    C: Clone,
>(request_id: String, model: String, header: ReplyHeader, now: u64)
    requires
        call_ensures(GrpcRouter::<T, P, C>::reply_header, (request_id, model), header),
        call_ensures(GrpcRouter::<T, P, C>::current_timestamp, (), now),
    ensures
        header.request_id@ == request_id@,
        header.model@ == model@,
        is_second_of_a_time(header.created),
        is_second_of_a_time(now),
{
    let taken = choose|time: SystemTime| header.created == #[trigger] timestamp(time);
    assert(is_second_of(header.created, taken));
    let present = choose|time: SystemTime| now == #[trigger] timestamp(time);
    assert(is_second_of(now, present));
}

/// Whether a time lies in this second after the epoch; times before the epoch count as its first.
pub open spec fn is_second_of(secs: u64, time: SystemTime) -> bool {
    if epoch_nanos(time) >= 0 {
        secs * 1_000_000_000 <= epoch_nanos(time) < (secs + 1) * 1_000_000_000
    } else {
        secs == 0
    }
}

/// Whether this is the second of some time.
pub open spec fn is_second_of_a_time(secs: u64) -> bool {
    exists|time: SystemTime| #[trigger] is_second_of(secs, time)
}

} // verus!
