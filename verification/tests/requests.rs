//! Requests: from the prompt to the worker, and back to a response.

use grpc_router::chunk::ReplyHeader;
use grpc_router::collect::Collector;
use grpc_router::dispatch::{
    chat_delivery, completion_delivery, generation_failed, Delivery, Dispatch, Prompt,
};
use grpc_router::policy::{
    CircuitBreakerSettings, ConnectionMode, HealthConfig, LoadBalancingPolicy, Worker, WorkerType,
};
use grpc_router::protocol::{
    ChatCompletionRequest, ChatMessage, CompletionRequest, ContentPart, F32Bits, PromptInput,
    UserMessageContent, ONE_BITS,
};
use grpc_router::reply::ErrorReply;
use grpc_router::router::{GrpcRouter, Rejection, RouterConfig, SelectError};
use grpc_router::startup::{NextStep, Startup, WorkerAddress};
use grpc_router::tokenizer::Tokenizer;
use std::sync::Arc;
use std::time::{Duration, SystemTime, UNIX_EPOCH};

#[derive(Clone, Debug, PartialEq)]
struct Client(String);

/// Each token is a character; the special token 0 is written only if it is asked for.
struct Chars;

impl Tokenizer for Chars {
    fn encode(&self, text: &str) -> Result<Vec<u32>, String> {
        if text.contains("unspeakable") {
            Err("no words".to_string())
        } else {
            Ok(text.chars().map(|c| c as u32).collect())
        }
    }

    fn decode(&self, token_ids: &[u32], skip_special_tokens: bool) -> Result<String, String> {
        let mut text = String::new();
        for id in token_ids {
            match (*id, char::from_u32(*id)) {
                (0, _) => {
                    if !skip_special_tokens {
                        text.push_str("<s>");
                    }
                }
                (_, Some(c)) => text.push(c),
                (_, None) => return Err(format!("no token {}", id)),
            }
        }
        Ok(text)
    }
}

/// Always answers the same, or by the length of the text.
enum Policy {
    Fixed(Option<usize>),
    ByLength,
}

impl LoadBalancingPolicy<Client> for Policy {
    fn select_worker(&self, workers: &[Worker<Client>], request_text: Option<&str>) -> Option<usize> {
        match self {
            Policy::Fixed(answer) => *answer,
            Policy::ByLength => Some(request_text.map_or(0, |t| t.len()) % workers.len()),
        }
    }
}

type Router = GrpcRouter<Chars, Policy, Client>;

fn address(url: &str, base_url: &str, dp_rank: Option<usize>) -> WorkerAddress {
    WorkerAddress { url: url.to_string(), base_url: base_url.to_string(), dp_rank }
}

fn config(size: usize) -> RouterConfig {
    RouterConfig {
        intra_node_data_parallel_size: size,
        api_key: Some("SECRET-REDACTED".to_string()),
        circuit_breaker: CircuitBreakerSettings {
            failure_threshold: 5,
            success_threshold: 2,
            timeout_duration_secs: 30,
            window_duration_secs: 60,
        },
        health_check: HealthConfig {
            timeout_secs: 3,
            check_interval_secs: 4,
            endpoint: "/health".to_string(),
            failure_threshold: 6,
            success_threshold: 7,
        },
        worker_startup_timeout_secs: 600,
        worker_startup_check_interval_secs: 11,
    }
}

/// Starts a router whose workers answer, except those at `down`.
fn start(addresses: Vec<WorkerAddress>, down: &str, policy: Policy, size: usize) -> Router {
    let mut startup: Startup<Chars, Client> =
        Startup::new(addresses, Some(Arc::new(Chars))).unwrap();
    let mut next = startup.begin_pass(0);
    loop {
        match next {
            NextStep::Connect(url) => {
                let outcome = if url == down { None } else { Some(Client(url)) };
                next = startup.report(outcome);
            }
            NextStep::Ready => break,
            _ => panic!("no worker answers"),
        }
    }
    match GrpcRouter::new(startup, 0, Arc::new(policy), config(size)) {
        Ok(router) => router,
        Err(e) => panic!("{}", e),
    }
}

fn two_workers(policy: Policy) -> Router {
    start(vec![address("a", "a", None), address("b", "b", None)], "", policy, 1)
}

fn user(text: &str) -> ChatMessage {
    ChatMessage::User {
        role: "user".to_string(),
        content: UserMessageContent::Text(text.to_string()),
        name: None,
    }
}

fn chat(messages: Vec<ChatMessage>) -> ChatCompletionRequest {
    ChatCompletionRequest {
        messages,
        max_tokens: None,
        max_completion_tokens: None,
        temperature: None,
        top_p: None,
        stop: None,
        ignore_eos: false,
        stream: false,
    }
}

fn completion(prompt: PromptInput) -> CompletionRequest {
    CompletionRequest {
        prompt,
        max_tokens: None,
        temperature: None,
        top_p: None,
        top_k: None,
        stop: None,
        stream: false,
        echo: false,
    }
}

fn reply(result: Result<Dispatch<Client>, Rejection>) -> ErrorReply {
    match result {
        Err(Rejection::Reply(reply)) => reply,
        _ => panic!("the request is not rejected"),
    }
}

fn ids(text: &str) -> Vec<u32> {
    text.chars().map(|c| c as u32).collect()
}

fn header() -> ReplyHeader {
    ReplyHeader { request_id: "r-1".to_string(), model: "m".to_string(), created: 99 }
}

fn collected(text: &str, reason: Option<&str>, tokens: i32) -> Collector {
    Collector {
        token_ids: ids(text),
        finish_reason: reason.map(|r| r.to_string()),
        completion_tokens: tokens,
    }
}

fn is_ulid(text: &str) -> bool {
    text.len() == 26
        && text.chars().all(|c| "0123456789ABCDEFGHJKMNPQRSTVWXYZ".contains(c))
}

#[test]
fn chat_is_sent_to_the_chosen_worker() {
    let router = two_workers(Policy::Fixed(Some(1)));
    let sent = router.handle_chat_completion(&chat(vec![user("Hi")]), Some("llama")).unwrap_or_else(
        |_| panic!("the chat is rejected"),
    );
    assert_eq!(sent.client, Client("b".to_string()));
    assert_eq!(sent.base_url, "b");
    assert_eq!(sent.model, "llama");
    assert_eq!(sent.prompt.text, "User: Hi\nAssistant:");
    assert_eq!(sent.prompt.token_ids, ids("User: Hi\nAssistant:"));
    assert_eq!(sent.request.request_id, sent.request_id);
    assert!(is_ulid(sent.request_id.strip_prefix("chatcmpl-").unwrap()));
    let input = sent.request.tokenized.unwrap();
    assert_eq!(input.original_text, "User: Hi\nAssistant:");
    assert_eq!(input.input_ids, ids("User: Hi\nAssistant:"));
    assert!(!sent.request.stream);
    assert_eq!(sent.delivery, Delivery::Collected { echo: false });
    assert_eq!(sent.request.data_parallel_rank, None);
    let params = sent.request.sampling_params.unwrap();
    assert_eq!(f32::from_bits(params.temperature.bits), 1.0);
    assert_eq!(f32::from_bits(params.top_p.bits), 1.0);
    assert_eq!(params.top_k, 0);
    assert_eq!(params.max_tokens, None);
    assert!(params.stop.is_empty());
    assert!(!params.ignore_eos);
}

#[test]
fn chat_parameters_are_passed_on() {
    let router = two_workers(Policy::Fixed(Some(0)));
    let mut body = chat(vec![user("Hi")]);
    body.temperature = Some(F32Bits { bits: 0.5f32.to_bits() });
    body.top_p = Some(F32Bits { bits: 0.25f32.to_bits() });
    body.max_tokens = Some(10);
    body.stop = Some(vec!["x".to_string(), "yz".to_string()]);
    body.ignore_eos = true;
    body.stream = true;
    let sent = router.take_chat("id".to_string(), &body, None).ok().unwrap();
    assert_eq!(sent.model, "unknown");
    assert_eq!(sent.request_id, "id");
    assert!(sent.request.stream);
    assert_eq!(sent.delivery, Delivery::Streamed);
    let params = sent.request.sampling_params.unwrap();
    assert_eq!(f32::from_bits(params.temperature.bits), 0.5);
    assert_eq!(f32::from_bits(params.top_p.bits), 0.25);
    assert_eq!(params.max_tokens, Some(10));
    assert_eq!(params.stop, vec!["x".to_string(), "yz".to_string()]);
    assert!(params.ignore_eos);
}

#[test]
fn newer_limit_has_precedence_and_large_ones_wrap() {
    let router = two_workers(Policy::Fixed(Some(0)));
    let mut body = chat(vec![]);
    body.max_tokens = Some(10);
    body.max_completion_tokens = Some(20);
    let sent = router.take_chat("id".to_string(), &body, None).ok().unwrap();
    assert_eq!(sent.request.sampling_params.unwrap().max_tokens, Some(20));
    body.max_completion_tokens = Some(u32::MAX);
    let sent = router.take_chat("id".to_string(), &body, None).ok().unwrap();
    assert_eq!(sent.request.sampling_params.unwrap().max_tokens, Some(-1));
}

#[test]
fn one_is_one() {
    assert_eq!(f32::from_bits(ONE_BITS), 1.0);
}

#[test]
fn prompt_is_written_line_by_line() {
    let router = two_workers(Policy::Fixed(Some(0)));
    let messages = vec![
        ChatMessage::System {
            role: "system".to_string(),
            content: "Be kind".to_string(),
            name: None,
        },
        ChatMessage::User {
            role: "user".to_string(),
            content: UserMessageContent::Parts(vec![
                ContentPart::Text { text: "See".to_string() },
                ContentPart::ImageUrl { url: "http://x/y.png".to_string(), detail: None },
                ContentPart::Text { text: "this".to_string() },
            ]),
            name: None,
        },
        ChatMessage::Assistant {
            role: "assistant".to_string(),
            content: Some("Nice".to_string()),
            name: None,
            tool_calls: None,
            function_call: None,
            reasoning_content: None,
        },
        ChatMessage::Assistant {
            role: "assistant".to_string(),
            content: None,
            name: None,
            tool_calls: None,
            function_call: None,
            reasoning_content: None,
        },
        ChatMessage::Tool {
            role: "tool".to_string(),
            content: "42".to_string(),
            tool_call_id: "t".to_string(),
        },
        ChatMessage::Function {
            role: "function".to_string(),
            content: "43".to_string(),
            name: "f".to_string(),
        },
    ];
    assert_eq!(
        router.apply_chat_template(&messages),
        Ok("System: Be kind\nUser: See this\nAssistant: Nice\nAssistant:".to_string())
    );
    assert_eq!(router.apply_chat_template(&[]), Ok("Assistant:".to_string()));
}

#[test]
fn tokenizer_failures_are_told() {
    let router = two_workers(Policy::Fixed(Some(0)));
    assert_eq!(
        router.tokenize("unspeakable"),
        Err("Tokenization failed: no words".to_string())
    );
    assert_eq!(router.tokenize("ab"), Ok(vec![97, 98]));
    assert_eq!(
        router.detokenize(&[0xd800], true),
        Err("Detokenization failed: no token 55296".to_string())
    );
    assert_eq!(router.detokenize(&[0, 97], false), Ok("<s>a".to_string()));
    assert_eq!(router.detokenize(&[0, 97], true), Ok("a".to_string()));
    let rejected = reply(router.handle_chat_completion(&chat(vec![user("unspeakable")]), None));
    assert_eq!(rejected.status, 500);
    assert_eq!(rejected.error, "Tokenization failed: no words");
}

#[test]
fn workers_are_chosen_by_the_text() {
    let router = two_workers(Policy::ByLength);
    assert_eq!(router.select_worker(Some("x")).unwrap().url, "b");
    assert_eq!(router.select_worker(Some("xy")).unwrap().url, "a");
    assert_eq!(router.select_worker(None).unwrap().url, "a");
    assert_eq!(router.get_worker_urls(), vec!["a".to_string(), "b".to_string()]);
}

#[test]
fn no_healthy_worker_is_unavailable() {
    let router = two_workers(Policy::Fixed(None));
    match router.select_worker(None) {
        Err(e) => assert_eq!(e.message(), "No healthy worker available"),
        Ok(_) => panic!("a worker is chosen"),
    }
    let rejected = reply(router.handle_chat_completion(&chat(vec![]), None));
    assert_eq!(rejected.status, 503);
    assert_eq!(rejected.body(), "{\"error\":\"No workers available\"}");
}

#[test]
fn no_worker_at_all_is_unavailable() {
    let router = two_workers(Policy::Fixed(Some(0)));
    assert_eq!(SelectError::NoWorkers.message(), "No workers available");
    match router.route_for(Err(SelectError::NoWorkers)) {
        Err(Rejection::Reply(rejected)) => {
            assert_eq!(rejected.status, 503);
            assert_eq!(rejected.error, "No workers available");
        }
        _ => panic!("there is a route"),
    }
}

#[test]
fn positions_beyond_the_workers_are_passed_on() {
    let router = two_workers(Policy::Fixed(Some(2)));
    assert!(matches!(router.select_worker(None), Err(SelectError::OutOfRange(2))));
    assert!(matches!(
        router.handle_chat_completion(&chat(vec![]), None),
        Err(Rejection::OutOfRange(2))
    ));
}

#[test]
fn ranks_share_the_client_of_their_base_url() {
    let router = start(
        vec![address("n@0", "n", Some(0)), address("n@1", "n", Some(1))],
        "",
        Policy::Fixed(Some(1)),
        2,
    );
    let sent = router.handle_chat_completion(&chat(vec![]), None).ok().unwrap();
    assert_eq!(sent.client, Client("n".to_string()));
    assert_eq!(sent.base_url, "n");
    assert_eq!(sent.request.data_parallel_rank, Some(1));
}

#[test]
fn workers_without_a_client_are_unreachable() {
    let router = start(vec![address("n@0", "n", Some(0))], "", Policy::Fixed(Some(0)), 1);
    let rejected = reply(router.handle_chat_completion(&chat(vec![]), None));
    assert_eq!(rejected.status, 500);
    assert_eq!(rejected.error, "gRPC connection failed");
    assert_eq!(
        router.get_grpc_client("n@0"),
        Err("No gRPC client configured for n@0".to_string())
    );
    assert_eq!(router.get_grpc_client("n"), Ok(Client("n".to_string())));
    router.return_grpc_client("n".to_string(), Client("n".to_string()));
    assert_eq!(router.get_grpc_client("n"), Ok(Client("n".to_string())));
}

#[test]
fn workers_that_did_not_answer_are_left_out() {
    let router = start(
        vec![address("a", "a", None), address("b", "b", None), address("c", "c", None)],
        "b",
        Policy::Fixed(Some(1)),
        1,
    );
    assert_eq!(router.get_worker_urls(), vec!["a".to_string(), "c".to_string()]);
    let worker = router.select_worker(None).unwrap();
    assert_eq!(worker.url, "c");
    assert_eq!(worker.base_url, "c");
    assert_eq!(worker.client, Client("c".to_string()));
    assert_eq!(worker.worker_type, WorkerType::Regular);
    assert_eq!(worker.connection_mode, ConnectionMode::Grpc { port: None });
    assert_eq!(router.worker_list().len(), 2);
    assert_eq!(router.worker_list()[0].url, "a");
    assert_eq!(worker.circuit_breaker.failure_threshold, 5);
    assert_eq!(worker.circuit_breaker.success_threshold, 2);
    assert_eq!(worker.circuit_breaker.timeout_duration, Duration::from_secs(30));
    assert_eq!(worker.circuit_breaker.window_duration, Duration::from_secs(60));
    assert_eq!(worker.health.timeout_secs, 3);
    assert_eq!(worker.health.check_interval_secs, 4);
    assert_eq!(worker.health.endpoint, "/health");
    assert_eq!(worker.health.failure_threshold, 6);
    assert_eq!(worker.health.success_threshold, 7);
}

#[test]
fn text_prompts_are_tokenized() {
    let router = two_workers(Policy::Fixed(Some(0)));
    let body = completion(PromptInput::String("abc".to_string()));
    let sent = router.handle_completion(&body, None).ok().unwrap();
    assert!(is_ulid(sent.request_id.strip_prefix("cmpl-").unwrap()));
    assert_eq!(sent.model, "unknown");
    assert_eq!(sent.prompt.text, "abc");
    assert_eq!(sent.request.tokenized.unwrap().input_ids, ids("abc"));
    let params = sent.request.sampling_params.unwrap();
    assert_eq!(f32::from_bits(params.temperature.bits), 1.0);
    assert_eq!(f32::from_bits(params.top_p.bits), 1.0);
    assert_eq!(params.top_k, -1);
    assert_eq!(params.max_tokens, None);
    assert!(!params.ignore_eos);

    let lines = vec!["a".to_string(), "b".to_string(), "".to_string()];
    let sent = router.handle_completion(&completion(PromptInput::StringArray(lines)), None);
    assert_eq!(sent.ok().unwrap().prompt.text, "a\nb\n");
    let sent = router.handle_completion(&completion(PromptInput::StringArray(vec![])), None);
    assert_eq!(sent.ok().unwrap().prompt.text, "");
}

#[test]
fn completion_parameters_are_passed_on() {
    let router = two_workers(Policy::Fixed(Some(0)));
    let mut body = completion(PromptInput::String("abc".to_string()));
    body.temperature = Some(F32Bits { bits: 0 });
    body.top_p = Some(F32Bits { bits: 0.75f32.to_bits() });
    body.top_k = Some(4);
    body.max_tokens = Some(6);
    body.stop = Some(vec!["\n".to_string()]);
    body.stream = true;
    let sent = router.take_completion("id".to_string(), &body, Some("m")).ok().unwrap();
    assert!(sent.request.stream);
    assert_eq!(sent.delivery, Delivery::Streamed);
    assert_eq!(sent.model, "m");
    let params = sent.request.sampling_params.unwrap();
    assert_eq!(f32::from_bits(params.temperature.bits), 0.0);
    assert_eq!(f32::from_bits(params.top_p.bits), 0.75);
    assert_eq!(params.top_k, 4);
    assert_eq!(params.max_tokens, Some(6));
    assert_eq!(params.stop, vec!["\n".to_string()]);
}

#[test]
fn token_prompts_are_sent_unchanged() {
    let router = two_workers(Policy::Fixed(Some(0)));
    let sent = router.handle_completion(&completion(PromptInput::IntArray(vec![0, 97])), None);
    let sent = sent.ok().unwrap();
    assert_eq!(sent.prompt.text, "<s>a");
    assert_eq!(sent.prompt.token_ids, vec![0, 97]);
    assert_eq!(sent.request.tokenized.unwrap().input_ids, vec![0, 97]);
    let batch = PromptInput::IntBatch(vec![vec![98], vec![99]]);
    let sent = router.handle_completion(&completion(batch), None).ok().unwrap();
    assert_eq!(sent.prompt.text, "b");
    assert_eq!(sent.request.tokenized.unwrap().input_ids, vec![98]);
}

#[test]
fn bad_prompts_are_rejected() {
    let router = two_workers(Policy::Fixed(Some(0)));
    let empty = reply(router.handle_completion(&completion(PromptInput::IntBatch(vec![])), None));
    assert_eq!((empty.status, empty.error.as_str()), (400, "Empty prompt array"));
    let bad = reply(router.handle_completion(&completion(PromptInput::IntArray(vec![-1])), None));
    assert_eq!(bad.status, 400);
    assert_eq!(bad.error, "Invalid token IDs: Detokenization failed: no token 4294967295");
    let text = PromptInput::String("unspeakable".to_string());
    let bad = reply(router.handle_completion(&completion(text), None));
    assert_eq!((bad.status, bad.error.as_str()), (500, "Tokenization failed: no words"));
}

#[test]
fn chat_response_is_complete() {
    let router = two_workers(Policy::Fixed(Some(0)));
    let collector = Collector {
        token_ids: vec![72, 0, 105],
        finish_reason: Some("stop".to_string()),
        completion_tokens: 3,
    };
    let response = router.handle_chat_non_streaming(header(), 5, collector).ok().unwrap();
    assert_eq!(response.id, "r-1");
    assert_eq!(response.object, "chat.completion");
    assert_eq!(response.created, 99);
    assert_eq!(response.model, "m");
    assert_eq!(response.choices.len(), 1);
    assert_eq!(response.choices[0].finish_reason.as_deref(), Some("stop"));
    match &response.choices[0].message {
        ChatMessage::Assistant { role, content, .. } => {
            assert_eq!(role, "assistant");
            assert_eq!(content.as_deref(), Some("Hi"));
        }
        _ => panic!("the message is not the assistant's"),
    }
    let usage = response.usage.unwrap();
    assert_eq!((usage.prompt_tokens, usage.completion_tokens, usage.total_tokens), (5, 3, 8));
}

#[test]
fn undecodable_replies_are_told() {
    let router = two_workers(Policy::Fixed(Some(0)));
    let message = "Detokenization failed: Detokenization failed: no token 55296";
    let broken = || Collector {
        token_ids: vec![0xd800],
        finish_reason: None,
        completion_tokens: 1,
    };
    let failed = router.handle_chat_non_streaming(header(), 5, broken()).err().unwrap();
    assert_eq!((failed.status, failed.error.as_str()), (500, message));
    let prompt = Prompt { text: "a".to_string(), token_ids: vec![97] };
    let failed = router.handle_completion_non_streaming(header(), &prompt, true, broken());
    let failed = failed.err().unwrap();
    assert_eq!((failed.status, failed.error.as_str()), (500, message));
}

#[test]
fn completion_response_echoes_on_request() {
    let router = two_workers(Policy::Fixed(Some(0)));
    let prompt = Prompt { text: "ab".to_string(), token_ids: ids("ab") };
    let response = router
        .handle_completion_non_streaming(header(), &prompt, true, collected("cd", Some("stop"), 2))
        .ok()
        .unwrap();
    assert_eq!(response.object, "text_completion");
    assert_eq!(response.choices[0].text, "abcd");
    let usage = response.usage.unwrap();
    assert_eq!((usage.prompt_tokens, usage.completion_tokens, usage.total_tokens), (2, 2, 4));
    let response = router
        .handle_completion_non_streaming(header(), &prompt, false, collected("cd", None, 2))
        .ok()
        .unwrap();
    assert_eq!(response.id, "r-1");
    assert_eq!(response.created, 99);
    assert_eq!(response.model, "m");
    assert_eq!(response.choices[0].text, "cd");
    assert!(response.choices[0].finish_reason.is_none());
}

#[test]
fn refused_generations_are_told() {
    let failed = generation_failed("unavailable");
    assert_eq!(failed.status, 500);
    assert_eq!(failed.body(), "{\"error\":\"Generation failed: unavailable\"}");
}

#[test]
fn headers_carry_the_present_time() {
    let now = || SystemTime::now().duration_since(UNIX_EPOCH).unwrap().as_secs();
    let before = now();
    let made = Router::reply_header("r".to_string(), "m".to_string());
    let after = now();
    assert!(before <= made.created && made.created <= after);
    assert!(before <= Router::current_timestamp());
    assert_eq!((made.request_id.as_str(), made.model.as_str()), ("r", "m"));
}

#[test]
fn other_endpoints_are_not_served() {
    let router = two_workers(Policy::Fixed(Some(0)));
    let statuses = vec![
        router.health(),
        router.health_generate(),
        router.get_server_info(),
        router.get_models(),
        router.get_model_info(),
        router.route_generate(),
        router.route_responses(),
        router.get_response(),
        router.cancel_response(),
        router.route_embeddings(),
        router.route_rerank(),
        router.flush_cache(),
        router.get_worker_loads(),
    ];
    assert!(statuses.iter().all(|s| *s == 501));
    assert_eq!(router.readiness(), 503);
    assert_eq!(router.router_type(), "grpc");
    assert_eq!(router.add_worker("c"), Err("Not implemented".to_string()));
    router.remove_worker("a");
    assert_eq!(router.get_worker_urls(), vec!["a".to_string(), "b".to_string()]);
}

#[test]
fn flags_decide_how_a_request_is_answered() {
    let mut body = chat(vec![]);
    assert_eq!(chat_delivery(&body), Delivery::Collected { echo: false });
    body.stream = true;
    assert_eq!(chat_delivery(&body), Delivery::Streamed);

    let mut body = completion(PromptInput::String("a".to_string()));
    assert_eq!(completion_delivery(&body), Delivery::Collected { echo: false });
    body.echo = true;
    assert_eq!(completion_delivery(&body), Delivery::Collected { echo: true });
    let router = two_workers(Policy::Fixed(Some(0)));
    let sent = router.handle_completion(&body, None).ok().unwrap();
    assert_eq!(sent.delivery, Delivery::Collected { echo: true });
    assert!(!sent.request.stream);
    body.stream = true;
    assert_eq!(completion_delivery(&body), Delivery::Streamed);
}

#[test]
fn debug_text_shows_four_numbers_and_no_key() {
    let text = two_workers(Policy::Fixed(Some(0))).debug_text();
    assert_eq!(
        text,
        "GrpcRouter { workers_count: 2, timeout_secs: 600, interval_secs: 11, \
         intra_node_data_parallel_size: 1 }"
    );
    let others = vec![address("x", "x", None), address("y", "y", Some(3))];
    assert_eq!(start(others, "", Policy::ByLength, 1).debug_text(), text);
}

#[test]
fn summary_shows_the_configuration() {
    let summary = two_workers(Policy::Fixed(Some(0))).summary();
    assert_eq!(summary.workers_count, 2);
    assert_eq!(summary.timeout_secs, 600);
    assert_eq!(summary.interval_secs, 11);
    assert_eq!(summary.intra_node_data_parallel_size, 1);
}
