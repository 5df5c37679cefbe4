//! Starting a router, and the small pieces it is built from.

use grpc_router::clock::timestamp_of;
use grpc_router::json::{chat_chunk_text, error_text, internal_error_text};
use grpc_router::policy::{CircuitBreakerSettings, HealthConfig, LoadBalancingPolicy, Worker};
use grpc_router::request_id::{chat_request_id, completion_request_id, new_chat_request_id};
use grpc_router::router::{GrpcRouter, RouterConfig};
use grpc_router::sse::{build_sse_response, done_text, event_text};
use grpc_router::startup::{
    backoff_millis, is_data_parallel, unique_base_urls, NextStep, Startup, WorkerAddress,
    MAX_WAIT_SECS,
};
use grpc_router::text::{decimal_string, join};
use grpc_router::tokenizer::Tokenizer;
use std::sync::Arc;
use std::time::{Duration, UNIX_EPOCH};

struct Mute;

impl Tokenizer for Mute {
    fn encode(&self, _text: &str) -> Result<Vec<u32>, String> {
        Ok(vec![])
    }

    fn decode(&self, _token_ids: &[u32], _skip_special_tokens: bool) -> Result<String, String> {
        Ok(String::new())
    }
}

struct First;

impl LoadBalancingPolicy<u32> for First {
    fn select_worker(&self, _workers: &[Worker<u32>], _request_text: Option<&str>) -> Option<usize> {
        Some(0)
    }
}

fn config() -> RouterConfig {
    RouterConfig {
        intra_node_data_parallel_size: 1,
        api_key: None,
        circuit_breaker: CircuitBreakerSettings {
            failure_threshold: 1,
            success_threshold: 1,
            timeout_duration_secs: 1,
            window_duration_secs: 1,
        },
        health_check: HealthConfig {
            timeout_secs: 1,
            check_interval_secs: 1,
            endpoint: String::new(),
            failure_threshold: 1,
            success_threshold: 1,
        },
        worker_startup_timeout_secs: 1,
        worker_startup_check_interval_secs: 1,
    }
}

fn addresses(urls: &[&str]) -> Vec<WorkerAddress> {
    urls.iter()
        .map(|url| WorkerAddress {
            url: url.to_string(),
            base_url: url.split('@').next().unwrap().to_string(),
            dp_rank: None,
        })
        .collect()
}

fn startup(urls: &[&str]) -> Startup<Mute, u32> {
    Startup::new(addresses(urls), Some(Arc::new(Mute))).unwrap()
}

fn connects_to(next: &NextStep, url: &str) -> bool {
    matches!(next, NextStep::Connect(u) if u == url)
}

#[test]
fn there_is_no_router_without_a_tokenizer() {
    let missing: Result<Startup<Mute, u32>, String> = Startup::new(addresses(&["a"]), None);
    assert_eq!(missing.err(), Some("gRPC router requires tokenizer".to_string()));
}

#[test]
fn each_base_url_is_tried_once_per_pass() {
    let mut start = startup(&["a@0", "a@1", "b@0", "a@2"]);
    let next = start.begin_pass(0);
    assert!(connects_to(&next, "a"));
    let next = start.report(Some(1));
    assert!(connects_to(&next, "b"));
    let next = start.report(None);
    assert!(matches!(next, NextStep::Ready));
    assert!(!start.is_unconnected());
    let urls = unique_base_urls(&addresses(&["a@0", "b@0", "a@1"]));
    assert_eq!(urls, vec!["a".to_string(), "b".to_string()]);
}

#[test]
fn failed_passes_are_repeated_after_growing_delays() {
    let mut start = startup(&["a"]);
    for delay in [200, 400, 800, 1600, 3200, 3200, 3200] {
        let next = start.begin_pass(MAX_WAIT_SECS - 1);
        assert!(connects_to(&next, "a"));
        let next = start.report(None);
        assert!(matches!(next, NextStep::Sleep(millis) if millis == delay));
    }
    assert!(start.is_unconnected());
    assert!(matches!(start.begin_pass(MAX_WAIT_SECS), NextStep::TimedOut));
}

#[test]
fn without_workers_the_router_waits_and_gives_up() {
    let mut start = startup(&[]);
    assert!(matches!(start.begin_pass(0), NextStep::Sleep(200)));
    assert!(matches!(start.begin_pass(1800), NextStep::TimedOut));
    let router: Result<GrpcRouter<Mute, First, u32>, String> =
        GrpcRouter::new(start, 1803, Arc::new(First), config());
    assert_eq!(
        router.err(),
        Some(
            "Failed to connect to any gRPC workers after 1803 seconds. \
             Ensure vLLM gRPC server is starting or already running."
                .to_string()
        )
    );
}

#[test]
fn backoff_is_capped() {
    let counts = [0, 1, 2, 3, 4, 5, 6, u32::MAX];
    let delays: Vec<u64> = counts.iter().map(|n| backoff_millis(*n)).collect();
    assert_eq!(delays, vec![100, 200, 400, 800, 1600, 3200, 3200, 3200]);
}

#[test]
fn ranks_are_used_from_two_workers_per_node_on() {
    assert!(!is_data_parallel(0));
    assert!(!is_data_parallel(1));
    assert!(is_data_parallel(2));
}

#[test]
fn events_are_framed() {
    assert_eq!(event_text("x"), "data: x\n\n");
    assert_eq!(done_text(), event_text("[DONE]"));
    assert_ne!(event_text(&error_text("[DONE]")), done_text());
}

#[test]
fn response_of_events_has_its_headers() {
    let head = build_sse_response();
    assert_eq!(head.status, 200);
    assert_eq!(
        head.headers,
        vec![
            ("content-type".to_string(), "text/event-stream".to_string()),
            ("Cache-Control".to_string(), "no-cache".to_string()),
            ("Connection".to_string(), "keep-alive".to_string()),
        ]
    );
}

#[test]
fn json_is_written_on_one_line_with_sorted_members() {
    assert_eq!(error_text("a\r\nb"), "{\"error\":\"a\\r\\nb\"}");
    assert_eq!(
        internal_error_text("x"),
        "{\"error\":{\"message\":\"x\",\"type\":\"internal_error\"}}"
    );
    assert_eq!(
        chat_chunk_text("i", u64::MAX, "m", None, None),
        "{\"choices\":[{\"delta\":{},\"finish_reason\":null,\"index\":0}],\
         \"created\":18446744073709551615,\"id\":\"i\",\"model\":\"m\",\
         \"object\":\"chat.completion.chunk\"}"
    );
    let text = chat_chunk_text("i", 7, "m", Some("\u{7}é\n"), Some("stop"));
    let parsed: serde_json::Value = serde_json::from_str(&text).unwrap();
    assert_eq!(parsed["choices"][0]["delta"]["content"], "\u{7}é\n");
    assert_eq!(parsed["choices"][0]["finish_reason"], "stop");
    assert_eq!(parsed["created"], 7);
}

#[test]
fn request_ids_have_prefixes_and_differ() {
    assert_eq!(chat_request_id("X"), "chatcmpl-X");
    assert_eq!(completion_request_id("X"), "cmpl-X");
    let id = new_chat_request_id();
    assert_eq!(id.len(), "chatcmpl-".len() + 26);
    assert_ne!(id, new_chat_request_id());
}

#[test]
fn timestamps_count_whole_seconds() {
    assert_eq!(timestamp_of(UNIX_EPOCH), 0);
    assert_eq!(timestamp_of(UNIX_EPOCH + Duration::from_millis(1_999)), 1);
    assert_eq!(timestamp_of(UNIX_EPOCH - Duration::from_secs(5)), 0);
}

#[test]
fn numbers_are_written_in_decimal() {
    assert_eq!(decimal_string(0), "0");
    assert_eq!(decimal_string(10), "10");
    assert_eq!(decimal_string(u64::MAX), "18446744073709551615");
}

#[test]
fn texts_are_joined() {
    let parts = vec!["a".to_string(), "".to_string(), "b".to_string()];
    assert_eq!(join(&parts, ", "), "a, , b");
    assert_eq!(join(&vec![], ", "), "");
}
