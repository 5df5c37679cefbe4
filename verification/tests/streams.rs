//! Reply streams: guards, processors, relays and collectors.

use grpc_router::auto_cleanup_stream::AutoCleanupStream;
use grpc_router::chunk::ReplyHeader;
use grpc_router::collect::{usage_of, Collecting, Collector};
use grpc_router::protocol::ChatCompletionStreamResponse;
use grpc_router::scheduler::{GenerateComplete, StreamEvent};
use grpc_router::stream_guard::StreamGuard;
use grpc_router::stream_processor::{
    chunk_undelivered, process_chat_stream, process_completion_stream, relay_chat_event, Relay,
};
use grpc_router::stream_processor_v2::{
    client_disconnected, consume_chat_stream, consume_completion_stream, end_chat_stream,
    end_completion_stream, Consumed, Progress, StreamProcessor,
};
use grpc_router::tokenizer::Tokenizer;
use std::sync::Arc;

#[derive(Clone, Debug, PartialEq)]
struct Client(u32);

/// Each token is a character; the special token 0 is written only if it is asked for.
struct Chars;

impl Tokenizer for Chars {
    fn encode(&self, text: &str) -> Result<Vec<u32>, String> {
        Ok(text.chars().map(|c| c as u32).collect())
    }

    fn decode(&self, token_ids: &[u32], skip_special_tokens: bool) -> Result<String, String> {
        let mut text = String::new();
        for id in token_ids {
            match (*id, char::from_u32(*id)) {
                (0, _) => {
                    if !skip_special_tokens {
                        text.push_str("<s>");
                    }
                }
                (_, Some(c)) => text.push(c),
                (_, None) => return Err(format!("no token {}", id)),
            }
        }
        Ok(text)
    }
}

fn header() -> ReplyHeader {
    ReplyHeader { request_id: "r-1".to_string(), model: "m".to_string(), created: 1234567890 }
}

fn chunk(text: &str) -> StreamEvent {
    StreamEvent::Chunk { token_ids: text.chars().map(|c| c as u32).collect() }
}

fn complete(reason: &str) -> StreamEvent {
    StreamEvent::Complete(GenerateComplete {
        output_ids: vec![],
        finish_reason: reason.to_string(),
        completion_tokens: 2,
    })
}

fn failed() -> StreamEvent {
    StreamEvent::Failed { status: "gone".to_string() }
}

fn error(message: &str) -> StreamEvent {
    StreamEvent::Error { message: message.to_string() }
}

fn stream() -> AutoCleanupStream<u8, Client> {
    AutoCleanupStream::new(3, "r-1".to_string(), Client(9))
}

fn guard() -> StreamGuard<u8, Client> {
    StreamGuard::new(3, "r-1".to_string(), Client(9))
}

#[test]
fn test_stream_guard_completion_flag() {
    let mut completed = guard();
    assert!(!completed.is_completed());

    completed.mark_completed();
    assert!(completed.is_completed());
}

#[test]
fn dropped_guard_aborts_once() {
    let mut guard = guard();
    assert_eq!(guard.request_id(), "r-1");
    let abort = guard.abort_on_drop().unwrap();
    assert_eq!(abort.client, Client(9));
    assert_eq!(abort.request_id, "r-1");
    assert_eq!(abort.reason, "Stream dropped before completion");
    assert!(!guard.is_completed());
    assert!(guard.abort_on_drop().is_none());
}

#[test]
fn completed_guard_does_not_abort() {
    let mut guard = guard();
    guard.mark_completed();
    assert!(guard.abort_on_drop().is_none());
}

#[test]
fn guard_hands_out_its_stream() {
    let mut guard = guard();
    assert_eq!(*guard.stream_mut(), 3);
    *guard.stream_mut() = 4;
    assert_eq!(*guard.stream_mut(), 4);
    assert!(guard.abort_on_drop().is_some());
}

#[test]
fn dropped_stream_aborts_once() {
    let mut stream = stream();
    assert_eq!(stream.request_id(), "r-1");
    assert!(!stream.is_completed());
    let abort = stream.abort_on_drop().unwrap();
    assert_eq!(abort.client, Client(9));
    assert_eq!(abort.request_id, "r-1");
    assert_eq!(abort.reason, "Stream dropped");
    assert!(stream.is_completed());
    assert!(stream.abort_on_drop().is_none());
}

#[test]
fn completed_stream_does_not_abort() {
    let mut stream = stream();
    *stream.stream_mut() = 5;
    assert_eq!(*stream.stream_mut(), 5);
    stream.mark_completed();
    stream.mark_completed();
    assert!(stream.is_completed());
    assert!(stream.abort_on_drop().is_none());
}

fn content(chunk: &ChatCompletionStreamResponse) -> Option<&str> {
    chunk.choices[0].delta.content.as_deref()
}

#[test]
fn chat_chunk_is_sent() {
    let processor = StreamProcessor::new(Arc::new(Chars));
    let mut stream = stream();
    match processor.process_chat_completion(&mut stream, &header(), chunk("hi")) {
        Progress::Send(sent) => {
            assert_eq!(sent.id, "r-1");
            assert_eq!(sent.object, "chat.completion.chunk");
            assert_eq!(sent.created, 1234567890);
            assert_eq!(sent.model, "m");
            assert_eq!(sent.choices.len(), 1);
            assert_eq!(sent.choices[0].index, 0);
            assert_eq!(sent.choices[0].delta.role.as_deref(), Some("assistant"));
            assert_eq!(content(&sent), Some("hi"));
            assert!(sent.choices[0].finish_reason.is_none());
            assert!(sent.usage.is_none());
        }
        _ => panic!("the chunk is not sent"),
    }
    assert!(!stream.is_completed());
}

#[test]
fn empty_chunks_and_messages_are_skipped() {
    let processor = StreamProcessor::new(Arc::new(Chars));
    let mut stream = stream();
    let special = StreamEvent::Chunk { token_ids: vec![0] };
    assert!(matches!(
        processor.process_chat_completion(&mut stream, &header(), special),
        Progress::Continue
    ));
    assert!(matches!(
        processor.process_completion(&mut stream, &header(), chunk("")),
        Progress::Continue
    ));
    assert!(matches!(
        processor.process_completion(&mut stream, &header(), StreamEvent::Empty),
        Progress::Continue
    ));
    assert!(!stream.is_completed());
}

#[test]
fn decoding_errors_are_noted_in_the_text() {
    let processor = StreamProcessor::new(Arc::new(Chars));
    let mut stream = stream();
    let bad = StreamEvent::Chunk { token_ids: vec![0xd800] };
    match processor.process_chat_completion(&mut stream, &header(), bad) {
        Progress::Send(sent) => {
            assert_eq!(content(&sent), Some("[Decode error: no token 55296]"));
        }
        _ => panic!("the note is not sent"),
    }
    let noted = relay_chat_event(&mut guard(), &header(), chunk("x"), Err("odd".to_string()));
    match noted {
        Relay::Chunk(sent) => assert!(sent.contains("\"content\":\"[ERROR: odd]\"")),
        _ => panic!("the note is not sent"),
    }
}

#[test]
fn complete_chat_ends_with_its_reason() {
    let processor = StreamProcessor::new(Arc::new(Chars));
    let mut stream = stream();
    match processor.process_chat_completion(&mut stream, &header(), complete("stop")) {
        Progress::Finish { last: Some(last), trailer } => {
            assert_eq!(last.choices[0].finish_reason.as_deref(), Some("stop"));
            assert!(last.choices[0].delta.role.is_none());
            assert!(last.choices[0].delta.content.is_none());
            assert_eq!(trailer, vec!["data: [DONE]\n\n".to_string()]);
        }
        _ => panic!("the stream does not end"),
    }
    assert!(stream.is_completed());
    assert!(stream.abort_on_drop().is_none());
}

#[test]
fn completion_events_are_exact() {
    let processor = StreamProcessor::new(Arc::new(Chars));
    let mut stream = stream();
    match processor.process_completion(&mut stream, &header(), chunk("a\n\"b\"")) {
        Progress::Send(sent) => assert_eq!(
            sent,
            "data: {\"choices\":[{\"finish_reason\":null,\"index\":0,\"logprobs\":null,\
             \"text\":\"a\\n\\\"b\\\"\"}],\"created\":1234567890,\"id\":\"r-1\",\"model\":\"m\",\
             \"object\":\"text_completion\"}\n\n"
        ),
        _ => panic!("the chunk is not sent"),
    }
    match processor.process_completion(&mut stream, &header(), complete("length")) {
        Progress::Finish { last: Some(last), trailer } => {
            assert_eq!(
                last,
                "data: {\"choices\":[{\"finish_reason\":\"length\",\"index\":0,\"logprobs\":null,\
                 \"text\":\"\"}],\"created\":1234567890,\"id\":\"r-1\",\"model\":\"m\",\
                 \"object\":\"text_completion\"}\n\n"
            );
            assert_eq!(trailer, vec!["data: [DONE]\n\n".to_string()]);
        }
        _ => panic!("the stream does not end"),
    }
    assert!(stream.is_completed());
}

#[test]
fn errors_end_a_stream_and_leave_it_to_be_aborted() {
    let processor = StreamProcessor::new(Arc::new(Chars));
    let mut chat = stream();
    match processor.process_chat_completion(&mut chat, &header(), error("out of memory")) {
        Progress::Finish { last, trailer } => {
            assert!(last.is_none());
            assert_eq!(
                trailer,
                vec![
                    "data: {\"error\":{\"message\":\"out of memory\",\"type\":\
                     \"internal_error\"}}\n\n"
                        .to_string(),
                    "data: [DONE]\n\n".to_string(),
                ]
            );
        }
        _ => panic!("the stream does not end"),
    }
    assert!(chat.abort_on_drop().is_some());

    let mut completion = stream();
    match processor.process_completion(&mut completion, &header(), failed()) {
        Progress::Finish { last, trailer } => {
            assert!(last.is_none());
            assert_eq!(
                trailer,
                vec![
                    "data: {\"error\":\"Stream error: gone\"}\n\n".to_string(),
                    "data: [DONE]\n\n".to_string(),
                ]
            );
        }
        _ => panic!("the stream does not end"),
    }
    assert!(completion.abort_on_drop().is_some());
}

#[test]
fn streams_that_run_out_end_well() {
    let mut chat = stream();
    match consume_chat_stream(&mut chat, &header(), StreamEvent::End, Ok(String::new())) {
        Consumed::Finish { last, result } => {
            assert!(last.is_none());
            assert_eq!(end_chat_stream(result), vec!["data: [DONE]\n\n".to_string()]);
        }
        _ => panic!("the stream does not end"),
    }
    assert!(chat.is_completed());
    let mut text = stream();
    match consume_completion_stream(&mut text, &header(), StreamEvent::End, Ok(String::new())) {
        Consumed::Finish { last, result } => {
            assert!(last.is_none());
            assert_eq!(end_completion_stream(result), vec!["data: [DONE]\n\n".to_string()]);
        }
        _ => panic!("the stream does not end"),
    }
    assert!(text.is_completed());
}

#[test]
fn disconnected_clients_leave_a_stream_to_be_aborted() {
    let processor = StreamProcessor::new(Arc::new(Chars)).clone();
    let mut chat = stream();
    let sent = processor.process_chat_completion(&mut chat, &header(), chunk("hi"));
    assert!(matches!(sent, Progress::Send(_)));
    assert_eq!(client_disconnected(&mut chat), vec!["data: [DONE]\n\n".to_string()]);
    assert!(!chat.is_completed());
    assert_eq!(chat.abort_on_drop().unwrap().reason, "Stream dropped");

    let mut text = stream();
    let sent = processor.process_completion(&mut text, &header(), chunk("hi"));
    assert!(matches!(sent, Progress::Send(_)));
    assert_eq!(client_disconnected(&mut text), vec!["data: [DONE]\n\n".to_string()]);
    assert!(text.abort_on_drop().is_some());
}

/// Reads a chat to its end, as the owner of a stream does.
fn read_chat(events: Vec<StreamEvent>) -> (Vec<String>, bool) {
    let processor = StreamProcessor::new(Arc::new(Chars));
    let mut stream = stream();
    let mut items = Vec::new();
    for event in events {
        match processor.process_chat_completion(&mut stream, &header(), event) {
            Progress::Continue => {}
            Progress::Send(sent) => items.push(content(&sent).unwrap().to_string()),
            Progress::Finish { last, trailer } => {
                if let Some(last) = last {
                    items.push(last.choices[0].finish_reason.clone().unwrap());
                }
                items.extend(trailer);
                break;
            }
        }
    }
    (items, stream.abort_on_drop().is_some())
}

#[test]
fn whole_chat_is_sent_in_order_and_done_comes_last() {
    let (items, aborted) = read_chat(vec![
        chunk("Hel"),
        chunk(""),
        StreamEvent::Empty,
        chunk("lo"),
        complete("stop"),
        chunk("too late"),
    ]);
    assert_eq!(items, vec!["Hel", "lo", "stop", "data: [DONE]\n\n"]);
    assert!(!aborted);
}

#[test]
fn failed_chat_tells_the_error_right_before_done() {
    let (items, aborted) = read_chat(vec![chunk("Hel"), failed(), chunk("lo")]);
    assert_eq!(
        items,
        vec![
            "Hel",
            "data: {\"error\":{\"message\":\"Stream error: gone\",\"type\":\"internal_error\"}}\n\n",
            "data: [DONE]\n\n",
        ]
    );
    assert!(aborted);
}

#[test]
fn chat_that_is_given_up_is_aborted() {
    let (items, aborted) = read_chat(vec![chunk("Hel")]);
    assert_eq!(items, vec!["Hel"]);
    assert!(aborted);
}

/// Relays a stream to its end, as the owner of a guard does.
fn relay(chat: bool, events: Vec<StreamEvent>) -> (Vec<String>, bool) {
    let mut guard = guard();
    let mut items = Vec::new();
    for event in events {
        let answer = if chat {
            process_chat_stream(&mut guard, &header(), &Chars, event)
        } else {
            process_completion_stream(&mut guard, &header(), &Chars, event)
        };
        match answer {
            Relay::Nothing => {}
            Relay::Chunk(sent) => items.push(sent),
            Relay::Notice(sent) => items.push(sent),
            Relay::Done(sent) => {
                items.push(sent);
                break;
            }
        }
    }
    (items, guard.abort_on_drop().is_some())
}

#[test]
fn relayed_chat_goes_on_after_errors_and_completion() {
    let (items, aborted) = relay(
        true,
        vec![
            chunk("hi"),
            error("busy"),
            failed(),
            complete("stop"),
            StreamEvent::Empty,
            chunk(""),
            StreamEvent::End,
        ],
    );
    assert_eq!(
        items,
        vec![
            "data: {\"choices\":[{\"delta\":{\"content\":\"hi\"},\"finish_reason\":null,\
             \"index\":0}],\"created\":1234567890,\"id\":\"r-1\",\"model\":\"m\",\
             \"object\":\"chat.completion.chunk\"}\n\n",
            "data: {\"error\":\"busy\"}\n\n",
            "data: {\"error\":\"Stream error: gone\"}\n\n",
            "data: {\"choices\":[{\"delta\":{},\"finish_reason\":\"stop\",\"index\":0}],\
             \"created\":1234567890,\"id\":\"r-1\",\"model\":\"m\",\
             \"object\":\"chat.completion.chunk\"}\n\n",
            "data: {\"choices\":[{\"delta\":{\"content\":\"\"},\"finish_reason\":null,\
             \"index\":0}],\"created\":1234567890,\"id\":\"r-1\",\"model\":\"m\",\
             \"object\":\"chat.completion.chunk\"}\n\n",
            "data: [DONE]\n\n",
        ]
    );
    assert!(!aborted);
}

#[test]
fn relayed_completion_without_completion_is_aborted() {
    let (items, aborted) =
        relay(false, vec![chunk("hi"), error("busy"), failed(), StreamEvent::End]);
    assert_eq!(
        items,
        vec![
            "data: {\"choices\":[{\"finish_reason\":null,\"index\":0,\"logprobs\":null,\
             \"text\":\"hi\"}],\"created\":1234567890,\"id\":\"r-1\",\"model\":\"m\",\
             \"object\":\"text_completion\"}\n\n",
            "data: {\"error\":\"busy\"}\n\n",
            "data: {\"error\":\"Stream error: gone\"}\n\n",
            "data: [DONE]\n\n",
        ]
    );
    assert!(aborted);
}

#[test]
fn undelivered_chunks_end_a_relay() {
    let mut unfinished = guard();
    let chunk_sent = process_chat_stream(&mut unfinished, &header(), &Chars, chunk("hi"));
    assert!(matches!(chunk_sent, Relay::Chunk(_)));
    match chunk_undelivered(&mut unfinished) {
        Relay::Done(sent) => assert_eq!(sent, "data: [DONE]\n\n"),
        _ => panic!("the relay goes on"),
    }
    assert!(!unfinished.is_completed());
    assert!(unfinished.abort_on_drop().is_some());

    let mut finished = guard();
    process_completion_stream(&mut finished, &header(), &Chars, complete("stop"));
    assert!(matches!(chunk_undelivered(&mut finished), Relay::Done(_)));
    assert!(finished.is_completed());
    assert!(finished.abort_on_drop().is_none());
}

#[test]
fn relayed_completion_tells_its_reason() {
    let (items, aborted) = relay(false, vec![complete("length")]);
    assert_eq!(
        items,
        vec![
            "data: {\"choices\":[{\"finish_reason\":\"length\",\"index\":0,\"logprobs\":null,\
             \"text\":\"\"}],\"created\":1234567890,\"id\":\"r-1\",\"model\":\"m\",\
             \"object\":\"text_completion\"}\n\n",
        ]
    );
    assert!(!aborted);
}

#[test]
fn chunks_are_collected() {
    let mut stream = stream();
    let mut collector = Collector::new();
    assert!(matches!(collector.accept(&mut stream, chunk("ab")), Collecting::Continue));
    assert!(matches!(collector.accept(&mut stream, StreamEvent::Empty), Collecting::Continue));
    assert!(matches!(collector.accept(&mut stream, chunk("c")), Collecting::Continue));
    assert_eq!(collector.token_ids, vec![97, 98, 99]);
    assert_eq!(collector.completion_tokens, 3);
    assert!(collector.finish_reason.is_none());
    assert!(!stream.is_completed());
    assert!(matches!(collector.accept(&mut stream, StreamEvent::End), Collecting::Finished));
    assert!(stream.is_completed());
}

#[test]
fn completion_decides_what_was_collected() {
    let mut stream = stream();
    let mut collector = Collector::new();
    collector.accept(&mut stream, chunk("abc"));
    assert!(matches!(collector.accept(&mut stream, complete("stop")), Collecting::Finished));
    assert_eq!(collector.token_ids, vec![97, 98, 99]);
    assert_eq!(collector.completion_tokens, 2);
    assert_eq!(collector.finish_reason.as_deref(), Some("stop"));
    assert!(stream.abort_on_drop().is_none());

    let report = GenerateComplete {
        output_ids: vec![7, 8],
        finish_reason: "length".to_string(),
        completion_tokens: 5,
    };
    collector.accept(&mut stream, StreamEvent::Complete(report));
    assert_eq!(collector.token_ids, vec![7, 8]);
    assert_eq!(collector.completion_tokens, 5);
}

#[test]
fn collecting_fails_with_the_error_of_the_worker() {
    let mut stream = stream();
    let mut collector = Collector::new();
    match collector.accept(&mut stream, error("busy")) {
        Collecting::Failed(reply) => {
            assert_eq!(reply.status, 500);
            assert_eq!(reply.error, "busy");
        }
        _ => panic!("the error is not told"),
    }
    match collector.accept(&mut stream, failed()) {
        Collecting::Failed(reply) => {
            assert_eq!(reply.status, 500);
            assert_eq!(reply.body(), "{\"error\":\"Stream error: gone\"}");
        }
        _ => panic!("the failure is not told"),
    }
    assert!(stream.abort_on_drop().is_some());
}

#[test]
fn usage_adds_up_and_wraps() {
    let usage = usage_of(3, 4);
    assert_eq!((usage.prompt_tokens, usage.completion_tokens, usage.total_tokens), (3, 4, 7));
    assert!(usage.completion_tokens_details.is_none());
    let usage = usage_of(1, -1);
    assert_eq!(usage.completion_tokens, u32::MAX);
    assert_eq!(usage.total_tokens, 0);
}
