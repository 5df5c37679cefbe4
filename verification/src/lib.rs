//! Request routing for a fleet of gRPC generation workers.
//!
//! The crate holds the decisions of the router: which worker a request goes to, what is sent to
//! it, how its reply stream is turned into an HTTP response or into server-sent events, and when
//! an unfinished generation is aborted. Connections, channels and timers live outside of it and
//! hand their outcomes in as plain values.

pub mod auto_cleanup_stream;
pub mod chat_handler;
pub mod chunk;
pub mod clock;
pub mod collect;
pub mod completion_handler;
pub mod dispatch;
pub mod endpoints;
pub mod json;
pub mod policy;
pub mod protocol;
pub mod relay_laws;
pub mod relayed;
pub mod reply;
pub mod request_id;
pub mod request_laws;
pub mod response_laws;
pub mod router;
pub mod scheduler;
pub mod sse;
pub mod starting_laws;
pub mod startup;
pub mod stream_guard;
pub mod stream_processor;
pub mod stream_processor_v2;
pub mod streaming_laws;
pub mod template;
pub mod template_laws;
pub mod text;
pub mod tokenizer;
pub mod transcript;
pub mod writing_laws;
