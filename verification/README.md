# grpc_router

A router for a fleet of gRPC generation workers. It takes chat and text completion requests,
chooses a worker for each, and turns the reply stream of the worker into an HTTP response or into
server-sent events. A generation whose stream is dropped unfinished is aborted on the worker.

- `src/` is the library: the decisions of the router, with contracts that Verus proves. What the
  outside world decides (tokenizers, load balancing policies, connections, clocks) comes in as
  plain values or through traits of which nothing is assumed.
  - `startup`, `policy`, `router`, `dispatch`, `endpoints`: from starting the router to
    choosing a worker.
  - `template`, `chat_handler`, `completion_handler`, `collect`: from a request to what a worker
    is sent, and from what it generated to a response.
  - `stream_processor_v2`, `stream_processor`, `auto_cleanup_stream`, `stream_guard`: streamed
    replies and their cleanup. `transcript` and `relayed` state what holds of a stream as a whole.
  - `json`, `sse`, `chunk`, `protocol`, `scheduler`, `reply`, `text`, `clock`, `request_id`: the
    vocabulary of the rest.
- `tests/` runs the library on concrete values.
- `app/` is ordinary Rust around it: channels, tasks, timers, HTTP responses and serialization.
