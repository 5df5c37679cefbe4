//! The router: its workers, and which of them serves a request.

use crate::clock::{now, timestamp, timestamp_of};
use crate::policy::{
    may_select, opt_str, CircuitBreakerConfig, CircuitBreakerSettings, ConnectionMode,
    HealthConfig, LoadBalancingPolicy, Worker, WorkerType,
};
use crate::protocol::ChatMessage;
use crate::reply::{ErrorReply, INTERNAL_SERVER_ERROR, SERVICE_UNAVAILABLE};
use crate::startup::{
    base_urls, lemma_clients_belong_to_workers, Startup, WorkerAddress,
};
use crate::stream_processor_v2::StreamProcessor;
use crate::template::{chat_prompt, chat_prompt_string};
use crate::text::{concat, decimal, decimal_string, opt_view, text_result, views};
use crate::tokenizer::{may_decode, may_encode, Tokenizer};
use std::sync::Arc;
use std::time::SystemTime;
use vstd::hash_map::StringHashMap;
use vstd::prelude::*;

verus! {

/// The configuration of a router.
#[derive(Debug)]
pub struct RouterConfig {
    pub intra_node_data_parallel_size: usize,
    pub api_key: Option<String>,
    pub circuit_breaker: CircuitBreakerSettings,
    pub health_check: HealthConfig,
    pub worker_startup_timeout_secs: u64,
    pub worker_startup_check_interval_secs: u64,
}

/// Why there is no worker for a request.
#[derive(Debug)]
pub enum SelectError {
    /// The router has no workers.
    NoWorkers,
    /// The policy found none of them fit.
    NoHealthyWorker,
    /// The policy chose a position that no worker has.
    OutOfRange(usize),
}

/// Why a request is not sent to a worker.
#[derive(Debug)]
pub enum Rejection {
    /// The client gets this reply.
    Reply(ErrorReply),
    /// The policy chose a position that no worker has.
    OutOfRange(usize),
}

/// Where a request is sent.
pub struct Route<C> {
    pub client: C,
    pub base_url: String,
    pub dp_rank: Option<usize>,
}

/// What a router shows of itself.
#[derive(Debug)]
pub struct RouterSummary {
    pub workers_count: usize,
    pub timeout_secs: u64,
    pub interval_secs: u64,
    pub intra_node_data_parallel_size: usize,
}

/// A router for workers with clients `C`, a tokenizer `T` and a policy `P`.
#[allow(dead_code)]
#[verifier::reject_recursive_types(C)]
pub struct GrpcRouter<T: Tokenizer + ?Sized, P: LoadBalancingPolicy<C> + ?Sized, C> {
    workers: Vec<Worker<C>>,
    grpc_clients: StringHashMap<C>,
    policy: Arc<P>,
    tokenizer: Arc<T>,
    timeout_secs: u64,
    interval_secs: u64,
    intra_node_data_parallel_size: usize,
    api_key: Option<String>,
    circuit_breaker_config: CircuitBreakerConfig,
}

/// Whether a worker is the one at an address, configured as the router is, with a client for its
/// base URL.
pub open spec fn is_worker_at<C: Clone>(
    worker: Worker<C>,
    address: WorkerAddress,
    clients: Map<Seq<char>, C>,
    config: RouterConfig,
) -> bool {
    &&& worker.url@ == address.url@
    &&& worker.base_url@ == address.base_url@
    &&& worker.dp_rank == address.dp_rank
    &&& worker.worker_type == WorkerType::Regular
    &&& worker.connection_mode == (ConnectionMode::Grpc { port: None })
    &&& worker.circuit_breaker.follows(config.circuit_breaker)
    &&& worker.health.agrees(config.health_check)
    &&& cloned(clients[address.base_url@], worker.client)
}

/// The addresses among these whose base URL has a client.
pub open spec fn connected<C>(
    addresses: Seq<WorkerAddress>,
    clients: Map<Seq<char>, C>,
) -> Seq<WorkerAddress>
    decreases addresses.len(),
{
    if addresses.len() == 0 {
        seq![]
    } else {
        let before = connected(addresses.drop_last(), clients);
        if clients.contains_key(addresses.last().base_url@) {
            before.push(addresses.last())
        } else {
            before
        }
    }
}

/// Whether the workers are those at the addresses, one for each and in the same order.
pub open spec fn are_workers_at<C: Clone>(
    workers: Seq<Worker<C>>,
    addresses: Seq<WorkerAddress>,
    clients: Map<Seq<char>, C>,
    config: RouterConfig,
) -> bool {
    &&& workers.len() == addresses.len()
    &&& forall|i: int|
        0 <= i < workers.len() ==> is_worker_at(
            #[trigger] workers[i],
            addresses[i],
            clients,
            config,
        )
}

fn create_workers<C: Clone>(
    addresses: &Vec<WorkerAddress>,
    clients: &StringHashMap<C>,
    config: &RouterConfig,
) -> (workers: Vec<Worker<C>>)
    ensures
        are_workers_at(workers@, connected(addresses@, clients@), clients@, *config),
{
    let mut workers: Vec<Worker<C>> = Vec::new();
    for i in 0..addresses.len()
        invariant
            are_workers_at(
                workers@,
                connected(addresses@.take(i as int), clients@),
                clients@,
                *config,
            ),
    {
        assert(addresses@.take(i + 1).drop_last() =~= addresses@.take(i as int));
        let address = &addresses[i];
        if let Some(client) = clients.get(address.base_url.as_str()) {
            workers.push(
                Worker {
                    url: address.url.clone(),
                    base_url: address.base_url.clone(),
                    dp_rank: address.dp_rank,
                    worker_type: WorkerType::Regular,
                    connection_mode: ConnectionMode::Grpc { port: None },
                    circuit_breaker: config.circuit_breaker.config(),
                    health: config.health_check.copy(),
                    client: client.clone(),
                },
            );
        }
    }
    assert(addresses@.take(addresses.len() as int) =~= addresses@);
    workers
}

/// The message of a router that found no worker in time.
pub open spec fn no_connection_message(elapsed_secs: u64) -> Seq<char> {
    "Failed to connect to any gRPC workers after "@ + decimal(elapsed_secs as nat)
        + " seconds. Ensure vLLM gRPC server is starting or already running."@
}

/// What the debug output of a router shows: so many workers, and three numbers of its
/// configuration.
pub open spec fn shown(
    workers_count: nat,
    timeout_secs: nat,
    interval_secs: nat,
    data_parallel_size: nat,
) -> Seq<char> {
    "GrpcRouter { workers_count: "@ + decimal(workers_count) + ", timeout_secs: "@ + decimal(
        timeout_secs,
    ) + ", interval_secs: "@ + decimal(interval_secs) + ", intra_node_data_parallel_size: "@
        + decimal(data_parallel_size) + " }"@
}

/// The answer of a tokenizer that was asked for tokens, as the router passes it on.
pub open spec fn tokenized(encoded: Result<Vec<u32>, String>) -> Result<Seq<u32>, Seq<char>> {
    match encoded {
        Ok(ids) => Ok(ids@),
        Err(e) => Err("Tokenization failed: "@ + e@),
    }
}

/// The answer of a tokenizer that was asked for text, as the router passes it on.
pub open spec fn detokenized(decoded: Result<String, String>) -> Result<Seq<char>, Seq<char>> {
    match decoded {
        Ok(text) => Ok(text@),
        Err(e) => Err("Detokenization failed: "@ + e@),
    }
}

/// A list of tokens or a message, taken by what it holds.
pub open spec fn ids_result(result: Result<Vec<u32>, String>) -> Result<Seq<u32>, Seq<char>> {
    match result {
        Ok(ids) => Ok(ids@),
        Err(e) => Err(e@),
    }
}

/// Passes on the answer of a tokenizer that was asked for tokens.
pub fn tokenize_answer(encoded: Result<Vec<u32>, String>) -> (result: Result<Vec<u32>, String>)
    ensures
        ids_result(result) == tokenized(encoded),
{
    match encoded {
        Ok(ids) => Ok(ids),
        Err(e) => Err(concat("Tokenization failed: ", e.as_str())),
    }
}

/// Passes on the answer of a tokenizer that was asked for text.
pub fn detokenize_answer(decoded: Result<String, String>) -> (result: Result<String, String>)
    ensures
        text_result(result) == detokenized(decoded),
{
    match decoded {
        Ok(text) => Ok(text),
        Err(e) => Err(concat("Detokenization failed: ", e.as_str())),
    }
}

/// Whether a result is the rejection of a request with this status and this message.
pub open spec fn rejects<R>(result: Result<R, Rejection>, status: u16, error: Seq<char>) -> bool {
    result matches Err(Rejection::Reply(reply)) && reply.says(status, error)
}

/// A rejection with this status and this message.
pub fn reject<R>(status: u16, error: String) -> (result: Result<R, Rejection>)
    ensures
        rejects(result, status, error@),
{
    Err(Rejection::Reply(ErrorReply::new(status, error)))
}

impl SelectError {
    /// The message of the error. There is none for a position that no worker has: a policy that
    /// answers with one is at fault.
    pub fn message(&self) -> (message: String)
        requires
            !(self is OutOfRange),
        ensures
            self is NoWorkers ==> message@ == "No workers available"@,
            self is NoHealthyWorker ==> message@ == "No healthy worker available"@,
    {
        match self {
            SelectError::NoWorkers => "No workers available".to_string(),
            _ => "No healthy worker available".to_string(),
        }
    }
}

impl<T: Tokenizer + ?Sized, P: LoadBalancingPolicy<C> + ?Sized, C> GrpcRouter<T, P, C> {
    /// The workers, in the order in which the policy sees them.
    pub closed spec fn workers(&self) -> Seq<Worker<C>> {
        self.workers@
    }

    /// The clients, by base URL.
    pub closed spec fn clients(&self) -> Map<Seq<char>, C> {
        self.grpc_clients@
    }

    /// The policy that chooses workers.
    pub closed spec fn policy(&self) -> Arc<P> {
        self.policy
    }

    /// The tokenizer.
    pub closed spec fn tokenizer(&self) -> Arc<T> {
        self.tokenizer
    }

    /// How many workers run on each node.
    pub closed spec fn data_parallel_size(&self) -> usize {
        self.intra_node_data_parallel_size
    }

    /// How long workers may take to start, in seconds.
    pub closed spec fn timeout_secs(&self) -> u64 {
        self.timeout_secs
    }

    /// How often workers are checked, in seconds.
    pub closed spec fn interval_secs(&self) -> u64 {
        self.interval_secs
    }

    /// The key that workers are asked with.
    pub closed spec fn api_key(&self) -> Option<Seq<char>> {
        opt_view(self.api_key)
    }

    /// When the circuit breakers of the workers open and close.
    pub closed spec fn circuit_breaker_config(&self) -> CircuitBreakerConfig {
        self.circuit_breaker_config
    }

    /// Every worker has a client, at its base URL.
    pub closed spec fn valid(&self) -> bool {
        forall|i: int|
            0 <= i < self.workers@.len() ==> self.grpc_clients@.contains_key(
                (#[trigger] self.workers@[i]).base_url@,
            )
    }

    /// The tokens of a prompt, or why there are none.
    pub fn tokenize(&self, prompt: &str) -> (result: Result<Vec<u32>, String>)
        ensures
            exists|encoded: Result<Vec<u32>, String>| #[trigger]
                may_encode(&*self.tokenizer(), prompt@, encoded) && ids_result(result)
                    == tokenized(encoded),
    {
        let encoded = self.tokenizer.encode(prompt);
        assert(may_encode(&*self.tokenizer(), prompt@, encoded));
        tokenize_answer(encoded)
    }

    /// The text of a list of tokens, or why there is none.
    pub fn detokenize(&self, token_ids: &[u32], skip_special_tokens: bool) -> (result: Result<
        String,
        String,
    >)
        ensures
            exists|decoded: Result<String, String>| #[trigger]
                may_decode(&*self.tokenizer(), token_ids@, skip_special_tokens, decoded)
                    && text_result(result) == detokenized(decoded),
    {
        let decoded = self.tokenizer.decode(token_ids, skip_special_tokens);
        assert(may_decode(&*self.tokenizer(), token_ids@, skip_special_tokens, decoded));
        detokenize_answer(decoded)
    }

    /// The prompt of a chat.
    pub fn apply_chat_template(&self, messages: &[ChatMessage]) -> (prompt: Result<String, String>)
        ensures
            prompt matches Ok(text) && text@ == chat_prompt(messages@),
    {
        Ok(chat_prompt_string(messages))
    }

    /// The present in whole seconds since the Unix epoch, by the clock of the system.
    pub fn current_timestamp() -> (secs: u64)
        ensures
            exists|time: SystemTime| secs == #[trigger] timestamp(time),
    {
        let time = now();
        timestamp_of(time)
    }

    /// The worker that the policy chose by its answer.
    pub fn chosen_worker(&self, answer: Option<usize>) -> (worker: Result<&Worker<C>, SelectError>)
        ensures
            match answer {
                None => worker == Err::<&Worker<C>, SelectError>(SelectError::NoHealthyWorker),
                Some(i) => if i < self.workers().len() {
                    worker == Ok::<&Worker<C>, SelectError>(&self.workers()[i as int])
                } else {
                    worker == Err::<&Worker<C>, SelectError>(SelectError::OutOfRange(i))
                },
            },
    {
        match answer {
            None => Err(SelectError::NoHealthyWorker),
            Some(i) => if i < self.workers.len() {
                Ok(&self.workers[i])
            } else {
                Err(SelectError::OutOfRange(i))
            },
        }
    }

    /// Whether this may come of choosing a worker for a request with this text. The policy is
    /// asked only if there are workers.
    pub open spec fn may_choose(
        &self,
        request_text: Option<Seq<char>>,
        worker: Result<&Worker<C>, SelectError>,
    ) -> bool {
        if self.workers().len() == 0 {
            worker == Err::<&Worker<C>, SelectError>(SelectError::NoWorkers)
        } else {
            exists|answer: Option<usize>| #[trigger]
                may_select(&*self.policy(), self.workers(), request_text, answer) && match answer {
                    None => worker == Err::<&Worker<C>, SelectError>(SelectError::NoHealthyWorker),
                    Some(i) => if i < self.workers().len() {
                        worker == Ok::<&Worker<C>, SelectError>(&self.workers()[i as int])
                    } else {
                        worker == Err::<&Worker<C>, SelectError>(SelectError::OutOfRange(i))
                    },
                }
        }
    }

    /// Chooses a worker for a request with this text.
    pub fn select_worker(&self, request_text: Option<&str>) -> (worker: Result<
        &Worker<C>,
        SelectError,
    >)
        ensures
            self.may_choose(opt_str(request_text), worker),
    {
        if self.workers.len() == 0 {
            return Err(SelectError::NoWorkers);
        }
        let answer = self.policy.select_worker(self.workers.as_slice(), request_text);
        assert(may_select(
            &*self.policy(),
            self.workers(),
            opt_str(request_text),
            answer,
        ));
        self.chosen_worker(answer)
    }

    /// What the router shows of itself.
    pub fn summary(&self) -> (summary: RouterSummary)
        ensures
            summary.workers_count == self.workers().len(),
            summary.timeout_secs == self.timeout_secs(),
            summary.interval_secs == self.interval_secs(),
            summary.intra_node_data_parallel_size == self.data_parallel_size(),
    {
        RouterSummary {
            workers_count: self.workers.len(),
            timeout_secs: self.timeout_secs,
            interval_secs: self.interval_secs,
            intra_node_data_parallel_size: self.intra_node_data_parallel_size,
        }
    }

    /// The debug output of the router, on one line.
    pub open spec fn shown(&self) -> Seq<char> {
        shown(
            self.workers().len(),
            self.timeout_secs() as nat,
            self.interval_secs() as nat,
            self.data_parallel_size() as nat,
        )
    }

    /// The debug output of the router, on one line.
    pub fn debug_text(&self) -> (text: String)
        ensures
            text@ == self.shown(),
    {
        let mut text = "GrpcRouter { workers_count: ".to_string();
        text.append(decimal_string(self.workers.len() as u64).as_str());
        text.append(", timeout_secs: ");
        text.append(decimal_string(self.timeout_secs).as_str());
        text.append(", interval_secs: ");
        text.append(decimal_string(self.interval_secs).as_str());
        text.append(", intra_node_data_parallel_size: ");
        text.append(decimal_string(self.intra_node_data_parallel_size as u64).as_str());
        text.append(" }");
        text
    }

    /// The workers, in the order in which the policy sees them.
    pub fn worker_list(&self) -> (list: &[Worker<C>])
        ensures
            list@ == self.workers(),
    {
        self.workers.as_slice()
    }

    /// A processor for reply streams, which shares the tokenizer.
    pub fn stream_processor(&self) -> (processor: StreamProcessor<T>)
        ensures
            processor.tokenizer() == self.tokenizer(),
    {
        StreamProcessor::new(self.tokenizer.clone())
    }

    /// The URLs of the workers.
    pub fn get_worker_urls(&self) -> (urls: Vec<String>)
        ensures
            views(urls@) == self.workers().map_values(|w: Worker<C>| w.url@),
    {
        let mut urls: Vec<String> = Vec::new();
        for i in 0..self.workers.len()
            invariant
                urls.len() == i,
                forall|j: int| 0 <= j < i ==> (#[trigger] urls[j])@ == self.workers@[j].url@,
        {
            urls.push(self.workers[i].url.clone());
        }
        assert(views(urls@) =~= self.workers().map_values(|w: Worker<C>| w.url@));
        urls
    }
}

impl<T: Tokenizer + ?Sized, P: LoadBalancingPolicy<C> + ?Sized, C: Clone> GrpcRouter<T, P, C> {
    /// The router for the workers that are connected when the start is over. Workers whose base
    /// URL has no client are left out; there is no router without any client.
    pub fn new(
        startup: Startup<T, C>,
        elapsed_secs: u64,
        policy: Arc<P>,
        config: RouterConfig,
    ) -> (router: Result<Self, String>)
        requires
            startup.valid(),
        ensures
            router is Ok <==> !startup@.is_unconnected(),
            router matches Ok(r) ==> {
                &&& r.valid()
                &&& r.workers().len() > 0
                &&& are_workers_at(
                    r.workers(),
                    connected(startup.addresses(), startup@.clients),
                    startup@.clients,
                    config,
                )
                &&& r.clients() == startup@.clients
                &&& r.policy() == policy
                &&& r.tokenizer() == startup.tokenizer()
                &&& r.data_parallel_size() == config.intra_node_data_parallel_size
                &&& r.timeout_secs() == config.worker_startup_timeout_secs
                &&& r.interval_secs() == config.worker_startup_check_interval_secs
                &&& r.api_key() == opt_view(config.api_key)
                &&& r.circuit_breaker_config().follows(config.circuit_breaker)
            },
            router matches Err(e) ==> e@ == no_connection_message(elapsed_secs),
    {
        if startup.is_unconnected() {
            let mut message = concat(
                "Failed to connect to any gRPC workers after ",
                decimal_string(elapsed_secs).as_str(),
            );
            message.append(" seconds. Ensure vLLM gRPC server is starting or already running.");
            return Err(message);
        }
        proof {
            let url = choose|url: Seq<char>| startup@.clients.contains_key(url);
            assert(startup@.clients.contains_key(url)) by {
                if forall|u: Seq<char>| !startup@.clients.contains_key(u) {
                    assert(startup@.clients =~= Map::<Seq<char>, C>::empty());
                }
            }
            lemma_clients_belong_to_workers(&startup);
            lemma_client_has_a_worker(startup.addresses(), startup@.clients, url);
        }
        let parts = startup.into_parts();
        let workers = create_workers(&parts.addresses, &parts.clients, &config);
        proof {
            lemma_connected_have_clients(parts.addresses@, parts.clients@);
        }
        Ok(
            GrpcRouter {
                workers,
                grpc_clients: parts.clients,
                policy,
                tokenizer: parts.tokenizer,
                timeout_secs: config.worker_startup_timeout_secs,
                interval_secs: config.worker_startup_check_interval_secs,
                intra_node_data_parallel_size: config.intra_node_data_parallel_size,
                api_key: config.api_key,
                circuit_breaker_config: config.circuit_breaker.config(),
            },
        )
    }

    /// The client for a worker URL.
    pub fn get_grpc_client(&self, worker_url: &str) -> (client: Result<C, String>)
        ensures
            client is Ok <==> self.clients().contains_key(worker_url@),
            client matches Ok(c) ==> cloned(self.clients()[worker_url@], c),
            client matches Err(e) ==> e@ == "No gRPC client configured for "@ + worker_url@,
    {
        match self.grpc_clients.get(worker_url) {
            Some(client) => Ok(client.clone()),
            None => Err(concat("No gRPC client configured for ", worker_url)),
        }
    }

    /// Takes a client back. Clients are shared, so there is nothing to do.
    pub fn return_grpc_client(&self, _worker_url: String, _client: C) {
    }

    /// The URL that the client of a worker is looked up by: the base URL where workers are
    /// addressed by rank, its own otherwise.
    pub open spec fn lookup_url(&self, worker: Worker<C>) -> Seq<char> {
        if self.data_parallel_size() > 1 {
            worker.base_url@
        } else {
            worker.url@
        }
    }

    /// Whether this is the route to a worker.
    pub open spec fn is_route_to(
        &self,
        worker: Worker<C>,
        route: Result<Route<C>, Rejection>,
    ) -> bool {
        if self.clients().contains_key(self.lookup_url(worker)) {
            &&& route matches Ok(r)
            &&& cloned(self.clients()[self.lookup_url(worker)], r.client)
            &&& r.base_url@ == worker.base_url@
            &&& r.dp_rank == worker.dp_rank
        } else {
            rejects(route, INTERNAL_SERVER_ERROR, "gRPC connection failed"@)
        }
    }

    /// Whether this is the route that follows from choosing a worker.
    pub open spec fn is_route_for(
        &self,
        worker: Result<&Worker<C>, SelectError>,
        route: Result<Route<C>, Rejection>,
    ) -> bool {
        match worker {
            Ok(w) => self.is_route_to(*w, route),
            Err(SelectError::OutOfRange(i)) => route == Err::<Route<C>, Rejection>(
                Rejection::OutOfRange(i),
            ),
            Err(_) => rejects(route, SERVICE_UNAVAILABLE, "No workers available"@),
        }
    }

    /// Whether a request with this text may take this route.
    pub open spec fn may_route(
        &self,
        request_text: Seq<char>,
        route: Result<Route<C>, Rejection>,
    ) -> bool {
        exists|worker: Result<&Worker<C>, SelectError>| #[trigger]
            self.may_choose(Some(request_text), worker) && self.is_route_for(worker, route)
    }

    /// The route to a worker.
    pub fn route_to(&self, worker: &Worker<C>) -> (route: Result<Route<C>, Rejection>)
        ensures
            self.is_route_to(*worker, route),
    {
        let url = if self.intra_node_data_parallel_size > 1 {
            worker.base_url.as_str()
        } else {
            worker.url.as_str()
        };
        match self.get_grpc_client(url) {
            Ok(client) => Ok(
                Route { client, base_url: worker.base_url.clone(), dp_rank: worker.dp_rank },
            ),
            Err(_) => reject(INTERNAL_SERVER_ERROR, "gRPC connection failed".to_string()),
        }
    }

    /// The route that follows from choosing a worker.
    pub fn route_for(&self, worker: Result<&Worker<C>, SelectError>) -> (route: Result<
        Route<C>,
        Rejection,
    >)
        ensures
            self.is_route_for(worker, route),
    {
        match worker {
            Ok(worker) => self.route_to(worker),
            Err(SelectError::OutOfRange(i)) => Err(Rejection::OutOfRange(i)),
            Err(_) => reject(SERVICE_UNAVAILABLE, "No workers available".to_string()),
        }
    }

    /// The route of a request with this text.
    pub fn route(&self, request_text: &str) -> (route: Result<Route<C>, Rejection>)
        ensures
            self.may_route(request_text@, route),
    {
        let worker = self.select_worker(Some(request_text));
        self.route_for(worker)
    }
}

/// A router that was started can reach each of its workers: where workers are addressed by rank,
/// and wherever the URL of a worker is its base URL.
pub proof fn lemma_workers_are_reachable<
    T: Tokenizer + ?Sized,
    P: LoadBalancingPolicy<C> + ?Sized,
    C: Clone,
>(router: &GrpcRouter<T, P, C>, i: int, route: Result<Route<C>, Rejection>)
    requires
        router.valid(),
        0 <= i < router.workers().len(),
        router.data_parallel_size() > 1 || router.workers()[i].url@
            == router.workers()[i].base_url@,
        router.is_route_to(router.workers()[i], route),
    ensures
        route is Ok,
{
}

/// Debug output gives nothing else away: routers alike in the four numbers that it shows have the
/// same, whatever their API keys, workers and clients.
pub proof fn lemma_debug_text_keeps_secrets<
    T1: Tokenizer + ?Sized,
    P1: LoadBalancingPolicy<C1> + ?Sized,
    C1,
    T2: Tokenizer + ?Sized,
    P2: LoadBalancingPolicy<C2> + ?Sized,
    C2,
>(first: &GrpcRouter<T1, P1, C1>, second: &GrpcRouter<T2, P2, C2>)
    requires
        first.workers().len() == second.workers().len(),
        first.timeout_secs() == second.timeout_secs(),
        first.interval_secs() == second.interval_secs(),
        first.data_parallel_size() == second.data_parallel_size(),
    ensures
        first.shown() == second.shown(),
{
}

/// A client at the base URL of an address has a worker.
proof fn lemma_client_has_a_worker<C>(
    addresses: Seq<WorkerAddress>,
    clients: Map<Seq<char>, C>,
    url: Seq<char>,
)
    requires
        clients.contains_key(url),
        base_urls(addresses).contains(url),
    ensures
        connected(addresses, clients).len() > 0,
    decreases addresses.len(),
{
    let i = choose|i: int| 0 <= i < addresses.len() && base_urls(addresses)[i] == url;
    if i < addresses.len() - 1 {
        assert(base_urls(addresses.drop_last())[i] == url);
        lemma_client_has_a_worker(addresses.drop_last(), clients, url);
    }
}

/// Workers are made only for addresses with a client.
proof fn lemma_connected_have_clients<C>(
    addresses: Seq<WorkerAddress>,
    clients: Map<Seq<char>, C>,
)
    ensures
        forall|i: int|
            0 <= i < connected(addresses, clients).len() ==> clients.contains_key(
                (#[trigger] connected(addresses, clients)[i]).base_url@,
            ),
    decreases addresses.len(),
{
    if addresses.len() > 0 {
        lemma_connected_have_clients(addresses.drop_last(), clients);
    }
}

} // verus!
