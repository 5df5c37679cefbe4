//! Laws of starting a router, of the workers that it then has, and of what it shows of itself.

use crate::clock::duration_nanos;
use crate::policy::{
    CircuitBreakerConfig, CircuitBreakerSettings, ConnectionMode, HealthConfig,
    LoadBalancingPolicy, Worker, WorkerType,
};
use crate::router::{connected, GrpcRouter, RouterConfig, RouterSummary, SelectError};
use crate::startup::{
    after_reports, asked_after, backoff, backoff_millis, base_urls, first_occurrences,
    is_data_parallel, lemma_first_occurrences, lemma_pass_tries_every_worker, next_open,
    unique_base_urls, Attempt, Connected, Next, NextStep, Startup, WorkerAddress,
};
use crate::stream_processor_v2::StreamProcessor;
use crate::text::{decimal, opt_view, views};
use crate::tokenizer::Tokenizer;
use std::sync::Arc;
use vstd::arithmetic::power::pow;
use vstd::prelude::*;

verus! {

/// Delays start at a tenth of a second and double with each failed pass, five times, and then stay
/// the same.
pub proof fn lemma_delays_double_five_times(count: u32, delay: u64, next: u64)
    requires
        call_ensures(backoff_millis, (count,), delay),
        count < u32::MAX ==> call_ensures(backoff_millis, ((count + 1) as u32,), next),
    ensures
        count == 0 ==> delay == 100,
        count < 5 ==> next == 2 * delay,
        5 <= count < u32::MAX ==> next == delay,
        count >= 5 ==> delay == 3200,
{
    reveal(pow);
    reveal_with_fuel(pow, 6);
}

/// Workers are addressed by rank exactly if more than one of them runs on a node.
pub proof fn lemma_ranks_are_for_more_than_one(size: usize, parallel: bool)
    requires
        call_ensures(is_data_parallel, (size,), parallel),
    ensures
        parallel <==> size > 1,
{
}

/// The base URLs to connect to are those of the workers, each of them once.
pub proof fn lemma_base_urls_are_those_of_the_workers(
    addresses: &Vec<WorkerAddress>,
    urls: Vec<String>,
)
    requires
        call_ensures(unique_base_urls, (addresses,), urls),
    ensures
        forall|i: int, j: int|
            0 <= i < j < urls@.len() ==> (#[trigger] urls@[i])@ != (#[trigger] urls@[j])@,
        forall|i: int|
            0 <= i < urls@.len() ==> exists|k: int|
                0 <= k < addresses@.len() && (#[trigger] addresses@[k]).base_url@ == (
                #[trigger] urls@[i])@,
        forall|k: int|
            0 <= k < addresses@.len() ==> exists|i: int|
                0 <= i < urls@.len() && (#[trigger] urls@[i])@ == (
                #[trigger] addresses@[k]).base_url@,
{
    let texts = base_urls(addresses@);
    let found = first_occurrences(texts);
    lemma_first_occurrences(texts);
    assert(views(urls@).len() == urls@.len());
    assert forall|i: int, j: int| 0 <= i < j < urls@.len() implies (#[trigger] urls@[i])@ != (
    #[trigger] urls@[j])@ by {
        assert(views(urls@)[i] == found[i]);
        assert(views(urls@)[j] == found[j]);
    }
    assert forall|i: int| 0 <= i < urls@.len() implies exists|k: int|
        0 <= k < addresses@.len() && (#[trigger] addresses@[k]).base_url@ == (
        #[trigger] urls@[i])@ by {
        assert(views(urls@)[i] == found[i]);
        assert(found.contains(found[i]));
        let k = choose|k: int| 0 <= k < texts.len() && texts[k] == found[i];
        assert(addresses@[k].base_url@ == urls@[i]@);
    }
    assert forall|k: int| 0 <= k < addresses@.len() implies exists|i: int|
        0 <= i < urls@.len() && (#[trigger] urls@[i])@ == (#[trigger] addresses@[k]).base_url@ by {
        assert(texts[k] == addresses@[k].base_url@);
        assert(texts.contains(texts[k]));
        assert(found.contains(texts[k]));
        let i = choose|i: int| 0 <= i < found.len() && found[i] == texts[k];
        assert(views(urls@)[i] == found[i]);
        assert(urls@[i]@ == addresses@[k].base_url@);
    }
}

/// A start begins without clients and without failed passes; there is none without a tokenizer.
pub proof fn lemma_start_begins_with_nothing<T: ?Sized, C>(
    addresses: Vec<WorkerAddress>,
    tokenizer: Option<Arc<T>>,
    startup: Result<Startup<T, C>, String>,
)
    requires
        call_ensures(Startup::<T, C>::new, (addresses, tokenizer), startup),
    ensures
        tokenizer is None ==> startup is Err && startup->Err_0@
            == "gRPC router requires tokenizer"@,
        tokenizer matches Some(t) ==> {
            &&& startup matches Ok(s)
            &&& s.valid()
            &&& s.tokenizer() == t
            &&& s.addresses() == addresses@
            &&& s@.clients == Map::<Seq<char>, C>::empty()
            &&& s@.position == 0
            &&& s@.retry_count == 0
            &&& forall|url: Seq<char>| #[trigger]
                s@.base_urls.contains(url) <==> exists|k: int|
                    0 <= k < addresses@.len() && (#[trigger] addresses@[k]).base_url@ == url
        },
{
    let texts = base_urls(addresses@);
    lemma_first_occurrences(texts);
    if let Ok(s) = startup {
        assert forall|url: Seq<char>| #[trigger]
            s@.base_urls.contains(url) <==> exists|k: int|
                0 <= k < addresses@.len() && (#[trigger] addresses@[k]).base_url@ == url by {
            if s@.base_urls.contains(url) {
                let k = choose|k: int| 0 <= k < texts.len() && texts[k] == url;
                assert(addresses@[k].base_url@ == url);
            }
            if exists|k: int|
                0 <= k < addresses@.len() && (#[trigger] addresses@[k]).base_url@ == url {
                let k = choose|k: int|
                    0 <= k < addresses@.len() && (#[trigger] addresses@[k]).base_url@ == url;
                assert(texts[k] == url);
                assert(texts.contains(url));
            }
        }
    }
}

/// A pass begins at the first base URL, unless a worker is connected or the thirty minutes are
/// over. Nothing that is known is forgotten.
pub proof fn lemma_passes_begin<T: ?Sized, C>(
    startup: &mut Startup<T, C>,
    elapsed_secs: u64,
    next: NextStep,
)
    requires
        call_ensures(Startup::<T, C>::begin_pass, (startup, elapsed_secs), next),
    ensures
        final(startup).addresses() == old(startup).addresses(),
        final(startup).tokenizer() == old(startup).tokenizer(),
        final(startup)@.base_urls == old(startup)@.base_urls,
        final(startup)@.clients == old(startup)@.clients,
        old(startup)@.clients != Map::<Seq<char>, C>::empty() ==> next is Ready,
        old(startup)@.clients == Map::<Seq<char>, C>::empty() && elapsed_secs >= 30 * 60
            ==> next is TimedOut,
        old(startup)@.clients == Map::<Seq<char>, C>::empty() && elapsed_secs < 30 * 60 ==> {
            if old(startup)@.base_urls.len() > 0 {
                &&& next matches NextStep::Connect(url)
                &&& url@ == old(startup)@.base_urls[0]
                &&& final(startup)@.position == 0
                &&& final(startup)@.retry_count == old(startup)@.retry_count
            } else {
                next is Sleep
            }
        },
{
}

/// The outcome of a connection is kept under the base URL that was tried, and the next one without
/// a client is tried. After the last one the router is ready if it has a client; otherwise one
/// more pass has failed, and the next one waits as long as that many failures ask for.
pub proof fn lemma_outcomes_are_kept<T: ?Sized, C>(
    startup: &mut Startup<T, C>,
    outcome: Option<C>,
    next: NextStep,
)
    requires
        call_ensures(Startup::<T, C>::report, (startup, outcome), next),
        old(startup)@.valid(),
        old(startup)@.position < old(startup)@.base_urls.len(),
    ensures
        final(startup).addresses() == old(startup).addresses(),
        final(startup).tokenizer() == old(startup).tokenizer(),
        final(startup)@.base_urls == old(startup)@.base_urls,
        outcome matches Some(client) ==> final(startup)@.clients
            == old(startup)@.clients.insert(
            old(startup)@.base_urls[old(startup)@.position as int],
            client,
        ),
        outcome is None ==> final(startup)@.clients == old(startup)@.clients,
        next matches NextStep::Connect(url) ==> {
            &&& old(startup)@.position < final(startup)@.position < old(startup)@.base_urls.len()
            &&& url@ == old(startup)@.base_urls[final(startup)@.position as int]
            &&& !final(startup)@.clients.contains_key(url@)
            &&& final(startup)@.retry_count == old(startup)@.retry_count
            &&& forall|i: int|
                old(startup)@.position < i < final(startup)@.position
                    ==> final(startup)@.clients.contains_key(
                    #[trigger] old(startup)@.base_urls[i],
                )
        },
        next is Connect || next is Ready || next is Sleep,
        !(next is Connect) ==> forall|i: int|
            old(startup)@.position < i < old(startup)@.base_urls.len()
                ==> final(startup)@.clients.contains_key(#[trigger] old(startup)@.base_urls[i]),
        next is Ready ==> final(startup)@.clients != Map::<Seq<char>, C>::empty(),
        next matches NextStep::Sleep(millis) ==> {
            &&& final(startup)@.clients == Map::<Seq<char>, C>::empty()
            &&& old(startup)@.retry_count < u32::MAX ==> {
                &&& final(startup)@.retry_count == old(startup)@.retry_count + 1
                &&& millis == backoff(final(startup)@.retry_count)
            }
        },
{
    let before = old(startup)@;
    let after = final(startup)@;
    lemma_skipped(before.base_urls, after.clients, before.position + 1);
}

proof fn lemma_skipped<C>(base_urls: Seq<Seq<char>>, clients: Map<Seq<char>, C>, position: nat)
    requires
        position <= base_urls.len(),
    ensures
        ({
            let next = next_open(base_urls, clients, position);
            &&& position <= next <= base_urls.len()
            &&& next < base_urls.len() ==> !clients.contains_key(base_urls[next as int])
            &&& forall|i: int|
                position <= i < next ==> clients.contains_key(#[trigger] base_urls[i])
        }),
    decreases base_urls.len() - position,
{
    if position < base_urls.len() && clients.contains_key(base_urls[position as int]) {
        lemma_skipped(base_urls, clients, position + 1);
    }
}

/// What a start hands over is what it has found.
pub proof fn lemma_start_hands_over<T: ?Sized, C>(
    startup: Startup<T, C>,
    parts: Connected<T, C>,
    unconnected: bool,
)
    requires
        call_ensures(Startup::<T, C>::into_parts, (startup,), parts),
        call_ensures(Startup::<T, C>::is_unconnected, (&startup,), unconnected),
    ensures
        parts.addresses@ == startup.addresses(),
        parts.clients@ == startup@.clients,
        parts.tokenizer == startup.tokenizer(),
        unconnected <==> startup@.clients == Map::<Seq<char>, C>::empty(),
{
}

/// Settings in seconds become durations of that many seconds; the thresholds stay.
pub proof fn lemma_circuit_breaker_follows_its_settings(
    settings: &CircuitBreakerSettings,
    config: CircuitBreakerConfig,
)
    requires
        call_ensures(CircuitBreakerSettings::config, (settings,), config),
    ensures
        breaks_as(config, *settings),
{
}

/// Whether a circuit breaker is configured by these settings.
pub open spec fn breaks_as(config: CircuitBreakerConfig, settings: CircuitBreakerSettings) -> bool {
    &&& config.failure_threshold == settings.failure_threshold
    &&& config.success_threshold == settings.success_threshold
    &&& duration_nanos(config.timeout_duration) == settings.timeout_duration_secs * 1_000_000_000
    &&& duration_nanos(config.window_duration) == settings.window_duration_secs * 1_000_000_000
}

/// Whether a health check is configured like another.
pub open spec fn checks_as(health: HealthConfig, other: HealthConfig) -> bool {
    &&& health.timeout_secs == other.timeout_secs
    &&& health.check_interval_secs == other.check_interval_secs
    &&& health.endpoint@ == other.endpoint@
    &&& health.failure_threshold == other.failure_threshold
    &&& health.success_threshold == other.success_threshold
}

/// A copy of a health check is configured like the check itself.
pub proof fn lemma_health_checks_are_copied(health: &HealthConfig, copy: HealthConfig)
    requires
        call_ensures(HealthConfig::copy, (health,), copy),
    ensures
        checks_as(copy, *health),
{
}

proof fn lemma_connected<C>(addresses: Seq<WorkerAddress>, clients: Map<Seq<char>, C>)
    ensures
        connected(addresses, clients) == addresses.filter(
            |a: WorkerAddress| clients.contains_key(a.base_url@),
        ),
    decreases addresses.len(),
{
    reveal(Seq::filter);
    if addresses.len() > 0 {
        lemma_connected(addresses.drop_last(), clients);
    }
}

/// A router has a worker for each address whose base URL answered, in the same order: at that
/// address, with that client, configured as the router is. It has no others. Without any client
/// there is no router, and the time that was waited is told.
pub proof fn lemma_router_has_the_workers_that_answered<
    T: Tokenizer + ?Sized,
    P: LoadBalancingPolicy<C> + ?Sized,
    C: Clone,
>(
    startup: Startup<T, C>,
    elapsed_secs: u64,
    policy: Arc<P>,
    config: RouterConfig,
    router: Result<GrpcRouter<T, P, C>, String>,
)
    requires
        call_ensures(
            GrpcRouter::<T, P, C>::new,
            (startup, elapsed_secs, policy, config),
            router,
        ),
    ensures
        router is Err <==> startup@.clients == Map::<Seq<char>, C>::empty(),
        router matches Err(e) ==> e@ == "Failed to connect to any gRPC workers after "@ + decimal(
            elapsed_secs as nat,
        ) + " seconds. Ensure vLLM gRPC server is starting or already running."@,
        router matches Ok(r) ==> {
            let answered = startup.addresses().filter(
                |a: WorkerAddress| startup@.clients.contains_key(a.base_url@),
            );
            &&& r.workers().len() == answered.len()
            &&& r.workers().len() > 0
            &&& forall|i: int|
                0 <= i < answered.len() ==> is_worker(
                    #[trigger] r.workers()[i],
                    answered[i],
                    startup@.clients,
                    config,
                )
            &&& r.clients() == startup@.clients
            &&& r.policy() == policy
            &&& r.tokenizer() == startup.tokenizer()
            &&& r.data_parallel_size() == config.intra_node_data_parallel_size
            &&& r.timeout_secs() == config.worker_startup_timeout_secs
            &&& r.interval_secs() == config.worker_startup_check_interval_secs
            &&& r.api_key() == opt_view(config.api_key)
            &&& breaks_as(r.circuit_breaker_config(), config.circuit_breaker)
        },
{
    lemma_connected(startup.addresses(), startup@.clients);
}

/// Whether a worker stands at an address, with a clone of the client for its base URL.
pub open spec fn is_worker<C: Clone>(
    worker: Worker<C>,
    address: WorkerAddress,
    clients: Map<Seq<char>, C>,
    config: RouterConfig,
) -> bool {
    &&& worker.url@ == address.url@
    &&& worker.base_url@ == address.base_url@
    &&& worker.dp_rank == address.dp_rank
    &&& worker.worker_type == WorkerType::Regular
    &&& worker.connection_mode == (ConnectionMode::Grpc { port: None })
    &&& breaks_as(worker.circuit_breaker, config.circuit_breaker)
    &&& checks_as(worker.health, config.health_check)
    &&& cloned(clients[address.base_url@], worker.client)
}

/// A router lists its workers and their URLs in the order in which it has them, and shows four
/// numbers of itself.
pub proof fn lemma_router_shows_what_it_has<
    T: Tokenizer + ?Sized,
    P: LoadBalancingPolicy<C> + ?Sized,
    C,
>(
    router: &GrpcRouter<T, P, C>,
    urls: Vec<String>,
    list: &[Worker<C>],
    summary: RouterSummary,
    text: String,
)
    requires
        call_ensures(GrpcRouter::<T, P, C>::get_worker_urls, (router,), urls),
        call_ensures(GrpcRouter::<T, P, C>::worker_list, (router,), list),
        call_ensures(GrpcRouter::<T, P, C>::summary, (router,), summary),
        call_ensures(GrpcRouter::<T, P, C>::debug_text, (router,), text),
    ensures
        urls@.len() == router.workers().len(),
        forall|i: int|
            0 <= i < urls@.len() ==> (#[trigger] urls@[i])@ == router.workers()[i].url@,
        list@ == router.workers(),
        summary.workers_count == router.workers().len(),
        summary.timeout_secs == router.timeout_secs(),
        summary.interval_secs == router.interval_secs(),
        summary.intra_node_data_parallel_size == router.data_parallel_size(),
        text@ == "GrpcRouter { workers_count: "@ + decimal(router.workers().len())
            + ", timeout_secs: "@ + decimal(router.timeout_secs() as nat) + ", interval_secs: "@
            + decimal(router.interval_secs() as nat) + ", intra_node_data_parallel_size: "@
            + decimal(router.data_parallel_size() as nat) + " }"@,
{
    let expected = router.workers().map_values(|w: Worker<C>| w.url@);
    assert(views(urls@).len() == urls@.len());
    assert forall|i: int| 0 <= i < urls@.len() implies (#[trigger] urls@[i])@
        == router.workers()[i].url@ by {
        assert(views(urls@)[i] == expected[i]);
    }
}

/// Reply streams are processed with the tokenizer of the router.
pub proof fn lemma_streams_share_the_tokenizer<
    T: Tokenizer + ?Sized,
    P: LoadBalancingPolicy<C> + ?Sized,
    C,
>(
    router: &GrpcRouter<T, P, C>,
    processor: StreamProcessor<T>,
)
    requires
        call_ensures(GrpcRouter::<T, P, C>::stream_processor, (router,), processor),
    ensures
        processor.tokenizer() == router.tokenizer(),
{
}

/// Why there is no worker, in words.
pub proof fn lemma_missing_workers_are_told(error: &SelectError, message: String)
    requires
        call_ensures(SelectError::message, (error,), message),
    ensures
        error is NoWorkers ==> message@ == "No workers available"@,
        error is NoHealthyWorker ==> message@ == "No healthy worker available"@,
{
}

/// No other endpoint is served, whatever the router is like.
pub proof fn lemma_other_endpoints_are_not_served<
    T: Tokenizer + ?Sized,
    P: LoadBalancingPolicy<C> + ?Sized,
    C,
>(
    router: &GrpcRouter<T, P, C>,
    status: u16,
)
    ensures
        call_ensures(GrpcRouter::<T, P, C>::health, (router,), status) ==> status == 501,
        call_ensures(GrpcRouter::<T, P, C>::health_generate, (router,), status) ==> status == 501,
        call_ensures(GrpcRouter::<T, P, C>::get_server_info, (router,), status) ==> status == 501,
        call_ensures(GrpcRouter::<T, P, C>::get_models, (router,), status) ==> status == 501,
        call_ensures(GrpcRouter::<T, P, C>::get_model_info, (router,), status) ==> status == 501,
        call_ensures(GrpcRouter::<T, P, C>::route_generate, (router,), status) ==> status == 501,
        call_ensures(GrpcRouter::<T, P, C>::route_responses, (router,), status) ==> status == 501,
        call_ensures(GrpcRouter::<T, P, C>::get_response, (router,), status) ==> status == 501,
        call_ensures(GrpcRouter::<T, P, C>::cancel_response, (router,), status) ==> status == 501,
        call_ensures(GrpcRouter::<T, P, C>::route_embeddings, (router,), status) ==> status == 501,
        call_ensures(GrpcRouter::<T, P, C>::route_rerank, (router,), status) ==> status == 501,
        call_ensures(GrpcRouter::<T, P, C>::flush_cache, (router,), status) ==> status == 501,
        call_ensures(GrpcRouter::<T, P, C>::get_worker_loads, (router,), status) ==> status == 501,
        call_ensures(GrpcRouter::<T, P, C>::readiness, (router,), status) ==> status == 503,
{
}

/// What a router says of its kind, and of workers that are to be added.
pub proof fn lemma_router_keeps_its_workers<
    T: Tokenizer + ?Sized,
    P: LoadBalancingPolicy<C> + ?Sized,
    C,
>(
    router: &GrpcRouter<T, P, C>,
    kind: &'static str,
    worker_url: &str,
    added: Result<String, String>,
)
    requires
        call_ensures(GrpcRouter::<T, P, C>::router_type, (router,), kind),
        call_ensures(GrpcRouter::<T, P, C>::add_worker, (router, worker_url), added),
    ensures
        kind@ == "grpc"@,
        added is Err && added->Err_0@ == "Not implemented"@,
{
}

/// A whole pass, from its beginning: each base URL is tried in its turn. At the end the router is
/// ready if one of them answered. Otherwise it waits: as long as one failure more asks for than
/// the passes before.
pub proof fn lemma_whole_pass<C>(attempt: Attempt<C>, outcomes: Seq<Option<C>>, elapsed_secs: u64)
    requires
        attempt.valid(),
        attempt.clients == Map::<Seq<char>, C>::empty(),
        attempt.position == 0,
        elapsed_secs < 30 * 60,
        outcomes.len() <= attempt.base_urls.len(),
    ensures
        attempt.begin(elapsed_secs).1 == asked_after(attempt, seq![]),
        outcomes.len() < attempt.base_urls.len() ==> asked_after(attempt, outcomes)
            == Next::Connect(attempt.base_urls[outcomes.len() as int]),
        outcomes.len() == attempt.base_urls.len() ==> {
            if exists|i: int| 0 <= i < outcomes.len() && (#[trigger] outcomes[i]) is Some {
                asked_after(attempt, outcomes) is Ready
            } else {
                attempt.retry_count < u32::MAX ==> asked_after(attempt, outcomes) == Next::Sleep(
                    backoff((attempt.retry_count + 1) as u32),
                )
            }
        },
        forall|i: int|
            0 <= i < outcomes.len() && (#[trigger] outcomes[i]) is Some ==> after_reports(
                attempt,
                outcomes,
            ).clients.contains_key(attempt.base_urls[i]) && after_reports(
                attempt,
                outcomes,
            ).clients[attempt.base_urls[i]] == outcomes[i]->0,
{
    lemma_pass_tries_every_worker(attempt, outcomes);
    assert forall|i: int| 0 <= i < outcomes.len() && (#[trigger] outcomes[i]) is Some implies
        after_reports(attempt, outcomes).clients.contains_key(attempt.base_urls[i])
        && after_reports(attempt, outcomes).clients[attempt.base_urls[i]] == outcomes[i]->0 by {
        let url = attempt.base_urls[i];
        assert(after_reports(attempt, outcomes).clients.contains_key(url));
    }
}

} // verus!
