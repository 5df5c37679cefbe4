//! Connecting to the workers when the router starts.
//!
//! Workers take a while to start, so connecting is retried until at least one of them answers or
//! the time is up. The caller carries out the [`NextStep`] that each call returns: it connects and
//! reports the outcome, or sleeps and begins another pass, or is done.

use crate::text::{contains, views};
use std::sync::Arc;
use vstd::arithmetic::power::pow;
use vstd::hash_map::StringHashMap;
use vstd::prelude::*;

verus! {

/// How long the router waits for its workers: thirty minutes.
pub const MAX_WAIT_SECS: u64 = 1800;

/// The address of a worker: the URL that identifies it, and the base URL and the rank that this
/// URL is made of. Workers of different ranks may share a base URL.
#[derive(Debug)]
pub struct WorkerAddress {
    pub url: String,
    pub base_url: String,
    pub dp_rank: Option<usize>,
}

/// Whether workers are addressed by rank: this many of them run on each node.
pub fn is_data_parallel(intra_node_data_parallel_size: usize) -> (parallel: bool)
    ensures
        parallel == (intra_node_data_parallel_size > 1),
{
    intra_node_data_parallel_size > 1
}

/// How long to wait before trying again, in milliseconds: twice as long each time, up to a limit.
pub open spec fn backoff(retry_count: u32) -> int {
    let doublings = if retry_count < 5 {
        retry_count as nat
    } else {
        5
    };
    let delay = 100 * pow(2, doublings);
    if delay < 5000 {
        delay
    } else {
        5000
    }
}

/// The delay before the next pass, in milliseconds.
pub fn backoff_millis(retry_count: u32) -> (millis: u64)
    ensures
        millis == backoff(retry_count),
{
    proof {
        lemma_powers_of_two();
    }
    let doublings: u32 = if retry_count < 5 {
        retry_count
    } else {
        5
    };
    let mut delay: u64 = 100;
    let mut i: u32 = 0;
    while i < doublings
        invariant
            i <= doublings <= 5,
            delay == 100 * pow(2, i as nat),
        decreases doublings - i,
    {
        proof {
            lemma_powers_of_two();
        }
        delay = delay * 2;
        i = i + 1;
    }
    if delay < 5000 {
        delay
    } else {
        5000
    }
}

proof fn lemma_powers_of_two()
    ensures
        pow(2, 0) == 1,
        pow(2, 1) == 2,
        pow(2, 2) == 4,
        pow(2, 3) == 8,
        pow(2, 4) == 16,
        pow(2, 5) == 32,
{
    reveal(pow);
    reveal_with_fuel(pow, 6);
}

/// Delays never shrink, and none exceeds five seconds. From the first retry on they last at least
/// a fifth of a second.
pub proof fn lemma_backoff_grows_up_to_a_limit(earlier: u32, later: u32)
    requires
        earlier <= later,
    ensures
        backoff(earlier) <= backoff(later) <= 5000,
        earlier >= 1 ==> backoff(earlier) >= 200,
{
    lemma_powers_of_two();
}

/// The texts of a list, each where it first occurs.
pub open spec fn first_occurrences(texts: Seq<Seq<char>>) -> Seq<Seq<char>>
    decreases texts.len(),
{
    if texts.len() == 0 {
        seq![]
    } else {
        let before = first_occurrences(texts.drop_last());
        if before.contains(texts.last()) {
            before
        } else {
            before.push(texts.last())
        }
    }
}

/// The base URLs of a list of addresses.
pub open spec fn base_urls(addresses: Seq<WorkerAddress>) -> Seq<Seq<char>> {
    addresses.map_values(|a: WorkerAddress| a.base_url@)
}

/// The base URLs to connect to: each one once.
pub fn unique_base_urls(addresses: &Vec<WorkerAddress>) -> (urls: Vec<String>)
    ensures
        views(urls@) == first_occurrences(base_urls(addresses@)),
{
    let mut urls: Vec<String> = Vec::new();
    assert(views(urls@) =~= seq![]);
    for i in 0..addresses.len()
        invariant
            views(urls@) == first_occurrences(base_urls(addresses@.take(i as int))),
    {
        let ghost upto = base_urls(addresses@.take(i + 1));
        let ghost before = urls@;
        if !contains(&urls, &addresses[i].base_url) {
            urls.push(addresses[i].base_url.clone());
            assert(views(urls@) =~= views(before).push(addresses[i as int].base_url@));
        }
        proof {
            assert(upto.drop_last() =~= base_urls(addresses@.take(i as int)));
            assert(upto.last() == addresses[i as int].base_url@);
        }
    }
    assert(addresses@.take(addresses.len() as int) =~= addresses@);
    urls
}

/// Each base URL is tried once per pass: none is left out, none is added, and none occurs twice.
pub proof fn lemma_first_occurrences(texts: Seq<Seq<char>>)
    ensures
        first_occurrences(texts).no_duplicates(),
        forall|text: Seq<char>| #[trigger]
            first_occurrences(texts).contains(text) <==> texts.contains(text),
    decreases texts.len(),
{
    if texts.len() > 0 {
        let shorter = texts.drop_last();
        let before = first_occurrences(shorter);
        lemma_first_occurrences(shorter);
        let all = first_occurrences(texts);
        assert forall|text: Seq<char>| #[trigger] all.contains(text) <==> texts.contains(
            text,
        ) by {
            if texts.contains(text) {
                let i = choose|i: int| 0 <= i < texts.len() && texts[i] == text;
                if i < shorter.len() {
                    assert(shorter[i] == text);
                    assert(before.contains(text));
                    let j = choose|j: int| 0 <= j < before.len() && before[j] == text;
                    assert(all[j] == text);
                } else if !before.contains(text) {
                    assert(all[all.len() - 1] == text);
                }
            }
            if all.contains(text) {
                let j = choose|j: int| 0 <= j < all.len() && all[j] == text;
                if j < before.len() {
                    assert(before[j] == text);
                    assert(before.contains(text));
                    let i = choose|i: int| 0 <= i < shorter.len() && shorter[i] == text;
                    assert(texts[i] == text);
                } else {
                    assert(texts[texts.len() - 1] == text);
                }
            }
        }
        assert(all.no_duplicates());
    }
}

/// What the caller does next.
#[derive(Debug)]
pub enum NextStep {
    /// Connect to this base URL, and report the outcome.
    Connect(String),
    /// Sleep for so many milliseconds, and begin another pass.
    Sleep(u64),
    /// At least one worker is connected: start.
    Ready,
    /// No worker answered in time.
    TimedOut,
}

/// The model of [`NextStep`].
pub enum Next {
    Connect(Seq<char>),
    Sleep(int),
    Ready,
    TimedOut,
}

impl View for NextStep {
    type V = Next;

    open spec fn view(&self) -> Next {
        match *self {
            NextStep::Connect(url) => Next::Connect(url@),
            NextStep::Sleep(millis) => Next::Sleep(millis as int),
            NextStep::Ready => Next::Ready,
            NextStep::TimedOut => Next::TimedOut,
        }
    }
}

/// Where connecting stands: the base URLs to try in each pass, the clients so far, the position in
/// the present pass, and how many passes failed.
#[verifier::ext_equal]
pub struct Attempt<C> {
    pub base_urls: Seq<Seq<char>>,
    pub clients: Map<Seq<char>, C>,
    pub position: nat,
    pub retry_count: u32,
}

/// The first position from here on whose base URL has no client yet.
pub open spec fn next_open<C>(
    base_urls: Seq<Seq<char>>,
    clients: Map<Seq<char>, C>,
    position: nat,
) -> nat
    decreases base_urls.len() - position,
{
    if position < base_urls.len() && clients.contains_key(base_urls[position as int]) {
        next_open(base_urls, clients, position + 1)
    } else {
        position
    }
}

impl<C> Attempt<C> {
    /// Whether no worker is connected.
    pub open spec fn is_unconnected(self) -> bool {
        self.clients == Map::<Seq<char>, C>::empty()
    }

    /// The count of failed passes after one more; it stays at the top of its range.
    pub open spec fn more_retries(self) -> u32 {
        if self.retry_count < u32::MAX {
            (self.retry_count + 1) as u32
        } else {
            self.retry_count
        }
    }

    /// Goes on with a pass: the next base URL without a client is tried; at the end of the pass
    /// the router is ready, or waits if no worker is connected.
    pub open spec fn proceed(self) -> (Attempt<C>, Next) {
        let position = next_open(self.base_urls, self.clients, self.position);
        if position < self.base_urls.len() {
            (Attempt { position, ..self }, Next::Connect(self.base_urls[position as int]))
        } else if self.is_unconnected() {
            (
                Attempt { position, retry_count: self.more_retries(), ..self },
                Next::Sleep(backoff(self.more_retries())),
            )
        } else {
            (Attempt { position, ..self }, Next::Ready)
        }
    }

    /// Begins a pass, after so many seconds since the start.
    pub open spec fn begin(self, elapsed_secs: u64) -> (Attempt<C>, Next) {
        if !self.is_unconnected() {
            (self, Next::Ready)
        } else if elapsed_secs >= MAX_WAIT_SECS {
            (self, Next::TimedOut)
        } else {
            (Attempt { position: 0, ..self }).proceed()
        }
    }

    /// Takes the outcome of trying the base URL at the present position.
    pub open spec fn report(self, outcome: Option<C>) -> (Attempt<C>, Next) {
        let clients = match outcome {
            Some(client) => self.clients.insert(self.base_urls[self.position as int], client),
            None => self.clients,
        };
        (Attempt { clients, position: self.position + 1, ..self }).proceed()
    }

    /// Clients are those of base URLs, and no base URL occurs twice.
    pub open spec fn valid(self) -> bool {
        &&& self.base_urls.no_duplicates()
        &&& self.position <= self.base_urls.len()
        &&& forall|url: Seq<char>| #[trigger]
            self.clients.contains_key(url) ==> self.base_urls.contains(url)
    }
}

/// The start of a router: connecting to the workers at some addresses.
#[verifier::reject_recursive_types(C)]
pub struct Startup<T: ?Sized, C> {
    addresses: Vec<WorkerAddress>,
    base_urls: Vec<String>,
    clients: StringHashMap<C>,
    position: usize,
    retry_count: u32,
    tokenizer: Arc<T>,
}

/// The parts that a router is made of.
#[verifier::reject_recursive_types(C)]
pub struct Connected<T: ?Sized, C> {
    pub addresses: Vec<WorkerAddress>,
    pub clients: StringHashMap<C>,
    pub tokenizer: Arc<T>,
}

impl<T: ?Sized, C> View for Startup<T, C> {
    type V = Attempt<C>;

    closed spec fn view(&self) -> Attempt<C> {
        Attempt {
            base_urls: views(self.base_urls@),
            clients: self.clients@,
            position: self.position as nat,
            retry_count: self.retry_count,
        }
    }
}

impl<T: ?Sized, C> Startup<T, C> {
    /// The addresses of the workers.
    pub closed spec fn addresses(&self) -> Seq<WorkerAddress> {
        self.addresses@
    }

    /// The tokenizer of the router.
    pub closed spec fn tokenizer(&self) -> Arc<T> {
        self.tokenizer
    }

    /// The base URLs are those of the addresses, and each client belongs to one of them.
    pub closed spec fn valid(&self) -> bool {
        &&& self@.valid()
        &&& self@.base_urls == first_occurrences(base_urls(self.addresses@))
    }

    /// Begins with the workers at these addresses, none of them connected. There is no router
    /// without a tokenizer.
    pub fn new(addresses: Vec<WorkerAddress>, tokenizer: Option<Arc<T>>) -> (startup: Result<
        Self,
        String,
    >)
        ensures
            startup is Ok <==> tokenizer is Some,
            startup matches Ok(s) ==> {
                &&& s.valid()
                &&& s.addresses() == addresses@
                &&& tokenizer == Some(s.tokenizer())
                &&& s@ == (Attempt::<C> {
                    base_urls: first_occurrences(base_urls(addresses@)),
                    clients: Map::empty(),
                    position: 0,
                    retry_count: 0,
                })
            },
            startup matches Err(e) ==> e@ == "gRPC router requires tokenizer"@,
    {
        let tokenizer = match tokenizer {
            Some(tokenizer) => tokenizer,
            None => {
                return Err("gRPC router requires tokenizer".to_string());
            },
        };
        let base_urls = unique_base_urls(&addresses);
        proof {
            lemma_first_occurrences(self::base_urls(addresses@));
        }
        Ok(
            Startup {
                addresses,
                base_urls,
                clients: StringHashMap::new(),
                position: 0,
                retry_count: 0,
                tokenizer,
            },
        )
    }

    fn proceed(&mut self) -> (next: NextStep)
        requires
            old(self).valid(),
        ensures
            final(self).valid(),
            final(self).addresses() == old(self).addresses(),
            final(self).tokenizer() == old(self).tokenizer(),
            (final(self)@, next@) == old(self)@.proceed(),
    {
        let ghost start = self@;
        while self.position < self.base_urls.len() && self.clients.contains_key(
            self.base_urls[self.position].as_str(),
        )
            invariant
                self.valid(),
                self.addresses() == old(self).addresses(),
                self.tokenizer() == old(self).tokenizer(),
                start == old(self)@,
                self@ == (Attempt { position: self.position as nat, ..start }),
                next_open(start.base_urls, start.clients, self.position as nat) == next_open(
                    start.base_urls,
                    start.clients,
                    start.position,
                ),
            decreases self.base_urls.len() - self.position,
        {
            let ghost before = self@;
            self.position = self.position + 1;
            assert(self@ =~= (Attempt { position: self.position as nat, ..before }));
        }
        if self.position < self.base_urls.len() {
            NextStep::Connect(self.base_urls[self.position].clone())
        } else if self.is_unconnected() {
            if self.retry_count < u32::MAX {
                self.retry_count = self.retry_count + 1;
            }
            NextStep::Sleep(backoff_millis(self.retry_count))
        } else {
            NextStep::Ready
        }
    }

    /// Begins a pass, after so many seconds since the start.
    pub fn begin_pass(&mut self, elapsed_secs: u64) -> (next: NextStep)
        requires
            old(self).valid(),
        ensures
            final(self).valid(),
            final(self).addresses() == old(self).addresses(),
            final(self).tokenizer() == old(self).tokenizer(),
            (final(self)@, next@) == old(self)@.begin(elapsed_secs),
    {
        if !self.is_unconnected() {
            NextStep::Ready
        } else if elapsed_secs >= MAX_WAIT_SECS {
            NextStep::TimedOut
        } else {
            self.position = 0;
            assert(self@ =~= (Attempt { position: 0, ..old(self)@ }));
            self.proceed()
        }
    }

    /// Takes the outcome of connecting to the base URL that the last call asked for: its client,
    /// or nothing if it did not answer.
    pub fn report(&mut self, outcome: Option<C>) -> (next: NextStep)
        requires
            old(self).valid(),
            old(self)@.position < old(self)@.base_urls.len(),
        ensures
            final(self).valid(),
            final(self).addresses() == old(self).addresses(),
            final(self).tokenizer() == old(self).tokenizer(),
            (final(self)@, next@) == old(self)@.report(outcome),
    {
        let ghost url = self@.base_urls[self.position as int];
        assert(self.position < self.base_urls.len());
        if let Some(client) = outcome {
            self.clients.insert(self.base_urls[self.position].clone(), client);
        }
        self.position = self.position + 1;
        proof {
            assert(self@.base_urls.contains(url));
            assert forall|other: Seq<char>| #[trigger]
                self@.clients.contains_key(other) implies self@.base_urls.contains(other) by {
                if other != url {
                    assert(old(self)@.clients.contains_key(other));
                }
            }
        }
        self.proceed()
    }

    /// Whether no worker is connected.
    pub fn is_unconnected(&self) -> (unconnected: bool)
        ensures
            unconnected == self@.is_unconnected(),
    {
        proof {
            if self.clients@.is_empty() {
                assert(self.clients@ =~= Map::<Seq<char>, C>::empty());
            }
        }
        self.clients.is_empty()
    }

    /// Hands over what the router is made of.
    pub fn into_parts(self) -> (parts: Connected<T, C>)
        ensures
            parts.addresses@ == self.addresses(),
            parts.clients@ == self@.clients,
            parts.tokenizer == self.tokenizer(),
    {
        Connected { addresses: self.addresses, clients: self.clients, tokenizer: self.tokenizer }
    }
}

/// Every client belongs to a worker that the router was asked to connect to.
pub proof fn lemma_clients_belong_to_workers<T: ?Sized, C>(startup: &Startup<T, C>)
    requires
        startup.valid(),
    ensures
        forall|url: Seq<char>| #[trigger]
            startup@.clients.contains_key(url) ==> base_urls(startup.addresses()).contains(url),
{
    lemma_first_occurrences(base_urls(startup.addresses()));
}

proof fn lemma_next_open<C>(
    base_urls: Seq<Seq<char>>,
    clients: Map<Seq<char>, C>,
    position: nat,
)
    requires
        position <= base_urls.len(),
    ensures
        position <= next_open(base_urls, clients, position) <= base_urls.len(),
    decreases base_urls.len() - position,
{
    if position < base_urls.len() && clients.contains_key(base_urls[position as int]) {
        lemma_next_open(base_urls, clients, position + 1);
    }
}

/// Nothing that happens while connecting adds a client for an unknown worker.
pub proof fn lemma_attempt_stays_valid<C>(
    attempt: Attempt<C>,
    elapsed_secs: u64,
    outcome: Option<C>,
)
    requires
        attempt.valid(),
    ensures
        attempt.begin(elapsed_secs).0.valid(),
        attempt.position < attempt.base_urls.len() ==> attempt.report(outcome).0.valid(),
{
    lemma_next_open(attempt.base_urls, attempt.clients, 0);
    if attempt.position < attempt.base_urls.len() {
        let url = attempt.base_urls[attempt.position as int];
        let after = attempt.report(outcome).0;
        lemma_next_open(attempt.base_urls, after.clients, attempt.position + 1);
        assert(attempt.base_urls.contains(url));
        assert forall|other: Seq<char>| #[trigger]
            after.clients.contains_key(other) implies after.base_urls.contains(other) by {
            if other != url {
                assert(attempt.clients.contains_key(other));
            }
        }
    }
}

/// Connecting goes on until a worker answers or the time is up: it is given up exactly if no
/// worker is connected when the time is up, and the router is ready only with a worker connected.
pub proof fn lemma_tries_until_connected_or_timed_out<C>(
    attempt: Attempt<C>,
    elapsed_secs: u64,
    outcome: Option<C>,
)
    ensures
        attempt.begin(elapsed_secs).1 is TimedOut <==> attempt.is_unconnected() && elapsed_secs
            >= MAX_WAIT_SECS,
        attempt.begin(elapsed_secs).1 is Ready ==> !attempt.begin(elapsed_secs).0.is_unconnected(),
        attempt.begin(elapsed_secs).1 is Sleep ==> attempt.begin(elapsed_secs).0.is_unconnected(),
        !(attempt.report(outcome).1 is TimedOut),
        attempt.report(outcome).1 is Ready ==> !attempt.report(outcome).0.is_unconnected(),
        attempt.report(outcome).1 is Sleep ==> attempt.report(outcome).0.is_unconnected(),
{
}

/// Where connecting stands after these outcomes, reported one after the other.
pub open spec fn after_reports<C>(attempt: Attempt<C>, outcomes: Seq<Option<C>>) -> Attempt<C>
    decreases outcomes.len(),
{
    if outcomes.len() == 0 {
        attempt
    } else {
        after_reports(attempt, outcomes.drop_last()).report(outcomes.last()).0
    }
}

/// What a pass asks for next, after these outcomes.
pub open spec fn asked_after<C>(attempt: Attempt<C>, outcomes: Seq<Option<C>>) -> Next {
    if outcomes.len() == 0 {
        attempt.proceed().1
    } else {
        after_reports(attempt, outcomes.drop_last()).report(outcomes.last()).1
    }
}

/// Whether one of these outcomes is a client.
pub open spec fn any_client<C>(outcomes: Seq<Option<C>>) -> bool {
    exists|i: int| 0 <= i < outcomes.len() && (#[trigger] outcomes[i]) is Some
}

/// A pass tries every base URL in turn, also after one of them answered, and keeps the clients of
/// exactly those that did. At its end the router is ready if there is a client, and waits for the
/// next pass otherwise.
pub proof fn lemma_pass_tries_every_worker<C>(attempt: Attempt<C>, outcomes: Seq<Option<C>>)
    requires
        attempt.valid(),
        attempt.is_unconnected(),
        attempt.position == 0,
        outcomes.len() <= attempt.base_urls.len(),
    ensures
        forall|elapsed_secs: u64|
            elapsed_secs < MAX_WAIT_SECS ==> (#[trigger] attempt.begin(elapsed_secs)).1
                == asked_after(attempt, seq![]),
        outcomes.len() < attempt.base_urls.len() ==> {
            &&& asked_after(attempt, outcomes) == Next::Connect(
                attempt.base_urls[outcomes.len() as int],
            )
            &&& after_reports(attempt, outcomes).retry_count == attempt.retry_count
        },
        outcomes.len() == attempt.base_urls.len() ==> asked_after(attempt, outcomes) == (
        if any_client(outcomes) {
            Next::Ready
        } else {
            Next::Sleep(backoff(attempt.more_retries()))
        }),
        after_reports(attempt, outcomes).valid(),
        after_reports(attempt, outcomes).base_urls == attempt.base_urls,
        after_reports(attempt, outcomes).position == outcomes.len(),
        forall|i: int|
            0 <= i < attempt.base_urls.len() ==> (after_reports(
                attempt,
                outcomes,
            ).clients.contains_key(#[trigger] attempt.base_urls[i]) <==> i < outcomes.len()
                && outcomes[i] is Some),
        forall|i: int|
            0 <= i < outcomes.len() && outcomes[i] is Some ==> outcomes[i] == Some(
                after_reports(attempt, outcomes).clients[#[trigger] attempt.base_urls[i]],
            ),
    decreases outcomes.len(),
{
    if outcomes.len() > 0 {
        let earlier = outcomes.drop_last();
        lemma_pass_tries_every_worker(attempt, earlier);
        let before = after_reports(attempt, earlier);
        let after = after_reports(attempt, outcomes);
        let here = earlier.len() as int;
        let urls = attempt.base_urls;
        lemma_attempt_stays_valid(before, 0, outcomes.last());
        assert forall|i: int| 0 <= i < urls.len() implies (after.clients.contains_key(
            #[trigger] urls[i],
        ) <==> i < outcomes.len() && outcomes[i] is Some) by {
            if i < here {
                assert(earlier[i] == outcomes[i]);
            }
        }
        if outcomes.len() < urls.len() {
            assert(!after.clients.contains_key(urls[outcomes.len() as int]));
        }
        if any_client(outcomes) {
            let i = choose|i: int| 0 <= i < outcomes.len() && (#[trigger] outcomes[i]) is Some;
            assert(after.clients.contains_key(urls[i]));
        } else {
            assert forall|url: Seq<char>| !after.clients.contains_key(url) by {
                if after.clients.contains_key(url) {
                    let i = choose|i: int| 0 <= i < urls.len() && urls[i] == url;
                    assert(outcomes[i] is Some);
                }
            }
            assert(after.clients =~= Map::<Seq<char>, C>::empty());
        }
        assert forall|i: int| 0 <= i < outcomes.len() && outcomes[i] is Some implies outcomes[i]
            == Some(after.clients[#[trigger] urls[i]]) by {
            if i < here {
                assert(earlier[i] == outcomes[i]);
                assert(urls[i] != urls[here]);
            }
        }
    }
}

} // verus!
