//! Workers, and the policies by which users of the router choose among them.

use crate::clock::{duration_nanos, duration_of_secs};
use std::time::Duration;
use vstd::prelude::*;

verus! {

/// When the circuit breaker of a worker opens and closes, as it is configured.
#[derive(Debug)]
pub struct CircuitBreakerSettings {
    pub failure_threshold: u32,
    pub success_threshold: u32,
    pub timeout_duration_secs: u64,
    pub window_duration_secs: u64,
}

/// When the circuit breaker of a worker opens and closes.
#[derive(Debug)]
pub struct CircuitBreakerConfig {
    pub failure_threshold: u32,
    pub success_threshold: u32,
    pub timeout_duration: Duration,
    pub window_duration: Duration,
}

impl CircuitBreakerConfig {
    /// Whether this is what the settings say.
    pub open spec fn follows(self, settings: CircuitBreakerSettings) -> bool {
        &&& self.failure_threshold == settings.failure_threshold
        &&& self.success_threshold == settings.success_threshold
        &&& duration_nanos(self.timeout_duration) == settings.timeout_duration_secs
            * 1_000_000_000
        &&& duration_nanos(self.window_duration) == settings.window_duration_secs * 1_000_000_000
    }
}

impl CircuitBreakerSettings {
    /// What the settings say.
    pub fn config(&self) -> (config: CircuitBreakerConfig)
        ensures
            config.follows(*self),
    {
        CircuitBreakerConfig {
            failure_threshold: self.failure_threshold,
            success_threshold: self.success_threshold,
            timeout_duration: duration_of_secs(self.timeout_duration_secs),
            window_duration: duration_of_secs(self.window_duration_secs),
        }
    }
}

/// How the health of a worker is checked.
#[derive(Debug)]
pub struct HealthConfig {
    pub timeout_secs: u64,
    pub check_interval_secs: u64,
    pub endpoint: String,
    pub failure_threshold: u32,
    pub success_threshold: u32,
}

impl HealthConfig {
    /// Whether two configurations say the same.
    pub open spec fn agrees(self, other: HealthConfig) -> bool {
        &&& self.timeout_secs == other.timeout_secs
        &&& self.check_interval_secs == other.check_interval_secs
        &&& self.endpoint@ == other.endpoint@
        &&& self.failure_threshold == other.failure_threshold
        &&& self.success_threshold == other.success_threshold
    }

    /// A copy.
    pub fn copy(&self) -> (copy: HealthConfig)
        ensures
            copy.agrees(*self),
    {
        HealthConfig {
            timeout_secs: self.timeout_secs,
            check_interval_secs: self.check_interval_secs,
            endpoint: self.endpoint.clone(),
            failure_threshold: self.failure_threshold,
            success_threshold: self.success_threshold,
        }
    }
}

/// What part of a generation a worker takes on.
#[derive(Clone, Copy, Debug, PartialEq, Eq, Structural)]
pub enum WorkerType {
    /// All of it.
    Regular,
}

/// How a worker is talked to.
#[derive(Clone, Copy, Debug, PartialEq, Eq, Structural)]
pub enum ConnectionMode {
    /// By gRPC, at the port of its URL if no other is given.
    Grpc { port: Option<u16> },
}

/// A worker that requests can be sent to, with a client `C` for it. Workers of different ranks
/// share the connection of their base URL.
#[derive(Debug)]
pub struct Worker<C> {
    pub url: String,
    pub base_url: String,
    pub dp_rank: Option<usize>,
    pub worker_type: WorkerType,
    pub connection_mode: ConnectionMode,
    pub circuit_breaker: CircuitBreakerConfig,
    pub health: HealthConfig,
    pub client: C,
}

/// Chooses a worker for a request, among workers with clients `C`.
///
/// The router relies on nothing about what a policy answers.
pub trait LoadBalancingPolicy<C> {
    /// The position of the worker to send a request with this text to, if there is one fit for
    /// it.
    fn select_worker(&self, workers: &[Worker<C>], request_text: Option<&str>) -> Option<usize>;
}

/// The characters of a text that may be absent.
pub open spec fn opt_str(text: Option<&str>) -> Option<Seq<char>> {
    match text {
        Some(s) => Some(s@),
        None => None,
    }
}

/// Whether the policy may answer this when it is asked to choose among these workers.
pub open spec fn may_select<C, P: LoadBalancingPolicy<C> + ?Sized>(
    policy: &P,
    workers: Seq<Worker<C>>,
    request_text: Option<Seq<char>>,
    answer: Option<usize>,
) -> bool {
    exists|asked: &[Worker<C>], text: Option<&str>|
        asked@ == workers && opt_str(text) == request_text && #[trigger] call_ensures(
            P::select_worker,
            (policy, asked, text),
            answer,
        )
}

} // verus!
