//! The endpoints beside chats and text completions, by the status of their response.

use crate::policy::LoadBalancingPolicy;
use crate::reply::{NOT_IMPLEMENTED, SERVICE_UNAVAILABLE};
use crate::router::GrpcRouter;
use crate::tokenizer::Tokenizer;
use vstd::prelude::*;

verus! {

impl<T: Tokenizer + ?Sized, P: LoadBalancingPolicy<C> + ?Sized, C> GrpcRouter<T, P, C> {
    /// The response to a request for health checks.
    pub fn health(&self) -> (status: u16)
        ensures
            status == NOT_IMPLEMENTED,
    {
        NOT_IMPLEMENTED
    }

    /// The response to a request for health checks by generating.
    pub fn health_generate(&self) -> (status: u16)
        ensures
            status == NOT_IMPLEMENTED,
    {
        NOT_IMPLEMENTED
    }

    /// The response to a request for server information.
    pub fn get_server_info(&self) -> (status: u16)
        ensures
            status == NOT_IMPLEMENTED,
    {
        NOT_IMPLEMENTED
    }

    /// The response to a request for the list of models.
    pub fn get_models(&self) -> (status: u16)
        ensures
            status == NOT_IMPLEMENTED,
    {
        NOT_IMPLEMENTED
    }

    /// The response to a request for model information.
    pub fn get_model_info(&self) -> (status: u16)
        ensures
            status == NOT_IMPLEMENTED,
    {
        NOT_IMPLEMENTED
    }

    /// The response to a request for plain generation.
    pub fn route_generate(&self) -> (status: u16)
        ensures
            status == NOT_IMPLEMENTED,
    {
        NOT_IMPLEMENTED
    }

    /// The response to a request for the creation of responses.
    pub fn route_responses(&self) -> (status: u16)
        ensures
            status == NOT_IMPLEMENTED,
    {
        NOT_IMPLEMENTED
    }

    /// The response to a request for reading a response.
    pub fn get_response(&self) -> (status: u16)
        ensures
            status == NOT_IMPLEMENTED,
    {
        NOT_IMPLEMENTED
    }

    /// The response to a request for cancelling a response.
    pub fn cancel_response(&self) -> (status: u16)
        ensures
            status == NOT_IMPLEMENTED,
    {
        NOT_IMPLEMENTED
    }

    /// The response to a request for embeddings.
    pub fn route_embeddings(&self) -> (status: u16)
        ensures
            status == NOT_IMPLEMENTED,
    {
        NOT_IMPLEMENTED
    }

    /// The response to a request for reranking.
    pub fn route_rerank(&self) -> (status: u16)
        ensures
            status == NOT_IMPLEMENTED,
    {
        NOT_IMPLEMENTED
    }

    /// The response to a request for flushing caches.
    pub fn flush_cache(&self) -> (status: u16)
        ensures
            status == NOT_IMPLEMENTED,
    {
        NOT_IMPLEMENTED
    }

    /// The response to a request for the loads of workers.
    pub fn get_worker_loads(&self) -> (status: u16)
        ensures
            status == NOT_IMPLEMENTED,
    {
        NOT_IMPLEMENTED
    }

    /// The response to the question whether the router is ready.
    pub fn readiness(&self) -> (status: u16)
        ensures
            status == SERVICE_UNAVAILABLE,
    {
        SERVICE_UNAVAILABLE
    }

    /// What kind of router this is.
    pub fn router_type(&self) -> (name: &'static str)
        ensures
            name@ == "grpc"@,
    {
        "grpc"
    }

    /// Refuses to add a worker: the workers of a router are those it started with.
    pub fn add_worker(&self, _worker_url: &str) -> (added: Result<String, String>)
        ensures
            added matches Err(e) && e@ == "Not implemented"@,
    {
        Err("Not implemented".to_string())
    }

    /// Removes nothing: the workers of a router are those it started with.
    pub fn remove_worker(&self, _worker_url: &str) {
    }
}

} // verus!
