//! A guard for a reply stream: it aborts the request on the worker if it is dropped before the
//! stream completed, and lets go of the client as soon as it needs it no more.

use crate::auto_cleanup_stream::AbortRequest;
use vstd::prelude::*;

verus! {

/// A reply stream `S` and, until the request is over, the client `C` that could abort it.
pub struct StreamGuard<S, C> {
    inner: S,
    request_id: String,
    client: Option<C>,
    completed: bool,
}

/// The model of [`StreamGuard`].
pub struct Guard<S, C> {
    pub inner: S,
    pub request_id: Seq<char>,
    pub client: Option<C>,
    pub completed: bool,
}

impl<S, C> Guard<S, C> {
    /// The guard after its stream completed: the client is released.
    pub open spec fn marked(self) -> Self {
        Guard { client: None, completed: true, ..self }
    }

    /// Whether dropping the guard now sends an abort to the worker.
    pub open spec fn aborts(self) -> bool {
        !self.completed && self.client is Some
    }

    /// The guard after it was dropped: whatever was left of the client went with the abort.
    pub open spec fn dropped(self) -> Self {
        if self.completed {
            self
        } else {
            Guard { client: None, ..self }
        }
    }

    /// A guard that is marked as completed holds no client.
    pub open spec fn valid(self) -> bool {
        self.completed ==> self.client is None
    }
}

impl<S, C> View for StreamGuard<S, C> {
    type V = Guard<S, C>;

    closed spec fn view(&self) -> Guard<S, C> {
        Guard {
            inner: self.inner,
            request_id: self.request_id@,
            client: self.client,
            completed: self.completed,
        }
    }
}

impl<S, C> StreamGuard<S, C> {
    /// Guards a stream that has not completed.
    pub fn new(stream: S, request_id: String, client: C) -> (guard: Self)
        ensures
            guard@ == (Guard {
                inner: stream,
                request_id: request_id@,
                client: Some(client),
                completed: false,
            }),
    {
        StreamGuard { inner: stream, request_id, client: Some(client), completed: false }
    }

    /// Marks the stream as completed and releases the client.
    pub fn mark_completed(&mut self)
        ensures
            final(self)@ == old(self)@.marked(),
    {
        self.completed = true;
        self.client = None;
    }

    /// The stream itself, to read from.
    pub fn stream_mut(&mut self) -> (stream: &mut S)
        ensures
            *stream == old(self)@.inner,
            final(self)@ == (Guard { inner: *final(stream), ..old(self)@ }),
    {
        &mut self.inner
    }

    /// The id of the request that the stream replies to.
    pub fn request_id(&self) -> (id: &str)
        ensures
            id@ == self@.request_id,
    {
        self.request_id.as_str()
    }

    /// Whether the stream is marked as completed.
    pub fn is_completed(&self) -> (completed: bool)
        ensures
            completed == self@.completed,
    {
        self.completed
    }

    /// What is owed to the worker when the guard is dropped: an abort, unless the stream has
    /// completed or the client is gone already. The client leaves the guard with the abort.
    pub fn abort_on_drop(&mut self) -> (abort: Option<AbortRequest<C>>)
        ensures
            final(self)@ == old(self)@.dropped(),
            abort is Some <==> old(self)@.aborts(),
            abort matches Some(request) ==> {
                &&& old(self)@.client == Some(request.client)
                &&& request.request_id@ == old(self)@.request_id
                &&& request.reason@ == "Stream dropped before completion"@
            },
    {
        if self.completed {
            return None;
        }
        match self.client.take() {
            Some(client) => Some(
                AbortRequest {
                    client,
                    request_id: self.request_id.clone(),
                    reason: "Stream dropped before completion".to_string(),
                },
            ),
            None => None,
        }
    }
}

/// Marking and dropping keep a guard valid; neither leaves a client behind.
pub proof fn lemma_guard_releases_its_client<S, C>(guard: Guard<S, C>)
    requires
        guard.valid(),
    ensures
        guard.marked().valid(),
        guard.marked().client is None,
        guard.dropped().valid(),
        guard.dropped().client is None,
{
}

/// What may happen to a guard.
pub enum Use {
    Mark,
    Drop,
}

/// How many aborts are sent over these uses of a guard, one after the other.
pub open spec fn aborts_sent<S, C>(guard: Guard<S, C>, uses: Seq<Use>) -> nat
    decreases uses.len(),
{
    if uses.len() == 0 {
        0
    } else {
        match uses[0] {
            Use::Mark => aborts_sent(guard.marked(), uses.drop_first()),
            Use::Drop => (if guard.aborts() {
                1nat
            } else {
                0nat
            }) + aborts_sent(guard.dropped(), uses.drop_first()),
        }
    }
}

/// However a guard is used, at most one abort is sent for it. It is sent exactly if the guard is
/// dropped before its stream is marked as completed.
pub proof fn lemma_guard_aborts_at_most_once<S, C>(guard: Guard<S, C>, uses: Seq<Use>)
    ensures
        aborts_sent(guard, uses) <= 1,
        aborts_sent(guard, uses) == 1 <==> guard.aborts() && uses.len() > 0 && uses[0] is Drop,
    decreases uses.len(),
{
    if uses.len() > 0 {
        match uses[0] {
            Use::Mark => lemma_guard_aborts_at_most_once(guard.marked(), uses.drop_first()),
            Use::Drop => lemma_guard_aborts_at_most_once(guard.dropped(), uses.drop_first()),
        }
    }
}

} // verus!
