//! A reply stream that is aborted on the worker when it is dropped unfinished.
//!
//! The owner of an [`AutoCleanupStream`] asks it for the abort to send when it lets go of it.

use vstd::prelude::*;

verus! {

/// A request to stop generating, and the client to send it with.
pub struct AbortRequest<C> {
    pub client: C,
    pub request_id: String,
    pub reason: String,
}

/// A reply stream `S`, and the client `C` of the worker that it comes from.
///
/// When the stream completes successfully, call [`AutoCleanupStream::mark_completed`] so that no
/// abort is sent for it.
pub struct AutoCleanupStream<S, C> {
    inner: S,
    request_id: String,
    client: C,
    completed: bool,
}

/// The model of [`AutoCleanupStream`].
pub struct Cleanup<S, C> {
    pub inner: S,
    pub request_id: Seq<char>,
    pub client: C,
    pub completed: bool,
}

impl<S, C> Cleanup<S, C> {
    /// The stream, marked as completed.
    pub open spec fn marked(self) -> Self {
        Cleanup { completed: true, ..self }
    }

    /// Whether letting go of the stream now sends an abort to the worker.
    pub open spec fn aborts(self) -> bool {
        !self.completed
    }
}

impl<S, C> View for AutoCleanupStream<S, C> {
    type V = Cleanup<S, C>;

    closed spec fn view(&self) -> Cleanup<S, C> {
        Cleanup {
            inner: self.inner,
            request_id: self.request_id@,
            client: self.client,
            completed: self.completed,
        }
    }
}

impl<S, C> AutoCleanupStream<S, C> {
    /// Wraps a stream that has not completed.
    pub fn new(stream: S, request_id: String, client: C) -> (wrapped: Self)
        ensures
            wrapped@ == (Cleanup {
                inner: stream,
                request_id: request_id@,
                client,
                completed: false,
            }),
    {
        AutoCleanupStream { inner: stream, request_id, client, completed: false }
    }

    /// Marks the stream as completed, so that no abort is sent for it.
    pub fn mark_completed(&mut self)
        ensures
            final(self)@ == old(self)@.marked(),
    {
        self.completed = true;
    }

    /// The id of the request that the stream replies to.
    pub fn request_id(&self) -> (id: &str)
        ensures
            id@ == self@.request_id,
    {
        self.request_id.as_str()
    }

    /// Whether the stream is marked as completed.
    pub fn is_completed(&self) -> (completed: bool)
        ensures
            completed == self@.completed,
    {
        self.completed
    }

    /// The stream itself, to read from.
    pub fn stream_mut(&mut self) -> (stream: &mut S)
        ensures
            *stream == old(self)@.inner,
            final(self)@ == (Cleanup { inner: *final(stream), ..old(self)@ }),
    {
        &mut self.inner
    }
}

impl<S, C: Clone> AutoCleanupStream<S, C> {
    /// What is owed to the worker when the stream is dropped: an abort, unless the stream has
    /// completed. Either way nothing is owed afterwards.
    pub fn abort_on_drop(&mut self) -> (abort: Option<AbortRequest<C>>)
        ensures
            final(self)@ == old(self)@.marked(),
            abort is Some <==> old(self)@.aborts(),
            abort matches Some(request) ==> {
                &&& cloned(old(self)@.client, request.client)
                &&& request.request_id@ == old(self)@.request_id
                &&& request.reason@ == "Stream dropped"@
            },
    {
        if self.completed {
            return None;
        }
        self.completed = true;
        Some(
            AbortRequest {
                client: self.client.clone(),
                request_id: self.request_id.clone(),
                reason: "Stream dropped".to_string(),
            },
        )
    }
}

/// What may happen to a stream.
pub enum Use {
    Mark,
    Drop,
}

/// How many aborts are sent over these uses of a stream, one after the other.
pub open spec fn aborts_sent<S, C>(stream: Cleanup<S, C>, uses: Seq<Use>) -> nat
    decreases uses.len(),
{
    if uses.len() == 0 {
        0
    } else {
        (if uses[0] is Drop && stream.aborts() {
            1nat
        } else {
            0nat
        }) + aborts_sent(stream.marked(), uses.drop_first())
    }
}

/// However a stream is used, at most one abort is sent for it. It is sent exactly if the stream is
/// dropped before it is marked as completed.
pub proof fn lemma_stream_aborts_at_most_once<S, C>(stream: Cleanup<S, C>, uses: Seq<Use>)
    ensures
        aborts_sent(stream, uses) <= 1,
        aborts_sent(stream, uses) == 1 <==> !stream.completed && uses.len() > 0 && uses[0] is Drop,
    decreases uses.len(),
{
    if uses.len() > 0 {
        lemma_stream_aborts_at_most_once(stream.marked(), uses.drop_first());
    }
}

} // verus!
