//! Clients that stream answers.

use vstd::prelude::*;

verus! {

/// A client: a session and what listens to its answers.
pub struct StreamClient<S, T> {
    pub session: S,
    pub sse_telemetry: Option<T>,
}

impl<S, T> StreamClient<S, T> {
    /// A client that nothing listens to.
    pub fn new(session: S) -> (r: Self)
        ensures
            r.session == session,
            r.sse_telemetry is None,
    {
        StreamClient { session, sse_telemetry: None }
    }

    /// The client with something that listens to its answers.
    pub fn with_telemetry(self, sse: Option<T>) -> (r: Self)
        ensures
            r.session == self.session,
            r.sse_telemetry == sse,
    {
        StreamClient { session: self.session, sse_telemetry: sse }
    }
}

} // verus!
