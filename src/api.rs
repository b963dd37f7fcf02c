//! The client handle: it keeps the session through which lookups are sent.
use vstd::prelude::*;

verus! {

/// A market-data client over a session `S`.
pub struct Api<S> {
    session: S,
}

impl<S> Api<S> {
    pub closed spec fn spec_session(&self) -> S {
        self.session
    }

    pub fn new(session: S) -> (r: Self)
        ensures
            r.spec_session() == session,
    {
        Api { session }
    }

    /// The session lookups go through.
    pub fn session(&self) -> (r: &S)
        ensures
            *r == self.spec_session(),
    {
        &self.session
    }
}

} // verus!
