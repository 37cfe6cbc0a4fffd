//! Services and their readiness.

use vstd::prelude::*;
use crate::connection::ReadyPoll;

verus! {

/// A handler of requests, as far as a connection needs to know it: whether
/// it can take another request.
pub trait Service: Sized {
    /// The error with which the service fails.
    type Error;

    /// What the readiness probe gives in this state.
    spec fn ready(&self) -> ReadyPoll<Self::Error>;

    /// The service after its readiness probe.
    spec fn probed(&self) -> Self;

    /// Probes whether the service can take another request.
    fn poll_ready(&mut self) -> (r: ReadyPoll<Self::Error>)
        ensures
            r == old(self).ready(),
            *final(self) == old(self).probed(),
    ;
}

/// Two services that take every request together.
pub struct With<S1, S2> {
    pub s1: S1,
    pub s2: S2,
}

impl<S1, S2> With<S1, S2> {
    /// Pairs `s1` with `s2`.
    pub fn new(s1: S1, s2: S2) -> (w: Self)
        ensures
            w.s1 == s1,
            w.s2 == s2,
    {
        With { s1, s2 }
    }
}

impl<S1, S2> Service for With<S1, S2> where S1: Service, S2: Service<Error = S1::Error> {
    type Error = S1::Error;

    /// The pair is ready when both are. The second is asked only once the
    /// first is ready.
    open spec fn ready(&self) -> ReadyPoll<S1::Error> {
        match self.s1.ready() {
            ReadyPoll::Ready => self.s2.ready(),
            other => other,
        }
    }

    open spec fn probed(&self) -> Self {
        match self.s1.ready() {
            ReadyPoll::Ready => With { s1: self.s1.probed(), s2: self.s2.probed() },
            _ => With { s1: self.s1.probed(), s2: self.s2 },
        }
    }

    fn poll_ready(&mut self) -> (r: ReadyPoll<S1::Error>) {
        match self.s1.poll_ready() {
            ReadyPoll::Ready => self.s2.poll_ready(),
            other => other,
        }
    }
}

} // verus!
