//! Handing the byte stream of a connection over to the application.

use vstd::prelude::*;

verus! {

/// What polling for the upgraded byte stream gave.
pub enum UpgradePoll<U, E> {
    Pending,
    Ready(U),
    Failed(E),
}

/// A request body that can hand over the byte stream beneath it.
pub trait Upgrade: Sized {
    /// The upgraded byte stream.
    type Upgraded;

    /// The error with which the upgrade fails.
    type Error;

    /// What polling for the upgraded stream gives in this state.
    spec fn upgraded(&self) -> UpgradePoll<Self::Upgraded, Self::Error>;

    /// The body after it was polled.
    spec fn polled(&self) -> Self;

    /// Checks whether the upgraded stream is ready, and hands it out if so.
    fn poll_upgrade(&mut self) -> (r: UpgradePoll<Self::Upgraded, Self::Error>)
        ensures
            r == old(self).upgraded(),
            *final(self) == old(self).polled(),
    ;
}

/// The wait for the upgraded byte stream of a body.
pub struct OnUpgrade<T>(pub T);

impl<T: Upgrade> OnUpgrade<T> {
    /// The wait for the upgraded stream of `body`.
    pub fn new(body: T) -> (w: Self)
        ensures
            w.0 == body,
    {
        OnUpgrade(body)
    }

    /// Polls the body for its upgraded stream.
    pub fn poll(&mut self) -> (r: UpgradePoll<T::Upgraded, T::Error>)
        ensures
            r == old(self).0.upgraded(),
            final(self).0 == old(self).0.polled(),
    {
        self.0.poll_upgrade()
    }
}

} // verus!
