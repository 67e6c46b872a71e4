//! The one-shot notification that lets the process exit.

use vstd::prelude::*;

verus! {

/// Why the shutdown notification did not reach anyone.
#[derive(Clone, Copy, Debug, PartialEq, Eq, Hash, Structural)]
pub enum SignalError {
    /// The notification was sent, and nobody was listening for it.
    NoListener,
    /// The signal had been consumed before.
    AlreadyTaken,
}

/// A notifier that can be taken out once.
///
/// `T` is the notifier itself, for instance the sending half of a one-shot
/// channel. The signal's value is what it still holds: `Some` notifier while
/// it is armed, `None` once it has been consumed.
#[derive(Debug)]
pub struct ShutdownSignal<T> {
    notifier: Option<T>,
}

impl<T> View for ShutdownSignal<T> {
    type V = Option<T>;

    closed spec fn view(&self) -> Option<T> {
        self.notifier
    }
}

/// What an attempt to consume a signal that holds `held` gives.
pub open spec fn consumed<T>(held: Option<T>) -> Result<T, SignalError> {
    match held {
        Some(notifier) => Ok(notifier),
        None => Err(SignalError::AlreadyTaken),
    }
}

/// What a signal holds after an attempt to consume it: nothing, whatever it
/// held before.
pub open spec fn left<T>(held: Option<T>) -> Option<T> {
    None
}

impl<T> ShutdownSignal<T> {
    /// An armed signal around `notifier`.
    pub fn new(notifier: T) -> (signal: ShutdownSignal<T>)
        ensures
            signal@ == Some(notifier),
    {
        ShutdownSignal { notifier: Some(notifier) }
    }

    /// A signal that has nothing left to deliver.
    pub fn spent() -> (signal: ShutdownSignal<T>)
        ensures
            signal@ == None::<T>,
    {
        ShutdownSignal { notifier: None }
    }

    /// Whether the signal has not been consumed yet.
    pub fn is_armed(&self) -> (armed: bool)
        ensures
            armed == self@.is_some(),
    {
        self.notifier.is_some()
    }

    /// Consumes the signal. The first attempt yields the notifier; every
    /// later one reports that it is gone, and changes nothing.
    pub fn take(&mut self) -> (taken: Result<T, SignalError>)
        ensures
            taken == consumed(old(self)@),
            final(self)@ == left(old(self)@),
    {
        match self.notifier.take() {
            Some(notifier) => Ok(notifier),
            None => Err(SignalError::AlreadyTaken),
        }
    }
}

/// A signal is consumed at most once: the first attempt yields the notifier
/// that the signal held, and every attempt after another yields none.
pub proof fn law_consumed_at_most_once<T>(held: Option<T>)
    ensures
        held matches Some(notifier) ==> consumed(held) == Ok::<T, SignalError>(notifier),
        consumed(left(held)) == Err::<T, SignalError>(SignalError::AlreadyTaken),
        left(left(held)) == left(held),
{
}

} // verus!
