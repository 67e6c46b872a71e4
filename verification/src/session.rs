//! The state that the operations of one build session share.

use crate::backend::{configured, present, BackendKind};
use crate::signal::{consumed, left, ShutdownSignal, SignalError};
use crate::snapshot::PathSnapshot;
use vstd::prelude::*;

verus! {

/// The value of a [`Session`].
pub struct SessionView<T> {
    /// The live snapshot: the paths that the store held when the workflow
    /// last started.
    pub original_paths: Set<Seq<char>>,
    /// The backends that are present and have not been shut down, in order.
    pub backends: Seq<BackendKind>,
    /// The notifier that the shutdown signal still holds.
    pub signal: Option<T>,
}

/// The state of one build session: the live snapshot, the active backends
/// and the shutdown signal.
pub struct Session<T> {
    original_paths: PathSnapshot,
    backends: Vec<BackendKind>,
    shutdown: ShutdownSignal<T>,
}

impl<T> View for Session<T> {
    type V = SessionView<T>;

    closed spec fn view(&self) -> SessionView<T> {
        SessionView {
            original_paths: self.original_paths@,
            backends: self.backends@,
            signal: self.shutdown@,
        }
    }
}

impl<T> Session<T> {
    /// The session of a process that has just started: an empty snapshot,
    /// the backends that are present, and the shutdown signal.
    pub fn new(github_actions: bool, flakehub: bool, shutdown: ShutdownSignal<T>) -> (session:
        Session<T>)
        ensures
            session@ == (SessionView {
                original_paths: Set::<Seq<char>>::empty(),
                backends: present(github_actions, flakehub),
                signal: shutdown@,
            }),
    {
        Session {
            original_paths: PathSnapshot::new(),
            backends: configured(github_actions, flakehub),
            shutdown,
        }
    }

    /// The live snapshot.
    pub fn original_paths(&self) -> (snapshot: &PathSnapshot)
        ensures
            snapshot@ == self@.original_paths,
    {
        &self.original_paths
    }

    /// The active backends, in order.
    pub fn backends(&self) -> (backends: &Vec<BackendKind>)
        ensures
            backends@ == self@.backends,
    {
        &self.backends
    }

    /// Whether the shutdown signal has not been consumed yet.
    pub fn is_armed(&self) -> (armed: bool)
        ensures
            armed == self@.signal.is_some(),
    {
        self.shutdown.is_armed()
    }

    /// Replaces the live snapshot.
    pub(crate) fn install(&mut self, snapshot: PathSnapshot)
        ensures
            final(self)@ == (SessionView { original_paths: snapshot@, ..old(self)@ }),
    {
        self.original_paths = snapshot;
    }

    /// Takes every active backend out of the session.
    pub(crate) fn retire(&mut self) -> (retired: Vec<BackendKind>)
        ensures
            retired@ == old(self)@.backends,
            final(self)@ == (SessionView { backends: Seq::empty(), ..old(self)@ }),
    {
        let mut retired: Vec<BackendKind> = Vec::new();
        core::mem::swap(&mut self.backends, &mut retired);
        retired
    }

    /// Consumes the shutdown signal.
    pub(crate) fn take_signal(&mut self) -> (taken: Result<T, SignalError>)
        ensures
            taken == consumed(old(self)@.signal),
            final(self)@ == (SessionView { signal: left(old(self)@.signal), ..old(self)@ }),
    {
        self.shutdown.take()
    }
}

} // verus!
