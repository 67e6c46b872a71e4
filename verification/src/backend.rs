//! The remote caches that a session can mirror to.

use vstd::prelude::*;

verus! {

/// A remote cache provider. A session has each kind at most once; one that
/// is not configured is simply absent from the session's list.
#[derive(Clone, Copy, Debug, PartialEq, Eq, Hash, Structural)]
pub enum BackendKind {
    /// The GitHub Actions cache.
    GitHubActions,
    /// FlakeHub Cache.
    FlakeHub,
}

/// The backends that are present, in the order in which every fan-out and
/// every shutdown goes through them: GitHub Actions before FlakeHub.
pub open spec fn present(github_actions: bool, flakehub: bool) -> Seq<BackendKind> {
    let first = if github_actions {
        seq![BackendKind::GitHubActions]
    } else {
        Seq::empty()
    };
    if flakehub {
        first.push(BackendKind::FlakeHub)
    } else {
        first
    }
}

/// Lists the backends that are present.
pub fn configured(github_actions: bool, flakehub: bool) -> (backends: Vec<BackendKind>)
    ensures
        backends@ == present(github_actions, flakehub),
        backends@.no_duplicates(),
{
    let mut backends: Vec<BackendKind> = Vec::new();
    if github_actions {
        backends.push(BackendKind::GitHubActions);
    }
    if flakehub {
        backends.push(BackendKind::FlakeHub);
    }
    backends
}

} // verus!
