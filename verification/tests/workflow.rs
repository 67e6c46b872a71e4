use magic_nix_cache::api::{
    enqueue_paths, post_enqueue_paths, workflow_finish, workflow_start, Acceptance, Action, Drain,
    EnqueuePathsRequest, EnqueuePathsResponse, Event, FinishReport, Operation, Reply,
    WorkflowFinishResponse, WorkflowStartResponse,
};
use magic_nix_cache::backend::BackendKind;
use magic_nix_cache::error::Error;
use magic_nix_cache::session::Session;
use magic_nix_cache::counts::Gauge;
use magic_nix_cache::signal::{ShutdownSignal, SignalError};
use magic_nix_cache::store_path::StorePath;

fn path(name: &str) -> StorePath {
    StorePath::new(name.to_string())
}

fn paths(names: &[&str]) -> Vec<StorePath> {
    names.iter().map(|name| path(name)).collect()
}

fn request(identifiers: &[&str]) -> EnqueuePathsRequest {
    EnqueuePathsRequest {
        store_paths: identifiers.iter().map(|id| id.to_string()).collect(),
    }
}

fn session(github_actions: bool, flakehub: bool) -> Session<u32> {
    Session::new(github_actions, flakehub, ShutdownSignal::new(7))
}

fn accepted(backend: BackendKind) -> Acceptance {
    Acceptance { backend, outcome: Ok(()) }
}

fn rejected(backend: BackendKind, reason: &str) -> Acceptance {
    Acceptance { backend, outcome: Err(reason.to_string()) }
}

fn drained(backend: BackendKind, uploaded: &[&str]) -> Drain {
    Drain { backend, outcome: Ok(paths(uploaded)) }
}

fn stuck(backend: BackendKind, reason: &str) -> Drain {
    Drain { backend, outcome: Err(reason.to_string()) }
}

fn start(session: &mut Session<u32>, listed: &[&str]) -> Action<u32> {
    let (operation, action) = workflow_start(session);
    assert_eq!(action, Action::Enumerate);
    let (operation, action) = operation.step(session, Event::Enumerated(Ok(paths(listed))));
    assert!(operation.is_done());
    action
}

const GHA: BackendKind = BackendKind::GitHubActions;
const FLAKEHUB: BackendKind = BackendKind::FlakeHub;

#[test]
fn new_session_is_empty_and_armed() {
    let s = session(true, true);
    assert!(s.original_paths().is_empty());
    assert_eq!(s.backends(), &vec![GHA, FLAKEHUB]);
    assert!(s.is_armed());
    let spent: Session<u32> = Session::new(false, false, ShutdownSignal::spent());
    assert!(spent.backends().is_empty());
    assert!(!spent.is_armed());
}

#[test]
fn start_reports_the_number_of_paths() {
    let mut s = session(true, false);
    let action = start(&mut s, &["a", "b"]);
    assert_eq!(
        action,
        Action::Reply(Reply::Started(WorkflowStartResponse { num_original_paths: 2 }))
    );
    assert_eq!(s.original_paths().len(), 2);
    assert!(s.original_paths().contains(&path("a")));
    assert!(s.original_paths().contains(&path("b")));
}

#[test]
fn start_counts_a_path_listed_twice_once() {
    let mut s = session(false, false);
    let action = start(&mut s, &["a", "b", "a"]);
    assert_eq!(
        action,
        Action::Reply(Reply::Started(WorkflowStartResponse { num_original_paths: 2 }))
    );
}

#[test]
fn start_of_an_empty_store_reports_zero() {
    let mut s = session(true, true);
    let action = start(&mut s, &[]);
    assert_eq!(
        action,
        Action::Reply(Reply::Started(WorkflowStartResponse { num_original_paths: 0 }))
    );
    assert!(s.original_paths().is_empty());
}

#[test]
fn start_twice_keeps_only_the_second_listing() {
    let mut s = session(true, false);
    start(&mut s, &["a", "b"]);
    let action = start(&mut s, &["c"]);
    assert_eq!(
        action,
        Action::Reply(Reply::Started(WorkflowStartResponse { num_original_paths: 1 }))
    );
    assert_eq!(s.original_paths().len(), 1);
    assert!(s.original_paths().contains(&path("c")));
    assert!(!s.original_paths().contains(&path("a")));
    assert!(!s.original_paths().contains(&path("b")));
}

#[test]
fn start_that_cannot_list_leaves_the_snapshot() {
    let mut s = session(true, false);
    start(&mut s, &["a", "b"]);
    let (operation, action) = workflow_start(&s);
    assert_eq!(action, Action::Enumerate);
    let (operation, action) =
        operation.step(&mut s, Event::Enumerated(Err("store is gone".to_string())));
    assert!(operation.is_done());
    assert_eq!(
        action,
        Action::Reply(Reply::Failed(Error::Enumeration { reason: "store is gone".to_string() }))
    );
    assert_eq!(s.original_paths().len(), 2);
    assert!(s.original_paths().contains(&path("a")));
}

#[test]
fn enqueue_without_paths_is_a_no_op() {
    let mut s = session(true, true);
    let (operation, action) = post_enqueue_paths(&s, request(&[]));
    assert!(operation.is_done());
    assert_eq!(action, Action::Reply(Reply::Enqueued(EnqueuePathsResponse {})));
    assert_eq!(s.backends(), &vec![GHA, FLAKEHUB]);
    assert!(s.is_armed());
    let (operation, action) = enqueue_paths(&s, vec![]);
    assert!(operation.is_done());
    assert_eq!(action, Action::Reply(Reply::Enqueued(EnqueuePathsResponse {})));
}

#[test]
fn enqueue_hands_the_resolved_batch_to_every_backend() {
    let mut s = session(true, true);
    let (operation, action) = post_enqueue_paths(&s, request(&["x", "y", "x"]));
    assert!(!operation.is_done());
    assert_eq!(action, Action::Resolve("x".to_string()));
    let (operation, action) = operation.step(&mut s, Event::Resolved(Ok(path("/store/x"))));
    assert_eq!(action, Action::Resolve("y".to_string()));
    let (operation, action) = operation.step(&mut s, Event::Resolved(Ok(path("/store/y"))));
    assert_eq!(action, Action::Resolve("x".to_string()));
    let (operation, action) = operation.step(&mut s, Event::Resolved(Ok(path("/store/x"))));
    assert_eq!(
        action,
        Action::Enqueue {
            backends: vec![GHA, FLAKEHUB],
            store_paths: paths(&["/store/x", "/store/y", "/store/x"]),
        }
    );
    assert!(!operation.is_done());
    let (operation, action) =
        operation.step(&mut s, Event::Accepted(vec![accepted(GHA), accepted(FLAKEHUB)]));
    assert!(operation.is_done());
    assert_eq!(action, Action::Reply(Reply::Enqueued(EnqueuePathsResponse {})));
    assert!(s.original_paths().is_empty());
    assert_eq!(s.backends(), &vec![GHA, FLAKEHUB]);
}

#[test]
fn enqueue_of_canonical_paths_skips_resolution() {
    let mut s = session(false, true);
    let (operation, action) = enqueue_paths(&s, paths(&["p", "q"]));
    assert_eq!(
        action,
        Action::Enqueue { backends: vec![FLAKEHUB], store_paths: paths(&["p", "q"]) }
    );
    let (operation, action) = operation.step(&mut s, Event::Accepted(vec![accepted(FLAKEHUB)]));
    assert!(operation.is_done());
    assert_eq!(action, Action::Reply(Reply::Enqueued(EnqueuePathsResponse {})));
}

#[test]
fn enqueue_without_backends_succeeds_once_resolved() {
    let mut s = session(false, false);
    let (operation, action) = post_enqueue_paths(&s, request(&["x"]));
    assert_eq!(action, Action::Resolve("x".to_string()));
    let (operation, action) = operation.step(&mut s, Event::Resolved(Ok(path("/store/x"))));
    assert!(operation.is_done());
    assert_eq!(action, Action::Reply(Reply::Enqueued(EnqueuePathsResponse {})));
}

#[test]
fn enqueue_fails_fast_when_an_identifier_does_not_resolve() {
    let mut s = session(true, true);
    let mut seen: Vec<Action<u32>> = Vec::new();
    let (operation, action) = post_enqueue_paths(&s, request(&["a", "b", "c"]));
    seen.push(action);
    let (operation, action) = operation.step(&mut s, Event::Resolved(Ok(path("/store/a"))));
    seen.push(action);
    let (operation, action) =
        operation.step(&mut s, Event::Resolved(Err("no such path".to_string())));
    assert!(operation.is_done());
    assert_eq!(
        action,
        Action::Reply(Reply::Failed(Error::Resolution {
            identifier: "b".to_string(),
            reason: "no such path".to_string(),
        }))
    );
    seen.push(action);
    let (operation, action) = operation.step(&mut s, Event::Resolved(Ok(path("/store/c"))));
    assert!(operation.is_done());
    assert_eq!(action, Action::Ignore);
    seen.push(action);
    assert_eq!(seen[0], Action::Resolve("a".to_string()));
    assert_eq!(seen[1], Action::Resolve("b".to_string()));
    for action in &seen {
        assert!(!matches!(action, Action::Enqueue { .. }));
        assert!(!matches!(action, Action::Shutdown { .. }));
    }
    assert_eq!(s.backends(), &vec![GHA, FLAKEHUB]);
}

#[test]
fn enqueue_fails_on_the_first_identifier_too() {
    let mut s = session(true, false);
    let (operation, action) = post_enqueue_paths(&s, request(&["a", "b", "c"]));
    assert_eq!(action, Action::Resolve("a".to_string()));
    let (operation, action) = operation.step(&mut s, Event::Resolved(Err("broken".to_string())));
    assert!(operation.is_done());
    assert_eq!(
        action,
        Action::Reply(Reply::Failed(Error::Resolution {
            identifier: "a".to_string(),
            reason: "broken".to_string(),
        }))
    );
}

#[test]
fn enqueue_fails_on_the_last_identifier_too() {
    let mut s = session(true, false);
    let (operation, _) = post_enqueue_paths(&s, request(&["a", "b", "c"]));
    let (operation, _) = operation.step(&mut s, Event::Resolved(Ok(path("/store/a"))));
    let (operation, action) = operation.step(&mut s, Event::Resolved(Ok(path("/store/b"))));
    assert_eq!(action, Action::Resolve("c".to_string()));
    let (operation, action) = operation.step(&mut s, Event::Resolved(Err("broken".to_string())));
    assert!(operation.is_done());
    assert_eq!(
        action,
        Action::Reply(Reply::Failed(Error::Resolution {
            identifier: "c".to_string(),
            reason: "broken".to_string(),
        }))
    );
}

#[test]
fn enqueue_returns_the_first_rejection_after_all_have_answered() {
    let mut s = session(true, true);
    let (operation, action) = enqueue_paths(&s, paths(&["p"]));
    assert_eq!(
        action,
        Action::Enqueue { backends: vec![GHA, FLAKEHUB], store_paths: paths(&["p"]) }
    );
    let (operation, action) = operation.step(
        &mut s,
        Event::Accepted(vec![rejected(GHA, "quota"), rejected(FLAKEHUB, "auth")]),
    );
    assert!(operation.is_done());
    assert_eq!(
        action,
        Action::Reply(Reply::Failed(Error::Backend { backend: GHA, reason: "quota".to_string() }))
    );
}

#[test]
fn enqueue_reports_a_rejection_by_the_second_backend() {
    let mut s = session(true, true);
    let (operation, _) = enqueue_paths(&s, paths(&["p"]));
    let (operation, action) = operation
        .step(&mut s, Event::Accepted(vec![accepted(GHA), rejected(FLAKEHUB, "auth")]));
    assert!(operation.is_done());
    assert_eq!(
        action,
        Action::Reply(Reply::Failed(Error::Backend {
            backend: FLAKEHUB,
            reason: "auth".to_string(),
        }))
    );
    assert_eq!(s.backends(), &vec![GHA, FLAKEHUB]);
}

#[test]
fn answers_for_other_backends_are_ignored() {
    let mut s = session(true, true);
    let (operation, _) = enqueue_paths(&s, paths(&["p"]));
    let (operation, action) = operation.step(&mut s, Event::Accepted(vec![accepted(GHA)]));
    assert_eq!(action, Action::Ignore);
    assert!(!operation.is_done());
    let (operation, action) =
        operation.step(&mut s, Event::Accepted(vec![accepted(FLAKEHUB), accepted(GHA)]));
    assert_eq!(action, Action::Ignore);
    let (operation, action) = operation.step(
        &mut s,
        Event::Accepted(vec![accepted(GHA), accepted(FLAKEHUB), accepted(FLAKEHUB)]),
    );
    assert_eq!(action, Action::Ignore);
    let (operation, action) =
        operation.step(&mut s, Event::Accepted(vec![accepted(GHA), accepted(FLAKEHUB)]));
    assert!(operation.is_done());
    assert_eq!(action, Action::Reply(Reply::Enqueued(EnqueuePathsResponse {})));
}

#[test]
fn events_that_were_not_awaited_are_ignored() {
    let mut s = session(true, false);
    let (operation, _) = workflow_start(&s);
    let (operation, action) = operation.step(&mut s, Event::Resolved(Ok(path("a"))));
    assert_eq!(action, Action::Ignore);
    let (operation, action) = operation.step(&mut s, Event::Notified(true));
    assert_eq!(action, Action::Ignore);
    let (operation, action) = operation.step(&mut s, Event::Drained(vec![drained(GHA, &[])]));
    assert_eq!(action, Action::Ignore);
    assert!(!operation.is_done());
    assert!(s.is_armed());
    assert_eq!(s.backends(), &vec![GHA]);
    let (operation, action) = operation.step(&mut s, Event::Enumerated(Ok(paths(&["a"]))));
    assert!(operation.is_done());
    assert_eq!(
        action,
        Action::Reply(Reply::Started(WorkflowStartResponse { num_original_paths: 1 }))
    );
    let (operation, action) = operation.step(&mut s, Event::Enumerated(Ok(paths(&["b"]))));
    assert!(operation.is_done());
    assert_eq!(action, Action::Ignore);
    assert!(s.original_paths().contains(&path("a")));
    assert!(!s.original_paths().contains(&path("b")));
}

fn finish_up_to_drain(s: &mut Session<u32>, listed: &[&str]) -> (Operation, Action<u32>) {
    let (operation, action) = workflow_finish(s);
    assert_eq!(action, Action::Enumerate);
    operation.step(s, Event::Enumerated(Ok(paths(listed))))
}

#[test]
fn end_to_end_session() {
    let mut s = session(true, false);
    let action = start(&mut s, &["a", "b"]);
    assert_eq!(
        action,
        Action::Reply(Reply::Started(WorkflowStartResponse { num_original_paths: 2 }))
    );

    let (operation, action) = post_enqueue_paths(&s, request(&["c"]));
    assert_eq!(action, Action::Resolve("c".to_string()));
    let (operation, action) = operation.step(&mut s, Event::Resolved(Ok(path("c"))));
    assert_eq!(action, Action::Enqueue { backends: vec![GHA], store_paths: paths(&["c"]) });
    let (operation, action) = operation.step(&mut s, Event::Accepted(vec![accepted(GHA)]));
    assert!(operation.is_done());
    assert_eq!(action, Action::Reply(Reply::Enqueued(EnqueuePathsResponse {})));

    let (operation, action) = finish_up_to_drain(&mut s, &["a", "b", "c"]);
    assert_eq!(action, Action::Resolve("c".to_string()));
    let (operation, action) = operation.step(&mut s, Event::Resolved(Ok(path("c"))));
    assert_eq!(action, Action::Enqueue { backends: vec![GHA], store_paths: paths(&["c"]) });
    let (operation, action) = operation.step(&mut s, Event::Accepted(vec![accepted(GHA)]));
    assert_eq!(action, Action::Shutdown { backends: vec![GHA] });
    let (operation, action) =
        operation.step(&mut s, Event::Drained(vec![drained(GHA, &["c"])]));
    assert_eq!(action, Action::Notify(7));
    let (operation, action) = operation.step(&mut s, Event::Notified(true));
    assert!(operation.is_done());
    let counts =
        WorkflowFinishResponse { num_original_paths: 2, num_final_paths: 3, num_new_paths: 1 };
    match action {
        Action::Reply(Reply::Finished(report)) => {
            assert_eq!(report.result(), Ok(counts));
            assert_eq!(
                report,
                FinishReport { counts, drains: vec![drained(GHA, &["c"])], signal: Ok(()) }
            );
        }
        other => panic!("unexpected action: {:?}", other),
    }
    assert!(!s.is_armed());
    assert!(s.backends().is_empty());
    assert_eq!(s.original_paths().len(), 2);
}

#[test]
fn finish_reports_every_drain_when_one_backend_fails() {
    let mut s = session(true, true);
    start(&mut s, &["a"]);
    let (operation, action) = finish_up_to_drain(&mut s, &["a"]);
    assert_eq!(action, Action::Shutdown { backends: vec![GHA, FLAKEHUB] });
    let (operation, action) = operation.step(
        &mut s,
        Event::Drained(vec![stuck(GHA, "upload failed"), drained(FLAKEHUB, &["x", "y"])]),
    );
    assert_eq!(action, Action::Notify(7));
    let (operation, action) = operation.step(&mut s, Event::Notified(true));
    assert!(operation.is_done());
    let counts =
        WorkflowFinishResponse { num_original_paths: 1, num_final_paths: 1, num_new_paths: 0 };
    match action {
        Action::Reply(Reply::Finished(report)) => {
            assert_eq!(
                report.result(),
                Err(Error::Backend { backend: GHA, reason: "upload failed".to_string() })
            );
            assert_eq!(report.counts, counts);
            assert_eq!(report.drains[0], stuck(GHA, "upload failed"));
            assert_eq!(report.drains[1], drained(FLAKEHUB, &["x", "y"]));
            assert_eq!(report.signal, Ok(()));
        }
        other => panic!("unexpected action: {:?}", other),
    }
    assert!(s.backends().is_empty());
}

#[test]
fn finish_returns_the_first_failure_of_several() {
    let mut s = session(true, true);
    let (operation, _) = finish_up_to_drain(&mut s, &[]);
    let (operation, _) = operation
        .step(&mut s, Event::Drained(vec![drained(GHA, &[]), stuck(FLAKEHUB, "timeout")]));
    let (_, action) = operation.step(&mut s, Event::Notified(true));
    match action {
        Action::Reply(Reply::Finished(report)) => {
            assert_eq!(
                report.result(),
                Err(Error::Backend { backend: FLAKEHUB, reason: "timeout".to_string() })
            );
        }
        other => panic!("unexpected action: {:?}", other),
    }
    let mut s = session(true, true);
    let (operation, _) = finish_up_to_drain(&mut s, &[]);
    let (operation, _) = operation
        .step(&mut s, Event::Drained(vec![stuck(GHA, "first"), stuck(FLAKEHUB, "second")]));
    let (_, action) = operation.step(&mut s, Event::Notified(true));
    match action {
        Action::Reply(Reply::Finished(report)) => {
            assert_eq!(
                report.result(),
                Err(Error::Backend { backend: GHA, reason: "first".to_string() })
            );
            assert_eq!(report.drains.len(), 2);
        }
        other => panic!("unexpected action: {:?}", other),
    }
}

#[test]
fn finish_consumes_the_signal_once() {
    let mut s = session(true, false);
    let (operation, action) = finish_up_to_drain(&mut s, &[]);
    assert_eq!(action, Action::Shutdown { backends: vec![GHA] });
    let (operation, action) = operation.step(&mut s, Event::Drained(vec![drained(GHA, &[])]));
    assert_eq!(action, Action::Notify(7));
    assert!(!s.is_armed());
    let (operation, action) = operation.step(&mut s, Event::Notified(true));
    assert!(operation.is_done());
    assert!(matches!(action, Action::Reply(Reply::Finished(_))));

    let (operation, action) = finish_up_to_drain(&mut s, &[]);
    assert!(operation.is_done());
    let counts =
        WorkflowFinishResponse { num_original_paths: 0, num_final_paths: 0, num_new_paths: 0 };
    assert_eq!(
        action,
        Action::Reply(Reply::Finished(FinishReport {
            counts,
            drains: vec![],
            signal: Err(SignalError::AlreadyTaken),
        }))
    );
}

#[test]
fn finish_without_a_listener_still_succeeds() {
    let mut s = session(false, false);
    start(&mut s, &["a"]);
    let (operation, action) = finish_up_to_drain(&mut s, &["a", "b"]);
    assert_eq!(action, Action::Resolve("b".to_string()));
    let (operation, action) = operation.step(&mut s, Event::Resolved(Ok(path("b"))));
    assert_eq!(action, Action::Notify(7));
    let (operation, action) = operation.step(&mut s, Event::Notified(false));
    assert!(operation.is_done());
    let counts =
        WorkflowFinishResponse { num_original_paths: 1, num_final_paths: 2, num_new_paths: 1 };
    match action {
        Action::Reply(Reply::Finished(report)) => {
            assert_eq!(report.signal, Err(SignalError::NoListener));
            assert_eq!(report.result(), Ok(counts));
            assert!(report.drains.is_empty());
        }
        other => panic!("unexpected action: {:?}", other),
    }
}

#[test]
fn finish_with_a_spent_signal_sends_nothing() {
    let mut s: Session<u32> = Session::new(true, false, ShutdownSignal::spent());
    let (operation, _) = finish_up_to_drain(&mut s, &[]);
    let (operation, action) = operation.step(&mut s, Event::Drained(vec![drained(GHA, &[])]));
    assert!(operation.is_done());
    match action {
        Action::Reply(Reply::Finished(report)) => {
            assert_eq!(report.signal, Err(SignalError::AlreadyTaken));
            assert_eq!(report.drains, vec![drained(GHA, &[])]);
        }
        other => panic!("unexpected action: {:?}", other),
    }
}

#[test]
fn finish_that_cannot_list_shuts_nothing_down() {
    let mut s = session(true, true);
    start(&mut s, &["a"]);
    let (operation, action) = workflow_finish(&s);
    assert_eq!(action, Action::Enumerate);
    let (operation, action) =
        operation.step(&mut s, Event::Enumerated(Err("unreadable".to_string())));
    assert!(operation.is_done());
    assert_eq!(
        action,
        Action::Reply(Reply::Failed(Error::Enumeration { reason: "unreadable".to_string() }))
    );
    assert_eq!(s.backends(), &vec![GHA, FLAKEHUB]);
    assert!(s.is_armed());
}

#[test]
fn finish_that_cannot_resolve_shuts_nothing_down() {
    let mut s = session(true, true);
    start(&mut s, &["a"]);
    let (operation, action) = finish_up_to_drain(&mut s, &["a", "b", "c"]);
    assert_eq!(action, Action::Resolve("b".to_string()));
    let (operation, action) = operation.step(&mut s, Event::Resolved(Ok(path("b"))));
    assert_eq!(action, Action::Resolve("c".to_string()));
    let (operation, action) = operation.step(&mut s, Event::Resolved(Err("dangling".to_string())));
    assert!(operation.is_done());
    assert_eq!(
        action,
        Action::Reply(Reply::Failed(Error::Resolution {
            identifier: "c".to_string(),
            reason: "dangling".to_string(),
        }))
    );
    assert_eq!(s.backends(), &vec![GHA, FLAKEHUB]);
    assert!(s.is_armed());
}

#[test]
fn finish_ends_when_a_backend_rejects_the_new_paths() {
    let mut s = session(true, true);
    let (operation, action) = finish_up_to_drain(&mut s, &["n"]);
    assert_eq!(action, Action::Resolve("n".to_string()));
    let (operation, action) = operation.step(&mut s, Event::Resolved(Ok(path("n"))));
    assert_eq!(
        action,
        Action::Enqueue { backends: vec![GHA, FLAKEHUB], store_paths: paths(&["n"]) }
    );
    let (operation, action) = operation
        .step(&mut s, Event::Accepted(vec![accepted(GHA), rejected(FLAKEHUB, "full")]));
    assert!(operation.is_done());
    assert_eq!(
        action,
        Action::Reply(Reply::Failed(Error::Backend {
            backend: FLAKEHUB,
            reason: "full".to_string(),
        }))
    );
    assert_eq!(s.backends(), &vec![GHA, FLAKEHUB]);
    assert!(s.is_armed());
}

#[test]
fn finish_reads_the_snapshot_when_it_begins() {
    let mut s = session(false, false);
    start(&mut s, &["a"]);
    let (operation, _) = workflow_finish(&s);
    start(&mut s, &["a", "b"]);
    let (_, action) = operation.step(&mut s, Event::Enumerated(Ok(paths(&["a", "b"]))));
    assert_eq!(action, Action::Resolve("b".to_string()));
}

#[test]
fn finish_hands_new_paths_over_in_listing_order() {
    let mut s = session(true, false);
    start(&mut s, &["m"]);
    let (operation, action) = finish_up_to_drain(&mut s, &["z", "m", "y", "z", "x"]);
    assert_eq!(action, Action::Resolve("z".to_string()));
    let (operation, action) = operation.step(&mut s, Event::Resolved(Ok(path("Z"))));
    assert_eq!(action, Action::Resolve("y".to_string()));
    let (operation, action) = operation.step(&mut s, Event::Resolved(Ok(path("Y"))));
    assert_eq!(action, Action::Resolve("x".to_string()));
    let (operation, action) = operation.step(&mut s, Event::Resolved(Ok(path("X"))));
    assert_eq!(action, Action::Enqueue { backends: vec![GHA], store_paths: paths(&["Z", "Y", "X"]) });
    let (operation, action) = operation.step(&mut s, Event::Accepted(vec![accepted(GHA)]));
    assert_eq!(action, Action::Shutdown { backends: vec![GHA] });
    let (operation, action) = operation.step(&mut s, Event::Drained(vec![drained(GHA, &[])]));
    assert_eq!(action, Action::Notify(7));
    let (_, action) = operation.step(&mut s, Event::Notified(true));
    match action {
        Action::Reply(Reply::Finished(report)) => {
            assert_eq!(
                report.counts,
                WorkflowFinishResponse {
                    num_original_paths: 1,
                    num_final_paths: 4,
                    num_new_paths: 3,
                }
            );
        }
        other => panic!("unexpected action: {:?}", other),
    }
}

#[test]
fn drains_for_other_backends_are_ignored() {
    let mut s = session(true, true);
    let (operation, action) = finish_up_to_drain(&mut s, &[]);
    assert_eq!(action, Action::Shutdown { backends: vec![GHA, FLAKEHUB] });
    let (operation, action) = operation.step(&mut s, Event::Drained(vec![drained(GHA, &[])]));
    assert_eq!(action, Action::Ignore);
    let (operation, action) = operation
        .step(&mut s, Event::Drained(vec![drained(FLAKEHUB, &[]), drained(GHA, &[])]));
    assert_eq!(action, Action::Ignore);
    assert!(s.is_armed());
    let (_, action) = operation
        .step(&mut s, Event::Drained(vec![drained(GHA, &[]), drained(FLAKEHUB, &[])]));
    assert_eq!(action, Action::Notify(7));
}

#[test]
fn backends_get_nothing_after_their_shutdown() {
    let mut s = session(true, true);
    let (operation, _) = finish_up_to_drain(&mut s, &[]);
    let (operation, _) = operation
        .step(&mut s, Event::Drained(vec![drained(GHA, &[]), drained(FLAKEHUB, &[])]));
    let (operation, _) = operation.step(&mut s, Event::Notified(true));
    assert!(operation.is_done());
    let (operation, action) = enqueue_paths(&s, paths(&["late"]));
    assert!(operation.is_done());
    assert_eq!(action, Action::Reply(Reply::Enqueued(EnqueuePathsResponse {})));
}

#[test]
fn start_sets_the_gauge_of_original_paths() {
    let reply = Reply::Started(WorkflowStartResponse { num_original_paths: 2 });
    assert_eq!(reply.gauges(), vec![(Gauge::NumOriginalPaths, 2)]);
}

#[test]
fn finish_sets_all_three_gauges() {
    let counts =
        WorkflowFinishResponse { num_original_paths: 2, num_final_paths: 5, num_new_paths: 3 };
    let reply = Reply::Finished(FinishReport {
        counts,
        drains: vec![drained(GHA, &["c"]), drained(FLAKEHUB, &[])],
        signal: Err(SignalError::NoListener),
    });
    assert_eq!(
        reply.gauges(),
        vec![(Gauge::NumOriginalPaths, 2), (Gauge::NumFinalPaths, 5), (Gauge::NumNewPaths, 3)]
    );
}

#[test]
fn failures_set_no_gauge() {
    let counts =
        WorkflowFinishResponse { num_original_paths: 2, num_final_paths: 5, num_new_paths: 3 };
    let reply = Reply::Finished(FinishReport {
        counts,
        drains: vec![drained(GHA, &["c"]), stuck(FLAKEHUB, "timeout")],
        signal: Ok(()),
    });
    assert_eq!(reply.gauges(), vec![]);
    let reply = Reply::Failed(Error::Enumeration { reason: "unreadable".to_string() });
    assert_eq!(reply.gauges(), vec![]);
    let reply = Reply::Failed(Error::Resolution {
        identifier: "a".to_string(),
        reason: "no such path".to_string(),
    });
    assert_eq!(reply.gauges(), vec![]);
    let reply = Reply::Failed(Error::Backend { backend: GHA, reason: "quota".to_string() });
    assert_eq!(reply.gauges(), vec![]);
    let reply = Reply::Enqueued(EnqueuePathsResponse {});
    assert_eq!(reply.gauges(), vec![]);
}

#[test]
fn request_can_be_copied() {
    let req = request(&["a", "b", "a"]);
    assert_eq!(req.clone(), req);
    assert_eq!(req.clone().store_paths, vec!["a".to_string(), "b".to_string(), "a".to_string()]);
    assert_eq!(request(&[]).clone(), request(&[]));
}
