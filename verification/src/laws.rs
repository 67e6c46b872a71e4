//! What holds of every session, whatever the store, the backends and the
//! driver do.

use crate::error::ErrorView;
use crate::session::SessionView;
use crate::snapshot::{fresh, lemma_fresh_is_difference, lemma_fresh_no_duplicates};
use crate::counts::{Counts, Gauge};
use crate::signal::SignalError;
use crate::workflow::{
    accepting_backends, counted, diffed, drain, drained_backends, failed, fan_out, finish,
    finishing_events, first_failure, first_rejection, observed, outcome, resolve, run, start,
    step, AcceptanceView, ActionView, DrainView, EventView, FinishReportView, OperationView,
    ReplyView, Transition,
};
use vstd::prelude::*;

verus! {

/// The paths that a finishing workflow takes for new are exactly those that
/// the store lists and the snapshot lacks: none of them is in the snapshot,
/// each of them is listed, none comes twice, and they are counted as many as
/// they are.
pub proof fn law_new_paths_are_the_difference(original: Set<Seq<char>>, listed: Seq<Seq<char>>)
    ensures
        fresh(original, listed).to_set() == listed.to_set().difference(original),
        fresh(original, listed).to_set().disjoint(original),
        fresh(original, listed).to_set().subset_of(listed.to_set()),
        fresh(original, listed).no_duplicates(),
        counted(original, listed).num_new_paths == listed.to_set().difference(original).len(),
{
    lemma_fresh_is_difference(original, listed);
    lemma_fresh_no_duplicates(original, listed);
}

/// A workflow start replaces the live snapshot with the store's listing.
/// Starting twice leaves the second listing alone, never both together; a
/// listing that fails leaves the snapshot as it was.
pub proof fn law_start_replaces_the_snapshot<T>(
    session: SessionView<T>,
    first: Seq<Seq<char>>,
    second: Seq<Seq<char>>,
    reason: Seq<char>,
)
    ensures
        ({
            let begun = start(session);
            let once = step(begun.operation, begun.session, EventView::Enumerated(Ok(first)));
            let again = start(once.session);
            let twice = step(again.operation, again.session, EventView::Enumerated(Ok(second)));
            let failing = step(again.operation, again.session, EventView::Enumerated(Err(reason)));
            &&& once.session.original_paths == first.to_set()
            &&& once.action == ActionView::<T>::Reply(
                ReplyView::Started { num_original_paths: first.to_set().len() },
            )
            &&& twice.session.original_paths == second.to_set()
            &&& twice.action == ActionView::<T>::Reply(
                ReplyView::Started { num_original_paths: second.to_set().len() },
            )
            &&& failing.session == once.session
            &&& failing.action == ActionView::<T>::Reply(
                ReplyView::Failed(ErrorView::Enumeration { reason }),
            )
        }),
{
}

/// The live snapshot is replaced as a whole, by the listing of a workflow
/// that starts, and is changed by nothing else: not by an enqueue request,
/// and not by a workflow that finishes, which only reads it.
pub proof fn law_only_a_start_replaces_the_snapshot<T>(
    operation: OperationView,
    session: SessionView<T>,
    event: EventView,
)
    ensures
        ({
            let next = step(operation, session, event);
            ||| next.session.original_paths == session.original_paths
            ||| {
                &&& operation == (OperationView::Enumerating { original: None })
                &&& event matches EventView::Enumerated(Ok(listed))
                &&& next.session.original_paths == listed.to_set()
            }
        }),
{
}

/// An enqueue request without paths is over at once, in success: no
/// backend is handed anything, and the session stays as it is.
pub proof fn law_empty_request_is_a_no_op<T>(session: SessionView<T>)
    ensures
        resolve(session, Seq::empty(), None) == (Transition {
            operation: OperationView::Done,
            session,
            action: ActionView::Reply(ReplyView::Enqueued),
        }),
        fan_out(session, Seq::empty(), None) == resolve(session, Seq::empty(), None),
{
}

/// Every move leaves the operation well formed, and so does every
/// beginning.
pub proof fn law_moves_are_well_formed<T>(
    operation: OperationView,
    session: SessionView<T>,
    event: EventView,
    identifiers: Seq<Seq<char>>,
    store_paths: Seq<Seq<char>>,
)
    requires
        operation.well_formed(),
    ensures
        step(operation, session, event).operation.well_formed(),
        start(session).operation.well_formed(),
        finish(session).operation.well_formed(),
        resolve(session, identifiers, None).operation.well_formed(),
        fan_out(session, store_paths, None).operation.well_formed(),
{
}

/// `run` has one move more than there are events, begins with the first
/// move, and each later move is the step that the event before it causes.
pub proof fn lemma_run_unfolds<T>(first: Transition<T>, events: Seq<EventView>)
    ensures
        run(first, events).len() == events.len() + 1,
        run(first, events)[0] == first,
        forall|i: int|
            0 <= i < events.len() ==> #[trigger] run(first, events)[i + 1] == step(
                run(first, events)[i].operation,
                run(first, events)[i].session,
                events[i],
            ),
        forall|i: int|
            0 <= i < events.len() ==> #[trigger] run(first, events)[i] == run(
                first,
                events.drop_last(),
            )[i],
    decreases events.len(),
{
    if events.len() > 0 {
        lemma_run_unfolds(first, events.drop_last());
    }
}

/// Once an operation is over, every event is ignored and nothing changes.
pub proof fn law_nothing_follows_the_reply<T>(session: SessionView<T>, event: EventView)
    ensures
        step(OperationView::Done, session, event) == (Transition {
            operation: OperationView::Done,
            session,
            action: ActionView::Ignore,
        }),
{
}

/// Resolution fails fast, and as a whole. If, of the identifiers of an
/// enqueue request or of the new paths of a finishing workflow, the first
/// `failing` resolve and the next one does not, then the operation ends
/// there with the error that names that identifier, and whatever the driver
/// reports afterwards: no backend is handed a path, none is shut down, the
/// shutdown signal is not consumed, and the session stays as it was.
pub proof fn law_failed_resolution_hands_nothing_over<T>(
    session: SessionView<T>,
    identifiers: Seq<Seq<char>>,
    finish: Option<Counts>,
    events: Seq<EventView>,
    failing: int,
)
    requires
        0 <= failing < identifiers.len(),
        failing < events.len(),
        forall|i: int| 0 <= i < failing ==> #[trigger] events[i] matches EventView::Resolved(Ok(_)),
        events[failing] matches EventView::Resolved(Err(_)),
    ensures
        ({
            let moves = run(resolve(session, identifiers, finish), events);
            &&& moves.len() == events.len() + 1
            &&& forall|j: int|
                0 <= j < moves.len() ==> {
                    &&& !((#[trigger] moves[j]).action is Enqueue)
                    &&& !(moves[j].action is Shutdown)
                    &&& !(moves[j].action is Notify)
                    &&& moves[j].session == session
                }
            &&& forall|j: int|
                0 <= j <= failing ==> (#[trigger] moves[j]).action == ActionView::<T>::Resolve(
                    identifiers[j],
                )
            &&& moves[failing + 1].action == ActionView::<T>::Reply(
                ReplyView::Failed(
                    ErrorView::Resolution {
                        identifier: identifiers[failing],
                        reason: events[failing]->Resolved_0->Err_0,
                    },
                ),
            )
            &&& forall|j: int| failing + 1 < j < moves.len() ==> (#[trigger] moves[j]).action is Ignore
        }),
{
    lemma_run_unfolds(resolve(session, identifiers, finish), events);
    lemma_resolution_so_far(session, identifiers, finish, events, failing, events.len() as int);
}

/// How far the operation of `law_failed_resolution_hands_nothing_over` has
/// come after `told` events.
proof fn lemma_resolution_so_far<T>(
    session: SessionView<T>,
    identifiers: Seq<Seq<char>>,
    finish: Option<Counts>,
    events: Seq<EventView>,
    failing: int,
    told: int,
)
    requires
        0 <= failing < identifiers.len(),
        failing < events.len(),
        forall|i: int| 0 <= i < failing ==> #[trigger] events[i] matches EventView::Resolved(Ok(_)),
        events[failing] matches EventView::Resolved(Err(_)),
        0 <= told <= events.len(),
    ensures
        ({
            let moves = run(resolve(session, identifiers, finish), events);
            forall|j: int|
                0 <= j <= told ==> {
                    &&& (#[trigger] moves[j]).session == session
                    &&& j <= failing ==> {
                        &&& moves[j].action == ActionView::<T>::Resolve(identifiers[j])
                        &&& moves[j].operation matches OperationView::Resolving {
                            pending,
                            resolved,
                            finish: carried,
                        }
                        &&& pending == identifiers
                        &&& resolved.len() == j
                        &&& carried == finish
                    }
                    &&& j == failing + 1 ==> {
                        &&& moves[j].action == ActionView::<T>::Reply(
                            ReplyView::Failed(
                                ErrorView::Resolution {
                                    identifier: identifiers[failing],
                                    reason: events[failing]->Resolved_0->Err_0,
                                },
                            ),
                        )
                        &&& moves[j].operation is Done
                    }
                    &&& j > failing + 1 ==> {
                        &&& moves[j].action is Ignore
                        &&& moves[j].operation is Done
                    }
                }
        }),
    decreases told,
{
    let first = resolve(session, identifiers, finish);
    let moves = run(first, events);
    lemma_run_unfolds(first, events);
    if told > 0 {
        lemma_resolution_so_far(session, identifiers, finish, events, failing, told - 1);
        let before = moves[told - 1];
        assert(moves[(told - 1) + 1] == step(before.operation, before.session, events[told - 1]));
    }
}

/// When every identifier resolves, the canonical paths go on together, in
/// the order of their identifiers and unchanged: to every active backend if
/// there is one, and to nobody before the last of them has resolved.
pub proof fn law_resolved_batch_goes_on_whole<T>(
    session: SessionView<T>,
    identifiers: Seq<Seq<char>>,
    paths: Seq<Seq<char>>,
    finish: Option<Counts>,
)
    requires
        identifiers.len() == paths.len(),
        paths.len() > 0,
    ensures
        ({
            let events = paths.map_values(|path: Seq<char>| EventView::Resolved(Ok(path)));
            let moves = run(resolve(session, identifiers, finish), events);
            &&& moves.len() == paths.len() + 1
            &&& forall|j: int|
                0 <= j < paths.len() ==> {
                    &&& (#[trigger] moves[j]).action == ActionView::<T>::Resolve(identifiers[j])
                    &&& moves[j].session == session
                }
            &&& moves[paths.len() as int] == fan_out(session, paths, finish)
            &&& session.backends.len() > 0 ==> moves[paths.len() as int].action == (
            ActionView::<T>::Enqueue { backends: session.backends, store_paths: paths })
        }),
{
    let events = paths.map_values(|path: Seq<char>| EventView::Resolved(Ok(path)));
    let first = resolve(session, identifiers, finish);
    let moves = run(first, events);
    lemma_run_unfolds(first, events);
    assert forall|j: int| 0 <= j <= paths.len() implies {
        &&& j < paths.len() ==> (#[trigger] moves[j]).action == ActionView::<T>::Resolve(
            identifiers[j],
        ) && moves[j].session == session
        &&& j == paths.len() ==> moves[j] == fan_out(session, paths, finish)
    } by {
        lemma_resolving_moves(moves, events, 0, session, identifiers, paths, finish, j);
    }
}

/// The identifiers of an operation resolve one after the other: within any
/// sequence of moves in which each follows from the one before, an operation
/// that begins to resolve at `base` and is told one canonical path after the
/// other asks for each identifier in turn, and passes the batch on with the
/// last of them.
proof fn lemma_resolving_moves<T>(
    moves: Seq<Transition<T>>,
    events: Seq<EventView>,
    base: int,
    session: SessionView<T>,
    pending: Seq<Seq<char>>,
    paths: Seq<Seq<char>>,
    finish: Option<Counts>,
    told: int,
)
    requires
        0 <= base,
        base + paths.len() < moves.len(),
        moves.len() == events.len() + 1,
        forall|i: int|
            0 <= i < events.len() ==> #[trigger] moves[i + 1] == step(
                moves[i].operation,
                moves[i].session,
                events[i],
            ),
        pending.len() == paths.len(),
        paths.len() > 0,
        moves[base] == resolve(session, pending, finish),
        forall|j: int|
            0 <= j < paths.len() ==> #[trigger] events[base + j] == EventView::Resolved(
                Ok(paths[j]),
            ),
        0 <= told <= paths.len(),
    ensures
        told < paths.len() ==> moves[base + told] == (Transition {
            operation: OperationView::Resolving { pending, resolved: paths.take(told), finish },
            session,
            action: ActionView::Resolve(pending[told]),
        }),
        told == paths.len() ==> moves[base + told] == fan_out(session, paths, finish),
    decreases told,
{
    if told == 0 {
        assert(paths.take(0) =~= Seq::<Seq<char>>::empty());
    } else {
        lemma_resolving_moves(moves, events, base, session, pending, paths, finish, told - 1);
        let before = moves[base + told - 1];
        assert(moves[(base + told - 1) + 1] == step(
            before.operation,
            before.session,
            events[base + told - 1],
        ));
        assert(paths.take(told - 1).push(paths[told - 1]) =~= paths.take(told));
        assert(paths.take(paths.len() as int) =~= paths);
    }
}

/// The backends' answers to a batch are taken together: the request succeeds
/// if every backend accepted, and fails with the error of the first, in
/// order, that did not. Either way the session stays as it is.
pub proof fn law_first_rejection_is_returned<T>(
    session: SessionView<T>,
    answers: Seq<AcceptanceView>,
)
    ensures
        ({
            let waiting = OperationView::Accepting {
                awaited: accepting_backends(answers),
                finish: None,
            };
            let next = step(waiting, session, EventView::Accepted(answers));
            &&& next.session == session
            &&& next.operation is Done
            &&& (forall|i: int| 0 <= i < answers.len() ==> (#[trigger] answers[i]).outcome is Ok)
                ==> next.action == ActionView::<T>::Reply(ReplyView::Enqueued)
            &&& forall|i: int|
                {
                    &&& 0 <= i < answers.len()
                    &&& (#[trigger] answers[i]).outcome is Err
                    &&& forall|j: int| 0 <= j < i ==> (#[trigger] answers[j]).outcome is Ok
                } ==> next.action == ActionView::<T>::Reply(
                    ReplyView::Failed(
                        ErrorView::Backend {
                            backend: answers[i].backend,
                            reason: answers[i].outcome->Err_0,
                        },
                    ),
                )
        }),
{
    lemma_first_rejection(answers);
}

/// The first rejection is the rejection of the first backend, in order,
/// that did not accept the batch; there is none only if every backend did.
pub proof fn lemma_first_rejection(answers: Seq<AcceptanceView>)
    ensures
        match first_rejection(answers) {
            None => forall|i: int| 0 <= i < answers.len() ==> (#[trigger] answers[i]).outcome is Ok,
            Some(error) => exists|i: int|
                {
                    &&& 0 <= i < answers.len()
                    &&& (#[trigger] answers[i]).outcome matches Err(reason)
                    &&& error == (ErrorView::Backend { backend: answers[i].backend, reason })
                    &&& forall|j: int| 0 <= j < i ==> (#[trigger] answers[j]).outcome is Ok
                },
        },
    decreases answers.len(),
{
    if answers.len() > 0 {
        let rest = answers.skip(1);
        lemma_first_rejection(rest);
        if answers[0].outcome is Ok {
            match first_rejection(rest) {
                None => {
                    assert forall|i: int| 0 <= i < answers.len() implies (#[trigger] answers[i]).outcome is Ok by {
                        if i > 0 {
                            assert(rest[i - 1] == answers[i]);
                        }
                    }
                },
                Some(error) => {
                    let i = choose|i: int|
                        {
                            &&& 0 <= i < rest.len()
                            &&& (#[trigger] rest[i]).outcome matches Err(reason)
                            &&& error == (ErrorView::Backend { backend: rest[i].backend, reason })
                            &&& forall|j: int| 0 <= j < i ==> (#[trigger] rest[j]).outcome is Ok
                        };
                    assert forall|j: int| 0 <= j < i + 1 implies (#[trigger] answers[j]).outcome is Ok by {
                        if j > 0 {
                            assert(rest[j - 1] == answers[j]);
                        }
                    }
                },
            }
        }
    }
}

/// Shutting down is best effort and complete. Every active backend is in the
/// one action that triggers the shutdown, before any of them has answered.
/// The report then holds the answer of each of them, whether it drained or
/// failed, and the workflow returns the error of the first, in order, that
/// failed, or its counts if none did.
pub proof fn law_every_drain_is_reported<T>(
    session: SessionView<T>,
    counts: Counts,
    answers: Seq<DrainView>,
    delivered: bool,
)
    requires
        session.backends.len() > 0,
        drained_backends(answers) == session.backends,
    ensures
        ({
            let triggered = drain(session, counts);
            let drained = step(
                triggered.operation,
                triggered.session,
                EventView::Drained(answers),
            );
            let last = if session.signal is Some {
                step(drained.operation, drained.session, EventView::Notified(delivered))
            } else {
                drained
            };
            &&& triggered.action == ActionView::<T>::Shutdown { backends: session.backends }
            &&& last.operation is Done
            &&& last.action matches ActionView::Reply(ReplyView::Finished(report))
            &&& report.drains == answers
            &&& report.counts == counts
            &&& (forall|i: int| 0 <= i < answers.len() ==> (#[trigger] answers[i]).outcome is Ok)
                ==> outcome(report) == Ok::<Counts, ErrorView>(counts)
            &&& forall|i: int|
                {
                    &&& 0 <= i < answers.len()
                    &&& (#[trigger] answers[i]).outcome is Err
                    &&& forall|j: int| 0 <= j < i ==> (#[trigger] answers[j]).outcome is Ok
                } ==> outcome(report) == Err::<Counts, ErrorView>(
                    ErrorView::Backend {
                        backend: answers[i].backend,
                        reason: answers[i].outcome->Err_0,
                    },
                )
        }),
{
    lemma_first_failure(answers);
}

/// The first failure is the failure of the first backend, in order, that
/// did not drain; there is none only if every backend drained.
pub proof fn lemma_first_failure(drains: Seq<DrainView>)
    ensures
        match first_failure(drains) {
            None => forall|i: int| 0 <= i < drains.len() ==> (#[trigger] drains[i]).outcome is Ok,
            Some(error) => exists|i: int|
                {
                    &&& 0 <= i < drains.len()
                    &&& (#[trigger] drains[i]).outcome matches Err(reason)
                    &&& error == (ErrorView::Backend { backend: drains[i].backend, reason })
                    &&& forall|j: int| 0 <= j < i ==> (#[trigger] drains[j]).outcome is Ok
                },
        },
    decreases drains.len(),
{
    if drains.len() > 0 {
        let rest = drains.skip(1);
        lemma_first_failure(rest);
        if drains[0].outcome is Ok {
            match first_failure(rest) {
                None => {
                    assert forall|i: int| 0 <= i < drains.len() implies (#[trigger] drains[i]).outcome is Ok by {
                        if i > 0 {
                            assert(rest[i - 1] == drains[i]);
                        }
                    }
                },
                Some(error) => {
                    let i = choose|i: int|
                        {
                            &&& 0 <= i < rest.len()
                            &&& (#[trigger] rest[i]).outcome matches Err(reason)
                            &&& error == (ErrorView::Backend { backend: rest[i].backend, reason })
                            &&& forall|j: int| 0 <= j < i ==> (#[trigger] rest[j]).outcome is Ok
                        };
                    assert forall|j: int| 0 <= j < i + 1 implies (#[trigger] drains[j]).outcome is Ok by {
                        if j > 0 {
                            assert(rest[j - 1] == drains[j]);
                        }
                    }
                },
            }
        }
    }
}

/// No operation begins by touching the session: the first thing that a
/// workflow start, a workflow finish or an enqueue request asks for is
/// neither a shutdown nor the notification, and the session is as it was.
pub proof fn law_beginnings_leave_the_session<T>(
    session: SessionView<T>,
    identifiers: Seq<Seq<char>>,
    store_paths: Seq<Seq<char>>,
)
    ensures
        start(session).session == session,
        start(session).action == ActionView::<T>::Enumerate,
        finish(session).session == session,
        finish(session).action == ActionView::<T>::Enumerate,
        resolve(session, identifiers, None).session == session,
        !(resolve(session, identifiers, None).action is Shutdown),
        !(resolve(session, identifiers, None).action is Notify),
        fan_out(session, store_paths, None).session == session,
        !(fan_out(session, store_paths, None).action is Shutdown),
        !(fan_out(session, store_paths, None).action is Notify),
{
}

/// The shutdown signal is consumed at most once. A move that hands out the
/// notifier takes it from the session, which then holds none; a session that
/// holds none never gets one back, and no move from it hands one out.
pub proof fn law_signal_is_consumed_at_most_once<T>(
    operation: OperationView,
    session: SessionView<T>,
    event: EventView,
)
    ensures
        ({
            let next = step(operation, session, event);
            &&& next.action matches ActionView::Notify(notifier) ==> session.signal == Some(
                notifier,
            ) && next.session.signal is None
            &&& !(next.action is Notify) ==> next.session.signal == session.signal
            &&& session.signal is None ==> !(next.action is Notify)
        }),
{
}

/// In the whole of an operation the driver is asked at most once to send the
/// shutdown notification. (No operation begins with that request.)
pub proof fn law_one_notification_at_most<T>(
    first: Transition<T>,
    events: Seq<EventView>,
    earlier: int,
    later: int,
)
    requires
        !(first.action is Notify),
        0 <= earlier < later <= events.len(),
        run(first, events)[earlier].action is Notify,
    ensures
        !(run(first, events)[later].action is Notify),
{
    lemma_run_unfolds(first, events);
    lemma_signal_stays_consumed(first, events, earlier, later);
}

/// After the notifier was handed out, the session holds none.
proof fn lemma_signal_stays_consumed<T>(
    first: Transition<T>,
    events: Seq<EventView>,
    earlier: int,
    later: int,
)
    requires
        !(first.action is Notify),
        0 <= earlier <= later <= events.len(),
        run(first, events)[earlier].action is Notify,
    ensures
        run(first, events)[later].session.signal is None,
        earlier < later ==> !(run(first, events)[later].action is Notify),
    decreases later - earlier,
{
    let moves = run(first, events);
    lemma_run_unfolds(first, events);
    if earlier == later {
        let before = moves[earlier - 1];
        assert(moves[(earlier - 1) + 1] == step(
            before.operation,
            before.session,
            events[earlier - 1],
        ));
        law_signal_is_consumed_at_most_once(before.operation, before.session, events[earlier - 1]);
    } else {
        lemma_signal_stays_consumed(first, events, earlier, later - 1);
        let before = moves[later - 1];
        assert(moves[(later - 1) + 1] == step(before.operation, before.session, events[later - 1]));
        law_signal_is_consumed_at_most_once(before.operation, before.session, events[later - 1]);
    }
}

/// No backend is shut down twice, and none is handed a batch after its
/// shutdown. A move that triggers the shutdown names every active backend
/// and leaves the session with none; every other move leaves the backends as
/// they are; and a batch goes to exactly the backends that are active.
pub proof fn law_backends_are_shut_down_once<T>(
    operation: OperationView,
    session: SessionView<T>,
    event: EventView,
)
    ensures
        ({
            let next = step(operation, session, event);
            &&& next.action matches ActionView::Shutdown { backends } ==> {
                &&& backends == session.backends
                &&& backends.len() > 0
                &&& next.session.backends.len() == 0
            }
            &&& !(next.action is Shutdown) ==> next.session.backends == session.backends
            &&& next.action matches ActionView::Enqueue { backends, store_paths } ==> {
                &&& backends == session.backends
                &&& backends.len() > 0
                &&& store_paths.len() > 0
            }
        }),
{
}

/// A finishing workflow whose listing fails ends there: the error is the
/// listing's, and the session stays as it was, with its backends and its
/// signal.
pub proof fn law_failed_listing_changes_nothing<T>(session: SessionView<T>, reason: Seq<char>)
    ensures
        ({
            let begun = finish(session);
            let next = step(begun.operation, begun.session, EventView::Enumerated(Err(reason)));
            &&& begun.action == ActionView::<T>::Enumerate
            &&& begun.session == session
            &&& next == failed(session, ErrorView::Enumeration { reason })
            &&& next.session == session
        }),
{
}

/// A finishing workflow compares the store with the snapshot that was live
/// when it began: the identifiers that it resolves are the new paths, and a
/// store that lists nothing new has the empty batch go on at once.
pub proof fn law_finish_resolves_the_new_paths<T>(session: SessionView<T>, listed: Seq<Seq<char>>)
    ensures
        ({
            let begun = finish(session);
            let next = step(begun.operation, begun.session, EventView::Enumerated(Ok(listed)));
            let new_paths = fresh(session.original_paths, listed);
            let counts = counted(session.original_paths, listed);
            &&& next == diffed(session, session.original_paths, listed)
            &&& new_paths.len() > 0 ==> next == (Transition {
                operation: OperationView::Resolving {
                    pending: new_paths,
                    resolved: Seq::empty(),
                    finish: Some(counts),
                },
                session,
                action: ActionView::Resolve(new_paths[0]),
            })
            &&& new_paths.len() == 0 ==> next == drain(session, counts)
        }),
{
}

/// A workflow finishes in order. With new paths in the store, active
/// backends that accept them and an armed signal, the driver is asked, one
/// thing after the other: to list the store; to resolve each new path; to
/// hand the resolved batch to the backends; to shut them down; to send the
/// shutdown notification; and then it has the report, with the counts and
/// with every backend's answer. The session is untouched until the backends
/// are shut down; at the end it has no active backend and a consumed signal,
/// and its snapshot is the one it had.
pub proof fn law_finish_runs_in_order<T>(
    session: SessionView<T>,
    listed: Seq<Seq<char>>,
    resolved: Seq<Seq<char>>,
    answers: Seq<AcceptanceView>,
    drains: Seq<DrainView>,
    delivered: bool,
)
    requires
        resolved.len() == fresh(session.original_paths, listed).len(),
        resolved.len() > 0,
        session.backends.len() > 0,
        session.signal is Some,
        accepting_backends(answers) == session.backends,
        forall|i: int| 0 <= i < answers.len() ==> (#[trigger] answers[i]).outcome is Ok,
        drained_backends(drains) == session.backends,
    ensures
        ({
            let new_paths = fresh(session.original_paths, listed);
            let many = new_paths.len() as int;
            let events = finishing_events(listed, resolved, answers, drains, delivered);
            let moves = run(finish(session), events);
            &&& moves.len() == many + 5
            &&& moves[0].action == ActionView::<T>::Enumerate
            &&& forall|j: int|
                0 <= j < many ==> (#[trigger] moves[1 + j]).action == ActionView::<T>::Resolve(
                    new_paths[j],
                )
            &&& moves[many + 1].action == (ActionView::<T>::Enqueue {
                backends: session.backends,
                store_paths: resolved,
            })
            &&& forall|j: int| 0 <= j <= many + 1 ==> (#[trigger] moves[j]).session == session
            &&& moves[many + 2].action == (ActionView::<T>::Shutdown { backends: session.backends })
            &&& moves[many + 3].action == ActionView::Notify(session.signal->0)
            &&& moves[many + 4].action == ActionView::<T>::Reply(
                ReplyView::Finished(
                    FinishReportView {
                        counts: counted(session.original_paths, listed),
                        drains,
                        signal: if delivered {
                            Ok(())
                        } else {
                            Err(SignalError::NoListener)
                        },
                    },
                ),
            )
            &&& moves[many + 4].operation is Done
            &&& moves[many + 4].session == (SessionView::<T> {
                original_paths: session.original_paths,
                backends: Seq::empty(),
                signal: None,
            })
        }),
{
    let new_paths = fresh(session.original_paths, listed);
    let many = new_paths.len() as int;
    let counts = counted(session.original_paths, listed);
    let events = finishing_events(listed, resolved, answers, drains, delivered);
    let moves = run(finish(session), events);
    lemma_run_unfolds(finish(session), events);
    // The listing arrives, and resolution begins.
    assert(moves[0int + 1] == step(moves[0].operation, moves[0].session, events[0]));
    assert(moves[1] == resolve(session, new_paths, Some(counts)));
    // Each new path resolves, and the batch goes to the backends.
    assert forall|j: int| 0 <= j < many implies #[trigger] events[1 + j] == EventView::Resolved(
        Ok(resolved[j]),
    ) by {}
    assert forall|j: int| 0 <= j <= many implies {
        &&& j < many ==> (#[trigger] moves[1 + j]).action == ActionView::<T>::Resolve(new_paths[j])
        &&& moves[1 + j].session == session
        &&& j == many ==> moves[1 + j] == fan_out(session, resolved, Some(counts))
    } by {
        lemma_resolving_moves(moves, events, 1, session, new_paths, resolved, Some(counts), j);
    }
    assert forall|j: int| 0 <= j <= many + 1 implies (#[trigger] moves[j]).session == session by {
        if j > 0 {
            assert(moves[1 + (j - 1)].session == session);
        }
    }
    // The backends accept it, and are shut down.
    let handing = moves[many + 1];
    lemma_first_rejection(answers);
    assert(moves[(many + 1) + 1] == step(handing.operation, handing.session, events[many + 1]));
    assert(moves[many + 2] == drain(session, counts));
    // They answer, the notification goes out, and the report is there.
    let draining = moves[many + 2];
    assert(moves[(many + 2) + 1] == step(draining.operation, draining.session, events[many + 2]));
    let notifying = moves[many + 3];
    assert(moves[(many + 3) + 1] == step(notifying.operation, notifying.session, events[many + 3]));
}

/// Gauges are set on success alone. A workflow start reports the size of the
/// new snapshot and a workflow that finished its three counts; an operation
/// that failed, or a workflow of which a backend failed to drain, reports
/// nothing.
pub proof fn law_failures_set_no_gauge(
    error: ErrorView,
    counts: Counts,
    drains: Seq<DrainView>,
    signal: Result<(), SignalError>,
)
    ensures
        observed(ReplyView::Failed(error)) == Seq::<(Gauge, nat)>::empty(),
        observed(ReplyView::Enqueued) == Seq::<(Gauge, nat)>::empty(),
        ({
            let reply = ReplyView::Finished(
                FinishReportView { counts, drains, signal },
            );
            if forall|i: int| 0 <= i < drains.len() ==> (#[trigger] drains[i]).outcome is Ok {
                observed(reply) == seq![
                    (Gauge::NumOriginalPaths, counts.num_original_paths),
                    (Gauge::NumFinalPaths, counts.num_final_paths),
                    (Gauge::NumNewPaths, counts.num_new_paths),
                ]
            } else {
                observed(reply) == Seq::<(Gauge, nat)>::empty()
            }
        }),
{
    lemma_first_failure(drains);
}

} // verus!
