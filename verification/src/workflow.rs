//! The workflow as mathematics: what an operation is, what it asks of its
//! driver, and how it moves when the driver answers.
//!
//! An operation never acts by itself. It hands its driver one [`ActionView`]
//! at a time, the driver performs it and reports an [`EventView`], and
//! [`step`] says where that leads. The executable operations of
//! [`crate::api`] compute exactly this function.

use crate::backend::BackendKind;
use crate::counts::{Counts, Gauge};
use crate::error::ErrorView;
use crate::session::SessionView;
use crate::signal::{consumed, left, SignalError};
use crate::snapshot::fresh;
use vstd::prelude::*;

verus! {

/// One backend's answer to a batch.
pub struct AcceptanceView {
    pub backend: BackendKind,
    pub outcome: Result<(), Seq<char>>,
}

/// One backend's answer to its shutdown: the paths that it uploaded, or why
/// it could not drain.
pub struct DrainView {
    pub backend: BackendKind,
    pub outcome: Result<Seq<Seq<char>>, Seq<char>>,
}

/// What the driver reports.
pub enum EventView {
    /// The store was listed, or could not be.
    Enumerated(Result<Seq<Seq<char>>, Seq<char>>),
    /// The identifier last asked for was resolved, or could not be.
    Resolved(Result<Seq<char>, Seq<char>>),
    /// Every backend that was handed the batch has answered.
    Accepted(Seq<AcceptanceView>),
    /// Every backend that was shut down has drained or failed.
    Drained(Seq<DrainView>),
    /// The shutdown notification was sent; `true` if a listener had it.
    Notified(bool),
}

/// What a workflow that ran to its end reports.
pub struct FinishReportView {
    pub counts: Counts,
    pub drains: Seq<DrainView>,
    pub signal: Result<(), SignalError>,
}

/// The end of an operation.
pub enum ReplyView {
    Started { num_original_paths: nat },
    Enqueued,
    Finished(FinishReportView),
    Failed(ErrorView),
}

/// What the driver is to do next.
pub enum ActionView<T> {
    /// List every path of the store.
    Enumerate,
    /// Resolve this identifier to its canonical path.
    Resolve(Seq<char>),
    /// Hand `store_paths` to each of `backends`, independently.
    Enqueue { backends: Seq<BackendKind>, store_paths: Seq<Seq<char>> },
    /// Trigger the shutdown of each of `backends`, then wait for all.
    Shutdown { backends: Seq<BackendKind> },
    /// Send the shutdown notification through this notifier.
    Notify(T),
    /// The operation is over; this is its result.
    Reply(ReplyView),
    /// The event did not belong here, and changed nothing.
    Ignore,
}

/// Where an operation stands.
pub enum OperationView {
    /// Waiting for the store's listing. A workflow that is finishing holds
    /// the snapshot it read when it began; one that is starting holds none.
    Enumerating { original: Option<Set<Seq<char>>> },
    /// Waiting for the canonical path of `pending[resolved.len()]`.
    Resolving { pending: Seq<Seq<char>>, resolved: Seq<Seq<char>>, finish: Option<Counts> },
    /// Waiting for the backends to accept the batch.
    Accepting { awaited: Seq<BackendKind>, finish: Option<Counts> },
    /// Waiting for the backends to drain.
    Draining { awaited: Seq<BackendKind>, counts: Counts },
    /// Waiting for the shutdown notification to be sent.
    Notifying { drains: Seq<DrainView>, counts: Counts },
    /// Over.
    Done,
}

impl OperationView {
    /// While identifiers are being resolved, one of them is still to come.
    pub open spec fn well_formed(self) -> bool {
        self matches OperationView::Resolving { pending, resolved, .. } ==> resolved.len()
            < pending.len()
    }
}

/// One move of an operation: where it stands afterwards, what has become of
/// the session, and what the driver is to do.
pub struct Transition<T> {
    pub operation: OperationView,
    pub session: SessionView<T>,
    pub action: ActionView<T>,
}

/// The backends that `answers` speak for, in order.
pub open spec fn accepting_backends(answers: Seq<AcceptanceView>) -> Seq<BackendKind> {
    answers.map_values(|answer: AcceptanceView| answer.backend)
}

/// The backends that `drains` speak for, in order.
pub open spec fn drained_backends(drains: Seq<DrainView>) -> Seq<BackendKind> {
    drains.map_values(|drain: DrainView| drain.backend)
}

/// The error of the first backend, in order, that rejected the batch.
pub open spec fn first_rejection(answers: Seq<AcceptanceView>) -> Option<ErrorView>
    decreases answers.len(),
{
    if answers.len() == 0 {
        None
    } else {
        match answers[0].outcome {
            Err(reason) => Some(ErrorView::Backend { backend: answers[0].backend, reason }),
            Ok(_) => first_rejection(answers.skip(1)),
        }
    }
}

/// The error of the first backend, in order, that failed to drain.
pub open spec fn first_failure(drains: Seq<DrainView>) -> Option<ErrorView>
    decreases drains.len(),
{
    if drains.len() == 0 {
        None
    } else {
        match drains[0].outcome {
            Err(reason) => Some(ErrorView::Backend { backend: drains[0].backend, reason }),
            Ok(_) => first_failure(drains.skip(1)),
        }
    }
}

/// What a finished workflow returns to its caller: its counts, unless a
/// backend failed to drain.
pub open spec fn outcome(report: FinishReportView) -> Result<Counts, ErrorView> {
    match first_failure(report.drains) {
        Some(error) => Err(error),
        None => Ok(report.counts),
    }
}

/// The gauges to set when an operation is over, with their values. A
/// workflow start reports the size of the new snapshot, a workflow that
/// finished all three counts; an operation that failed reports nothing.
pub open spec fn observed(reply: ReplyView) -> Seq<(Gauge, nat)> {
    match reply {
        ReplyView::Started { num_original_paths } => seq![
            (Gauge::NumOriginalPaths, num_original_paths),
        ],
        ReplyView::Finished(report) => match outcome(report) {
            Ok(counts) => seq![
                (Gauge::NumOriginalPaths, counts.num_original_paths),
                (Gauge::NumFinalPaths, counts.num_final_paths),
                (Gauge::NumNewPaths, counts.num_new_paths),
            ],
            Err(_) => Seq::empty(),
        },
        _ => Seq::empty(),
    }
}

/// The operation fails with `error`. The session stays as it is.
pub open spec fn failed<T>(session: SessionView<T>, error: ErrorView) -> Transition<T> {
    Transition {
        operation: OperationView::Done,
        session,
        action: ActionView::Reply(ReplyView::Failed(error)),
    }
}

/// The store was listed for a workflow that starts: the listing becomes the
/// live snapshot, whatever the snapshot was before.
pub open spec fn started<T>(session: SessionView<T>, listed: Seq<Seq<char>>) -> Transition<T> {
    let snapshot = listed.to_set();
    Transition {
        operation: OperationView::Done,
        session: SessionView { original_paths: snapshot, ..session },
        action: ActionView::Reply(ReplyView::Started { num_original_paths: snapshot.len() }),
    }
}

/// The store was listed for a workflow that finishes: the paths that
/// `original` lacks are new, and are resolved next.
pub open spec fn diffed<T>(
    session: SessionView<T>,
    original: Set<Seq<char>>,
    listed: Seq<Seq<char>>,
) -> Transition<T> {
    resolve(session, fresh(original, listed), Some(counted(original, listed)))
}

/// What a finishing workflow counts: the snapshot it began with, the store
/// as listed, and the listed paths that the snapshot lacks.
pub open spec fn counted(original: Set<Seq<char>>, listed: Seq<Seq<char>>) -> Counts {
    Counts {
        num_original_paths: original.len(),
        num_final_paths: listed.to_set().len(),
        num_new_paths: fresh(original, listed).len(),
    }
}

/// Resolution begins with the first identifier; with none, the empty batch
/// goes on at once.
pub open spec fn resolve<T>(
    session: SessionView<T>,
    pending: Seq<Seq<char>>,
    finish: Option<Counts>,
) -> Transition<T> {
    if pending.len() == 0 {
        fan_out(session, Seq::empty(), finish)
    } else {
        Transition {
            operation: OperationView::Resolving { pending, resolved: Seq::empty(), finish },
            session,
            action: ActionView::Resolve(pending[0]),
        }
    }
}

/// The batch goes, unchanged, to every active backend. An empty batch goes
/// to none, and with no backend there is nobody to hand it to.
pub open spec fn fan_out<T>(
    session: SessionView<T>,
    store_paths: Seq<Seq<char>>,
    finish: Option<Counts>,
) -> Transition<T> {
    if store_paths.len() == 0 || session.backends.len() == 0 {
        accepted(session, finish)
    } else {
        Transition {
            operation: OperationView::Accepting { awaited: session.backends, finish },
            session,
            action: ActionView::Enqueue { backends: session.backends, store_paths },
        }
    }
}

/// The batch is with the backends. An enqueue request is over; a workflow
/// that finishes goes on to drain them.
pub open spec fn accepted<T>(session: SessionView<T>, finish: Option<Counts>) -> Transition<T> {
    match finish {
        None => Transition {
            operation: OperationView::Done,
            session,
            action: ActionView::Reply(ReplyView::Enqueued),
        },
        Some(counts) => drain(session, counts),
    }
}

/// Every active backend is shut down, all of them in one action, and leaves
/// the session: no backend is shut down twice.
pub open spec fn drain<T>(session: SessionView<T>, counts: Counts) -> Transition<T> {
    if session.backends.len() == 0 {
        notify(session, counts, Seq::empty())
    } else {
        Transition {
            operation: OperationView::Draining { awaited: session.backends, counts },
            session: SessionView { backends: Seq::empty(), ..session },
            action: ActionView::Shutdown { backends: session.backends },
        }
    }
}

/// The shutdown signal is consumed. If it was consumed before, the workflow
/// ends without a notification and says so.
pub open spec fn notify<T>(
    session: SessionView<T>,
    counts: Counts,
    drains: Seq<DrainView>,
) -> Transition<T> {
    match consumed(session.signal) {
        Ok(notifier) => Transition {
            operation: OperationView::Notifying { drains, counts },
            session: SessionView { signal: left(session.signal), ..session },
            action: ActionView::Notify(notifier),
        },
        Err(error) => finished(session, counts, drains, Err(error)),
    }
}

/// The workflow is over. Its report holds what every backend answered to
/// its shutdown, whether it drained or failed.
pub open spec fn finished<T>(
    session: SessionView<T>,
    counts: Counts,
    drains: Seq<DrainView>,
    signal: Result<(), SignalError>,
) -> Transition<T> {
    Transition {
        operation: OperationView::Done,
        session,
        action: ActionView::Reply(ReplyView::Finished(FinishReportView { counts, drains, signal })),
    }
}

/// The event changes nothing.
pub open spec fn ignored<T>(operation: OperationView, session: SessionView<T>) -> Transition<T> {
    Transition { operation, session, action: ActionView::Ignore }
}

/// A workflow starts: the store is to be listed.
pub open spec fn start<T>(session: SessionView<T>) -> Transition<T> {
    Transition {
        operation: OperationView::Enumerating { original: None },
        session,
        action: ActionView::Enumerate,
    }
}

/// A workflow finishes: it reads the live snapshot, and the store is to be
/// listed again.
pub open spec fn finish<T>(session: SessionView<T>) -> Transition<T> {
    Transition {
        operation: OperationView::Enumerating { original: Some(session.original_paths) },
        session,
        action: ActionView::Enumerate,
    }
}

/// The move that `event` causes.
///
/// An operation takes the one kind of event that it is waiting for, and of
/// the backends' answers only a list that speaks for exactly the backends it
/// named, in their order; everything else it ignores. A listing or a
/// resolution that fails ends the operation, and so does a backend that
/// rejects the batch, also where the workflow is finishing: its backends are
/// then not shut down and its signal is not consumed. A backend that fails
/// to drain ends nothing: the workflow goes on to its report.
pub open spec fn step<T>(
    operation: OperationView,
    session: SessionView<T>,
    event: EventView,
) -> Transition<T> {
    match (operation, event) {
        (OperationView::Enumerating { .. }, EventView::Enumerated(Err(reason))) => failed(
            session,
            ErrorView::Enumeration { reason },
        ),
        (OperationView::Enumerating { original: None }, EventView::Enumerated(Ok(listed))) => {
            started(session, listed)
        },
        (
            OperationView::Enumerating { original: Some(original) },
            EventView::Enumerated(Ok(listed)),
        ) => diffed(session, original, listed),
        (OperationView::Resolving { pending, resolved, .. }, EventView::Resolved(Err(reason))) => {
            failed(
                session,
                ErrorView::Resolution { identifier: pending[resolved.len() as int], reason },
            )
        },
        (OperationView::Resolving { pending, resolved, finish }, EventView::Resolved(Ok(path))) => {
            if resolved.len() + 1 < pending.len() {
                Transition {
                    operation: OperationView::Resolving {
                        pending,
                        resolved: resolved.push(path),
                        finish,
                    },
                    session,
                    action: ActionView::Resolve(pending[(resolved.len() + 1) as int]),
                }
            } else {
                fan_out(session, resolved.push(path), finish)
            }
        },
        (OperationView::Accepting { awaited, finish }, EventView::Accepted(answers)) => {
            if accepting_backends(answers) == awaited {
                match first_rejection(answers) {
                    Some(error) => failed(session, error),
                    None => accepted(session, finish),
                }
            } else {
                ignored(operation, session)
            }
        },
        (OperationView::Draining { awaited, counts }, EventView::Drained(drains)) => {
            if drained_backends(drains) == awaited {
                notify(session, counts, drains)
            } else {
                ignored(operation, session)
            }
        },
        (OperationView::Notifying { drains, counts }, EventView::Notified(delivered)) => finished(
            session,
            counts,
            drains,
            if delivered {
                Ok(())
            } else {
                Err(SignalError::NoListener)
            },
        ),
        _ => ignored(operation, session),
    }
}

/// The moves of an operation that begins with `first` and is then told
/// `events`, one after the other: `first` and one move for each event.
pub open spec fn run<T>(first: Transition<T>, events: Seq<EventView>) -> Seq<Transition<T>>
    decreases events.len(),
{
    if events.len() == 0 {
        seq![first]
    } else {
        let before = run(first, events.drop_last());
        let last = before.last();
        before.push(step(last.operation, last.session, events.last()))
    }
}

/// What the driver reports, in order, to a workflow that finishes without a
/// hitch: the listing, the canonical path of each new path, the backends'
/// answers to the batch, their answers to the shutdown, and whether the
/// notification had a listener.
pub open spec fn finishing_events(
    listed: Seq<Seq<char>>,
    resolved: Seq<Seq<char>>,
    answers: Seq<AcceptanceView>,
    drains: Seq<DrainView>,
    delivered: bool,
) -> Seq<EventView> {
    seq![EventView::Enumerated(Ok(listed))] + resolved.map_values(
        |path: Seq<char>| EventView::Resolved(Ok(path)),
    ) + seq![
        EventView::Accepted(answers),
        EventView::Drained(drains),
        EventView::Notified(delivered),
    ]
}

} // verus!
