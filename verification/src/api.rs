//! The action API: the three operations of a build session.
//!
//! [`workflow_start`] records the paths that the store holds,
//! [`post_enqueue_paths`] schedules paths for uploading, and
//! [`workflow_finish`] pushes the paths that are new and shuts the backends
//! down. Each of them gives back an [`Operation`] and the first [`Action`]
//! for the driver; the driver performs the action and passes what came of it
//! to [`Operation::step`], until the action is a [`Action::Reply`].

use crate::backend::BackendKind;
use crate::counts::{Counts, Gauge};
use crate::error::Error;
use crate::error::ErrorView;
use crate::session::Session;
use crate::signal::SignalError;
use crate::snapshot::{lemma_fresh_of_fresh, names, PathSnapshot};
use crate::store_path::StorePath;
use crate::workflow;
use crate::workflow::{
    AcceptanceView, ActionView, DrainView, EventView, FinishReportView, OperationView, ReplyView,
    Transition,
};
use vstd::prelude::*;

verus! {

/// The character sequences of a list of strings, in the same order.
pub open spec fn texts(strings: Seq<String>) -> Seq<Seq<char>> {
    strings.map_values(|string: String| string@)
}

/// A request to schedule paths of the store for uploading. The identifiers
/// need be neither canonical nor distinct.
#[derive(Debug, PartialEq, Eq)]
pub struct EnqueuePathsRequest {
    pub store_paths: Vec<String>,
}

impl Clone for EnqueuePathsRequest {
    fn clone(&self) -> (copy: EnqueuePathsRequest)
        ensures
            copy.store_paths@ == self.store_paths@,
    {
        let mut store_paths: Vec<String> = Vec::new();
        let mut i: usize = 0;
        while i < self.store_paths.len()
            invariant
                i <= self.store_paths.len(),
                store_paths@ =~= self.store_paths@.take(i as int),
            decreases self.store_paths.len() - i,
        {
            store_paths.push(self.store_paths[i].clone());
            i += 1;
        }
        EnqueuePathsRequest { store_paths }
    }
}

/// The answer to an [`EnqueuePathsRequest`] that was carried out.
#[derive(Clone, Copy, Debug, PartialEq, Eq, Structural)]
pub struct EnqueuePathsResponse {}

/// The answer to a workflow start.
#[derive(Clone, Copy, Debug, PartialEq, Eq, Structural)]
pub struct WorkflowStartResponse {
    pub num_original_paths: usize,
}

/// The answer to a workflow finish.
#[derive(Clone, Copy, Debug, PartialEq, Eq, Structural)]
pub struct WorkflowFinishResponse {
    pub num_original_paths: usize,
    pub num_final_paths: usize,
    pub num_new_paths: usize,
}

impl View for WorkflowFinishResponse {
    type V = Counts;

    open spec fn view(&self) -> Counts {
        Counts {
            num_original_paths: self.num_original_paths as nat,
            num_final_paths: self.num_final_paths as nat,
            num_new_paths: self.num_new_paths as nat,
        }
    }
}

/// One backend's answer to a batch: accepted, or why not.
#[derive(Debug, PartialEq, Eq)]
pub struct Acceptance {
    pub backend: BackendKind,
    pub outcome: Result<(), String>,
}

impl View for Acceptance {
    type V = AcceptanceView;

    open spec fn view(&self) -> AcceptanceView {
        AcceptanceView {
            backend: self.backend,
            outcome: match self.outcome {
                Ok(_) => Ok(()),
                Err(reason) => Err(reason@),
            },
        }
    }
}

/// One backend's answer to its shutdown: the paths that it uploaded, or why
/// it could not drain.
#[derive(Debug, PartialEq, Eq)]
pub struct Drain {
    pub backend: BackendKind,
    pub outcome: Result<Vec<StorePath>, String>,
}

impl View for Drain {
    type V = DrainView;

    open spec fn view(&self) -> DrainView {
        DrainView {
            backend: self.backend,
            outcome: match self.outcome {
                Ok(uploaded) => Ok(names(uploaded@)),
                Err(reason) => Err(reason@),
            },
        }
    }
}

/// The values of a list of acceptances, in the same order.
pub open spec fn acceptances(answers: Seq<Acceptance>) -> Seq<AcceptanceView> {
    answers.map_values(|answer: Acceptance| answer@)
}

/// The values of a list of drains, in the same order.
pub open spec fn drains(answers: Seq<Drain>) -> Seq<DrainView> {
    answers.map_values(|answer: Drain| answer@)
}

/// What the driver reports after it has performed an [`Action`].
#[derive(Debug, PartialEq, Eq)]
pub enum Event {
    /// The store was listed, or could not be.
    Enumerated(Result<Vec<StorePath>, String>),
    /// The identifier last asked for was resolved, or could not be.
    Resolved(Result<StorePath, String>),
    /// Every backend that was handed the batch has answered; the answers
    /// stand in the order in which the backends were named.
    Accepted(Vec<Acceptance>),
    /// Every backend that was shut down has drained or failed; the answers
    /// stand in the order in which the backends were named.
    Drained(Vec<Drain>),
    /// The shutdown notification was sent; `true` if a listener had it.
    Notified(bool),
}

impl View for Event {
    type V = EventView;

    open spec fn view(&self) -> EventView {
        match *self {
            Event::Enumerated(Ok(listed)) => EventView::Enumerated(Ok(names(listed@))),
            Event::Enumerated(Err(reason)) => EventView::Enumerated(Err(reason@)),
            Event::Resolved(Ok(path)) => EventView::Resolved(Ok(path@)),
            Event::Resolved(Err(reason)) => EventView::Resolved(Err(reason@)),
            Event::Accepted(answers) => EventView::Accepted(acceptances(answers@)),
            Event::Drained(answers) => EventView::Drained(drains(answers@)),
            Event::Notified(delivered) => EventView::Notified(delivered),
        }
    }
}

/// What a workflow that ran to its end reports: the counts, what every
/// backend answered to its shutdown, and whether the shutdown notification
/// reached a listener.
#[derive(Debug, PartialEq, Eq)]
pub struct FinishReport {
    pub counts: WorkflowFinishResponse,
    pub drains: Vec<Drain>,
    pub signal: Result<(), SignalError>,
}

impl View for FinishReport {
    type V = FinishReportView;

    open spec fn view(&self) -> FinishReportView {
        FinishReportView { counts: self.counts@, drains: drains(self.drains@), signal: self.signal }
    }
}

/// The end of an operation.
#[derive(Debug, PartialEq, Eq)]
pub enum Reply {
    /// The workflow has started.
    Started(WorkflowStartResponse),
    /// The paths are with the backends.
    Enqueued(EnqueuePathsResponse),
    /// The workflow ran to its end.
    Finished(FinishReport),
    /// The operation was given up.
    Failed(Error),
}

impl View for Reply {
    type V = ReplyView;

    open spec fn view(&self) -> ReplyView {
        match *self {
            Reply::Started(response) => ReplyView::Started {
                num_original_paths: response.num_original_paths as nat,
            },
            Reply::Enqueued(_) => ReplyView::Enqueued,
            Reply::Finished(report) => ReplyView::Finished(report@),
            Reply::Failed(error) => ReplyView::Failed(error@),
        }
    }
}

/// What the driver is to do next.
#[derive(Debug, PartialEq, Eq)]
pub enum Action<T> {
    /// List every path of the store, and report [`Event::Enumerated`].
    Enumerate,
    /// Resolve this identifier to its canonical path, and report
    /// [`Event::Resolved`].
    Resolve(String),
    /// Hand `store_paths` to each of `backends`, independently of what the
    /// others answer, and report [`Event::Accepted`].
    Enqueue { backends: Vec<BackendKind>, store_paths: Vec<StorePath> },
    /// Trigger the shutdown of each of `backends` before waiting for any of
    /// them, wait for all, and report [`Event::Drained`].
    Shutdown { backends: Vec<BackendKind> },
    /// Send the shutdown notification through this notifier, and report
    /// [`Event::Notified`].
    Notify(T),
    /// The operation is over; this is its result.
    Reply(Reply),
    /// The event did not belong here, and changed nothing.
    Ignore,
}

impl<T> View for Action<T> {
    type V = ActionView<T>;

    open spec fn view(&self) -> ActionView<T> {
        match *self {
            Action::Enumerate => ActionView::Enumerate,
            Action::Resolve(identifier) => ActionView::Resolve(identifier@),
            Action::Enqueue { backends, store_paths } => ActionView::Enqueue {
                backends: backends@,
                store_paths: names(store_paths@),
            },
            Action::Shutdown { backends } => ActionView::Shutdown { backends: backends@ },
            Action::Notify(notifier) => ActionView::Notify(notifier),
            Action::Reply(reply) => ActionView::Reply(reply@),
            Action::Ignore => ActionView::Ignore,
        }
    }
}

enum Stage {
    Enumerating { original: Option<PathSnapshot> },
    Resolving {
        pending: Vec<String>,
        resolved: Vec<StorePath>,
        finish: Option<WorkflowFinishResponse>,
    },
    Accepting { awaited: Vec<BackendKind>, finish: Option<WorkflowFinishResponse> },
    Draining { awaited: Vec<BackendKind>, counts: WorkflowFinishResponse },
    Notifying { drains: Vec<Drain>, counts: WorkflowFinishResponse },
    Done,
}

/// The counts that a stage carries, as values.
spec fn carried(finish: Option<WorkflowFinishResponse>) -> Option<Counts> {
    match finish {
        Some(counts) => Some(counts@),
        None => None,
    }
}

/// An operation under way: a workflow start, an enqueue request or a
/// workflow finish, and how far it has come.
pub struct Operation {
    stage: Stage,
}

impl View for Operation {
    type V = OperationView;

    closed spec fn view(&self) -> OperationView {
        match self.stage {
            Stage::Enumerating { original } => OperationView::Enumerating {
                original: match original {
                    Some(snapshot) => Some(snapshot@),
                    None => None,
                },
            },
            Stage::Resolving { pending, resolved, finish } => OperationView::Resolving {
                pending: texts(pending@),
                resolved: names(resolved@),
                finish: carried(finish),
            },
            Stage::Accepting { awaited, finish } => OperationView::Accepting {
                awaited: awaited@,
                finish: carried(finish),
            },
            Stage::Draining { awaited, counts } => OperationView::Draining {
                awaited: awaited@,
                counts: counts@,
            },
            Stage::Notifying { drains: answers, counts } => OperationView::Notifying {
                drains: drains(answers@),
                counts: counts@,
            },
            Stage::Done => OperationView::Done,
        }
    }
}

/// An operation, the session and an action, as one move of the workflow.
pub open spec fn moved<T>(next: (Operation, Action<T>), session: Session<T>) -> Transition<T> {
    Transition { operation: next.0@, session: session@, action: next.1@ }
}

impl Operation {
    #[verifier::type_invariant]
    spec fn well_formed(&self) -> bool {
        self.stage matches Stage::Resolving { pending, resolved, .. } ==> resolved.len()
            < pending.len()
    }

    /// Whether the operation is over.
    pub fn is_done(&self) -> (done: bool)
        ensures
            done == (self@ is Done),
    {
        match self.stage {
            Stage::Done => true,
            _ => false,
        }
    }

    fn done() -> (operation: Operation)
        ensures
            operation@ == OperationView::Done,
    {
        Operation { stage: Stage::Done }
    }

    /// Takes what the driver reports and says what it is to do next.
    ///
    /// An event that the operation was not waiting for changes nothing and
    /// is answered with [`Action::Ignore`]; so is every event once the
    /// operation is over.
    pub fn step<T>(self, session: &mut Session<T>, event: Event) -> (next: (Operation, Action<T>))
        ensures
            moved(next, *final(session)) == workflow::step(self@, old(session)@, event@),
            self@.well_formed(),
            next.0@.well_formed(),
    {
        proof {
            use_type_invariant(&self);
        }
        let next = self.advance(session, event);
        proof {
            use_type_invariant(&next.0);
        }
        next
    }

    fn advance<T>(self, session: &mut Session<T>, event: Event) -> (next: (Operation, Action<T>))
        ensures
            moved(next, *final(session)) == workflow::step(self@, old(session)@, event@),
    {
        proof {
            use_type_invariant(&self);
        }
        match self.stage {
            Stage::Enumerating { original } => match event {
                Event::Enumerated(Err(reason)) => failed(session, Error::Enumeration { reason }),
                Event::Enumerated(Ok(listed)) => match original {
                    None => started(session, listed),
                    Some(original) => diffed(session, original, listed),
                },
                _ => (Operation { stage: Stage::Enumerating { original } }, Action::Ignore),
            },
            Stage::Resolving { pending, mut resolved, finish } => match event {
                Event::Resolved(Err(reason)) => {
                    let identifier = pending[resolved.len()].clone();
                    failed(session, Error::Resolution { identifier, reason })
                },
                Event::Resolved(Ok(path)) => {
                    let ghost before = names(resolved@);
                    resolved.push(path);
                    assert(names(resolved@) =~= before.push(path@));
                    if resolved.len() < pending.len() {
                        let identifier = pending[resolved.len()].clone();
                        (
                            Operation { stage: Stage::Resolving { pending, resolved, finish } },
                            Action::Resolve(identifier),
                        )
                    } else {
                        fan_out(session, resolved, finish)
                    }
                },
                _ => (
                    Operation { stage: Stage::Resolving { pending, resolved, finish } },
                    Action::Ignore,
                ),
            },
            Stage::Accepting { awaited, finish } => match event {
                Event::Accepted(answers) => {
                    if accepted_by(&answers, &awaited) {
                        match first_rejection(&answers) {
                            Some(error) => failed(session, error),
                            None => accepted(session, finish),
                        }
                    } else {
                        (Operation { stage: Stage::Accepting { awaited, finish } }, Action::Ignore)
                    }
                },
                _ => (Operation { stage: Stage::Accepting { awaited, finish } }, Action::Ignore),
            },
            Stage::Draining { awaited, counts } => match event {
                Event::Drained(answers) => {
                    if drained_by(&answers, &awaited) {
                        notify(session, counts, answers)
                    } else {
                        (Operation { stage: Stage::Draining { awaited, counts } }, Action::Ignore)
                    }
                },
                _ => (Operation { stage: Stage::Draining { awaited, counts } }, Action::Ignore),
            },
            Stage::Notifying { drains: answers, counts } => match event {
                Event::Notified(delivered) => {
                    let signal = if delivered {
                        Ok(())
                    } else {
                        Err(SignalError::NoListener)
                    };
                    finished(session, counts, answers, signal)
                },
                _ => (
                    Operation { stage: Stage::Notifying { drains: answers, counts } },
                    Action::Ignore,
                ),
            },
            Stage::Done => (Operation::done(), Action::Ignore),
        }
    }
}

/// The value of what a finished workflow returns.
pub open spec fn returned(result: Result<WorkflowFinishResponse, Error>) -> Result<
    Counts,
    ErrorView,
> {
    match result {
        Ok(counts) => Ok(counts@),
        Err(error) => Err(error@),
    }
}

/// The values of a list of gauge settings, in the same order.
pub open spec fn settings(gauges: Seq<(Gauge, usize)>) -> Seq<(Gauge, nat)> {
    gauges.map_values(|setting: (Gauge, usize)| (setting.0, setting.1 as nat))
}

impl FinishReport {
    /// What the workflow returns to its caller: the counts, unless a backend
    /// failed to drain; then the error of the first that did.
    pub fn result(&self) -> (result: Result<WorkflowFinishResponse, Error>)
        ensures
            returned(result) == workflow::outcome(self@),
            result matches Ok(counts) ==> counts == self.counts,
    {
        match first_failure(&self.drains) {
            Some(error) => Err(error),
            None => Ok(self.counts),
        }
    }
}

impl Reply {
    /// The gauges to set now that the operation is over, with their values.
    /// An operation that failed sets none.
    pub fn gauges(&self) -> (gauges: Vec<(Gauge, usize)>)
        ensures
            settings(gauges@) == workflow::observed(self@),
    {
        let mut gauges: Vec<(Gauge, usize)> = Vec::new();
        match self {
            Reply::Started(response) => {
                gauges.push((Gauge::NumOriginalPaths, response.num_original_paths));
            },
            Reply::Finished(report) => {
                match report.result() {
                    Ok(counts) => {
                        gauges.push((Gauge::NumOriginalPaths, counts.num_original_paths));
                        gauges.push((Gauge::NumFinalPaths, counts.num_final_paths));
                        gauges.push((Gauge::NumNewPaths, counts.num_new_paths));
                    },
                    Err(_) => {},
                }
            },
            _ => {},
        }
        gauges
    }
}

/// Records the existing paths: begins a workflow start.
///
/// The driver lists the store first; the listing replaces the live snapshot
/// only when it arrives, so a listing that fails leaves the snapshot alone.
pub fn workflow_start<T>(session: &Session<T>) -> (next: (Operation, Action<T>))
    ensures
        moved(next, *session) == workflow::start(session@),
{
    (Operation { stage: Stage::Enumerating { original: None } }, Action::Enumerate)
}

/// Pushes the new paths and shuts down: begins a workflow finish.
///
/// The operation reads the live snapshot now, and compares it with the
/// store's listing when that arrives.
pub fn workflow_finish<T>(session: &Session<T>) -> (next: (Operation, Action<T>))
    ensures
        moved(next, *session) == workflow::finish(session@),
{
    let original = session.original_paths().clone();
    (Operation { stage: Stage::Enumerating { original: Some(original) } }, Action::Enumerate)
}

/// Schedules paths of the store for uploading: begins an enqueue request.
///
/// The identifiers are resolved one after the other; the first that does not
/// resolve fails the request, and nothing is handed to any backend. A
/// request without identifiers is over at once.
pub fn post_enqueue_paths<T>(session: &Session<T>, req: EnqueuePathsRequest) -> (next: (
    Operation,
    Action<T>,
))
    ensures
        moved(next, *session) == workflow::resolve(session@, texts(req.store_paths@), None),
{
    if req.store_paths.len() == 0 {
        (Operation::done(), Action::Reply(Reply::Enqueued(EnqueuePathsResponse {  })))
    } else {
        asked(req.store_paths, None)
    }
}

/// Hands canonical paths to every active backend: begins an enqueue request
/// that has nothing left to resolve.
///
/// Without paths, or without an active backend, the request is over at once.
pub fn enqueue_paths<T>(session: &Session<T>, store_paths: Vec<StorePath>) -> (next: (
    Operation,
    Action<T>,
))
    ensures
        moved(next, *session) == workflow::fan_out(session@, names(store_paths@), None),
{
    if store_paths.len() == 0 || session.backends().len() == 0 {
        (Operation::done(), Action::Reply(Reply::Enqueued(EnqueuePathsResponse {  })))
    } else {
        handed(session, store_paths, None)
    }
}

fn failed<T>(session: &Session<T>, error: Error) -> (next: (Operation, Action<T>))
    ensures
        moved(next, *session) == workflow::failed(session@, error@),
{
    (Operation::done(), Action::Reply(Reply::Failed(error)))
}

fn started<T>(session: &mut Session<T>, listed: Vec<StorePath>) -> (next: (Operation, Action<T>))
    ensures
        moved(next, *final(session)) == workflow::started(old(session)@, names(listed@)),
{
    let snapshot = PathSnapshot::from_paths(listed);
    let num_original_paths = snapshot.len();
    session.install(snapshot);
    (
        Operation::done(),
        Action::Reply(Reply::Started(WorkflowStartResponse { num_original_paths })),
    )
}

fn diffed<T>(session: &mut Session<T>, original: PathSnapshot, listed: Vec<StorePath>) -> (next: (
    Operation,
    Action<T>,
))
    ensures
        moved(next, *final(session)) == workflow::diffed(
            old(session)@,
            original@,
            names(listed@),
        ),
{
    let final_paths = PathSnapshot::from_paths(listed);
    let new_paths = final_paths.difference(&original);
    let counts = WorkflowFinishResponse {
        num_original_paths: original.len(),
        num_final_paths: final_paths.len(),
        num_new_paths: new_paths.len(),
    };
    proof {
        lemma_fresh_of_fresh(original@, names(listed@));
    }
    let pending = identifiers(&new_paths);
    resolve(session, pending, Some(counts))
}

fn resolve<T>(
    session: &mut Session<T>,
    pending: Vec<String>,
    finish: Option<WorkflowFinishResponse>,
) -> (next: (Operation, Action<T>))
    ensures
        moved(next, *final(session)) == workflow::resolve(
            old(session)@,
            texts(pending@),
            carried(finish),
        ),
{
    if pending.len() == 0 {
        let nothing: Vec<StorePath> = Vec::new();
        fan_out(session, nothing, finish)
    } else {
        asked(pending, finish)
    }
}

/// Asks for the first of `pending`.
fn asked<T>(pending: Vec<String>, finish: Option<WorkflowFinishResponse>) -> (next: (
    Operation,
    Action<T>,
))
    requires
        pending.len() > 0,
    ensures
        next.0@ == (OperationView::Resolving {
            pending: texts(pending@),
            resolved: Seq::empty(),
            finish: carried(finish),
        }),
        next.1@ == ActionView::<T>::Resolve(pending@[0]@),
{
    let first = pending[0].clone();
    let resolved: Vec<StorePath> = Vec::new();
    assert(names(resolved@) =~= Seq::<Seq<char>>::empty());
    (Operation { stage: Stage::Resolving { pending, resolved, finish } }, Action::Resolve(first))
}

fn fan_out<T>(
    session: &mut Session<T>,
    store_paths: Vec<StorePath>,
    finish: Option<WorkflowFinishResponse>,
) -> (next: (Operation, Action<T>))
    ensures
        moved(next, *final(session)) == workflow::fan_out(
            old(session)@,
            names(store_paths@),
            carried(finish),
        ),
{
    if store_paths.len() == 0 || session.backends().len() == 0 {
        accepted(session, finish)
    } else {
        handed(session, store_paths, finish)
    }
}

/// Hands `store_paths` to the active backends.
fn handed<T>(
    session: &Session<T>,
    store_paths: Vec<StorePath>,
    finish: Option<WorkflowFinishResponse>,
) -> (next: (Operation, Action<T>))
    ensures
        next.0@ == (OperationView::Accepting {
            awaited: session@.backends,
            finish: carried(finish),
        }),
        next.1@ == (ActionView::<T>::Enqueue {
            backends: session@.backends,
            store_paths: names(store_paths@),
        }),
{
    let backends = copied(session.backends());
    let awaited = copied(session.backends());
    (
        Operation { stage: Stage::Accepting { awaited, finish } },
        Action::Enqueue { backends, store_paths },
    )
}

fn accepted<T>(session: &mut Session<T>, finish: Option<WorkflowFinishResponse>) -> (next: (
    Operation,
    Action<T>,
))
    ensures
        moved(next, *final(session)) == workflow::accepted(old(session)@, carried(finish)),
{
    match finish {
        None => (Operation::done(), Action::Reply(Reply::Enqueued(EnqueuePathsResponse {  }))),
        Some(counts) => drain(session, counts),
    }
}

fn drain<T>(session: &mut Session<T>, counts: WorkflowFinishResponse) -> (next: (
    Operation,
    Action<T>,
))
    ensures
        moved(next, *final(session)) == workflow::drain(old(session)@, counts@),
{
    if session.backends().len() == 0 {
        let nothing: Vec<Drain> = Vec::new();
        assert(drains(nothing@) =~= Seq::<DrainView>::empty());
        notify(session, counts, nothing)
    } else {
        let backends = session.retire();
        let awaited = copied(&backends);
        (Operation { stage: Stage::Draining { awaited, counts } }, Action::Shutdown { backends })
    }
}

fn notify<T>(session: &mut Session<T>, counts: WorkflowFinishResponse, answers: Vec<Drain>) -> (next:
    (Operation, Action<T>))
    ensures
        moved(next, *final(session)) == workflow::notify(old(session)@, counts@, drains(answers@)),
{
    match session.take_signal() {
        Ok(notifier) => (
            Operation { stage: Stage::Notifying { drains: answers, counts } },
            Action::Notify(notifier),
        ),
        Err(error) => finished(session, counts, answers, Err(error)),
    }
}

fn finished<T>(
    session: &Session<T>,
    counts: WorkflowFinishResponse,
    answers: Vec<Drain>,
    signal: Result<(), SignalError>,
) -> (next: (Operation, Action<T>))
    ensures
        moved(next, *session) == workflow::finished(session@, counts@, drains(answers@), signal),
{
    (
        Operation::done(),
        Action::Reply(Reply::Finished(FinishReport { counts, drains: answers, signal })),
    )
}

/// The value of an error that may be there.
spec fn seen(error: Option<Error>) -> Option<ErrorView> {
    match error {
        Some(error) => Some(error@),
        None => None,
    }
}

fn first_rejection(answers: &Vec<Acceptance>) -> (error: Option<Error>)
    ensures
        seen(error) == workflow::first_rejection(acceptances(answers@)),
{
    let ghost all = acceptances(answers@);
    let mut i: usize = 0;
    assert(all.skip(0) =~= all);
    while i < answers.len()
        invariant
            i <= answers.len(),
            all == acceptances(answers@),
            workflow::first_rejection(all) == workflow::first_rejection(all.skip(i as int)),
        decreases answers.len() - i,
    {
        assert(all.skip(i as int).skip(1) =~= all.skip(i + 1));
        match &answers[i].outcome {
            Err(reason) => {
                return Some(Error::Backend { backend: answers[i].backend, reason: reason.clone() });
            },
            Ok(_) => {},
        }
        i += 1;
    }
    None
}

fn first_failure(answers: &Vec<Drain>) -> (error: Option<Error>)
    ensures
        seen(error) == workflow::first_failure(drains(answers@)),
{
    let ghost all = drains(answers@);
    let mut i: usize = 0;
    assert(all.skip(0) =~= all);
    while i < answers.len()
        invariant
            i <= answers.len(),
            all == drains(answers@),
            workflow::first_failure(all) == workflow::first_failure(all.skip(i as int)),
        decreases answers.len() - i,
    {
        assert(all.skip(i as int).skip(1) =~= all.skip(i + 1));
        match &answers[i].outcome {
            Err(reason) => {
                return Some(Error::Backend { backend: answers[i].backend, reason: reason.clone() });
            },
            Ok(_) => {},
        }
        i += 1;
    }
    None
}

/// Whether `answers` speak for exactly `awaited`, in order.
fn accepted_by(answers: &Vec<Acceptance>, awaited: &Vec<BackendKind>) -> (same: bool)
    ensures
        same == (workflow::accepting_backends(acceptances(answers@)) == awaited@),
{
    let ghost named = workflow::accepting_backends(acceptances(answers@));
    if answers.len() != awaited.len() {
        return false;
    }
    let mut i: usize = 0;
    while i < answers.len()
        invariant
            i <= answers.len(),
            answers.len() == awaited.len(),
            named == workflow::accepting_backends(acceptances(answers@)),
            forall|j: int| 0 <= j < i ==> named[j] == awaited@[j],
        decreases answers.len() - i,
    {
        if answers[i].backend != awaited[i] {
            return false;
        }
        i += 1;
    }
    assert(named =~= awaited@);
    true
}

/// Whether `answers` speak for exactly `awaited`, in order.
fn drained_by(answers: &Vec<Drain>, awaited: &Vec<BackendKind>) -> (same: bool)
    ensures
        same == (workflow::drained_backends(drains(answers@)) == awaited@),
{
    let ghost named = workflow::drained_backends(drains(answers@));
    if answers.len() != awaited.len() {
        return false;
    }
    let mut i: usize = 0;
    while i < answers.len()
        invariant
            i <= answers.len(),
            answers.len() == awaited.len(),
            named == workflow::drained_backends(drains(answers@)),
            forall|j: int| 0 <= j < i ==> named[j] == awaited@[j],
        decreases answers.len() - i,
    {
        if answers[i].backend != awaited[i] {
            return false;
        }
        i += 1;
    }
    assert(named =~= awaited@);
    true
}

/// The canonical names of `paths`, as identifiers to resolve.
fn identifiers(paths: &Vec<StorePath>) -> (out: Vec<String>)
    ensures
        texts(out@) == names(paths@),
{
    let mut out: Vec<String> = Vec::new();
    let mut i: usize = 0;
    while i < paths.len()
        invariant
            i <= paths.len(),
            texts(out@) =~= names(paths@.take(i as int)),
        decreases paths.len() - i,
    {
        out.push(paths[i].clone().into_string());
        assert(names(paths@.take(i + 1)) =~= names(paths@.take(i as int)).push(paths@[i as int]@));
        i += 1;
    }
    out
}

/// A copy of a list of backends.
fn copied(backends: &Vec<BackendKind>) -> (out: Vec<BackendKind>)
    ensures
        out@ == backends@,
{
    let mut out: Vec<BackendKind> = Vec::new();
    let mut i: usize = 0;
    while i < backends.len()
        invariant
            i <= backends.len(),
            out@ =~= backends@.take(i as int),
        decreases backends.len() - i,
    {
        out.push(backends[i]);
        i += 1;
    }
    out
}

} // verus!
