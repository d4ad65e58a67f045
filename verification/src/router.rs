//! The router: what is done with a request, and what is answered once the
//! store has done its part.
//!
//! A request is served in two moves. `dispatch` reads the request line and
//! the decoded payload and says what comes next: a reply, an insert or a
//! listing. When the store has answered, `add` or `list` turns its outcome
//! into a reply or a failure. Failures of every kind end in
//! `handle_rejection`, the one place that picks the status of an error.

use crate::http::{route, route_of, Body, BodyView, Method, Reply, ReplyView, Route, Status};
use crate::repository::{
    all_given, documents, failure_has_a_first, list_all_of, outcome_view, StorageError,
};
use crate::task::{Task, TaskView};
use vstd::prelude::*;

verus! {

/// Why a request did not get its answer.
#[derive(Clone, Copy, Debug, PartialEq, Eq, Structural)]
pub enum Failure {
    /// The body did not decode as a task.
    Input,
    /// The store failed.
    Storage(StorageError),
    /// No route matches the request line.
    Routing,
}

/// What the router does next for a request, as contracts speak of it.
pub enum StepView {
    Respond(ReplyView),
    Insert(TaskView),
    FindAll,
}

/// What the router does next for a request.
#[derive(Debug, PartialEq, Eq)]
pub enum Step {
    /// Answer at once; the store is not involved.
    Respond(Reply),
    /// Insert the task, then hand the outcome to `add`.
    Insert(Task),
    /// Iterate over all tasks, then hand the outcome to `list`.
    FindAll,
}

impl View for Step {
    type V = StepView;

    open spec fn view(&self) -> StepView {
        match self {
            Step::Respond(reply) => StepView::Respond(reply@),
            Step::Insert(task) => StepView::Insert(task@),
            Step::FindAll => StepView::FindAll,
        }
    }
}

/// The reply of the liveness probe.
pub open spec fn health_reply() -> ReplyView {
    ReplyView::text(Status::Okay, "Server is healthy"@)
}

/// The reply that a failure ends in. A storage failure of either kind gives
/// the same reply: nothing of it is told to the caller.
pub open spec fn rejection_reply(failure: Failure) -> ReplyView {
    match failure {
        Failure::Input => ReplyView::text(Status::BadRequest, "Bad Request"@),
        Failure::Storage(_) => ReplyView::text(
            Status::InternalServerError,
            "Internal Server Error"@,
        ),
        Failure::Routing => ReplyView::text(Status::NotFound, "Not Found"@),
    }
}

/// What `dispatch` decides. `payload` is the body decoded as a task, or
/// `None` where it does not decode.
pub open spec fn dispatch_of(method: Method, path: Seq<char>, payload: Option<TaskView>) -> Result<
    StepView,
    Failure,
> {
    match route_of(method, path) {
        Route::Health => Ok(StepView::Respond(health_reply())),
        Route::Add => match payload {
            Some(task) => Ok(StepView::Insert(task.without_id())),
            None => Err(Failure::Input),
        },
        Route::List => Ok(StepView::FindAll),
        Route::NotFound => Err(Failure::Routing),
    }
}

/// What `add` answers to the outcome of an insert.
pub open spec fn add_of(outcome: Result<Seq<char>, StorageError>) -> Result<ReplyView, Failure> {
    match outcome {
        Ok(id) => Ok(ReplyView { status: Status::Created, body: BodyView::Inserted(id) }),
        Err(e) => Err(Failure::Storage(e)),
    }
}

/// What `list` answers to the outcome of a listing.
pub open spec fn list_of(outcome: Result<Seq<TaskView>, StorageError>) -> Result<
    ReplyView,
    Failure,
> {
    match outcome {
        Ok(tasks) => Ok(ReplyView { status: Status::Okay, body: BodyView::Tasks(tasks) }),
        Err(e) => Err(Failure::Storage(e)),
    }
}

/// The reply that goes out for what a handler returned.
pub open spec fn recover_of(result: Result<ReplyView, Failure>) -> ReplyView {
    match result {
        Ok(reply) => reply,
        Err(failure) => rejection_reply(failure),
    }
}

/// The payload of a request, as contracts speak of it.
pub open spec fn payload_view(payload: Option<Task>) -> Option<TaskView> {
    match payload {
        Some(task) => Some(task@),
        None => None,
    }
}

/// The outcome of an insert, as contracts speak of it.
pub open spec fn insert_view(outcome: Result<String, StorageError>) -> Result<
    Seq<char>,
    StorageError,
> {
    match outcome {
        Ok(id) => Ok(id@),
        Err(e) => Err(e),
    }
}

/// What a step function returned, as contracts speak of it.
pub open spec fn step_view(result: Result<Step, Failure>) -> Result<StepView, Failure> {
    match result {
        Ok(step) => Ok(step@),
        Err(failure) => Err(failure),
    }
}

/// What a handler returned, as contracts speak of it.
pub open spec fn reply_view(result: Result<Reply, Failure>) -> Result<ReplyView, Failure> {
    match result {
        Ok(reply) => Ok(reply@),
        Err(failure) => Err(failure),
    }
}

/// Answers the liveness probe.
pub fn health_check() -> (reply: Reply)
    ensures
        reply@ == health_reply(),
{
    Reply::text(Status::Okay, "Server is healthy")
}

/// Turns a failure into the reply that reports it.
pub fn handle_rejection(failure: Failure) -> (reply: Reply)
    ensures
        reply@ == rejection_reply(failure),
{
    match failure {
        Failure::Input => Reply::text(Status::BadRequest, "Bad Request"),
        Failure::Storage(_) => Reply::text(Status::InternalServerError, "Internal Server Error"),
        Failure::Routing => Reply::text(Status::NotFound, "Not Found"),
    }
}

/// Decides what is done with a request. `payload` is the body decoded as a
/// task, or `None` where it does not decode; it matters on the create route
/// only. A task that goes to the store goes without an identifier.
pub fn dispatch(method: Method, path: &str, payload: Option<Task>) -> (next: Result<Step, Failure>)
    ensures
        step_view(next) == dispatch_of(method, path@, payload_view(payload)),
{
    match route(method, path) {
        Route::Health => Ok(Step::Respond(health_check())),
        Route::Add => match payload {
            Some(task) => Ok(Step::Insert(task.without_id())),
            None => Err(Failure::Input),
        },
        Route::List => Ok(Step::FindAll),
        Route::NotFound => Err(Failure::Routing),
    }
}

/// Answers a create request once the store has answered the insert:
/// the identifier that the store assigned, or the store's failure unchanged.
pub fn add(outcome: Result<String, StorageError>) -> (result: Result<Reply, Failure>)
    ensures
        reply_view(result) == add_of(insert_view(outcome)),
{
    match outcome {
        Ok(id) => Ok(Reply { status: Status::Created, body: Body::Inserted(id) }),
        Err(e) => Err(Failure::Storage(e)),
    }
}

/// Answers a list request once the listing has ended: every task in the
/// store's order, or the store's failure unchanged.
pub fn list(outcome: Result<Vec<Task>, StorageError>) -> (result: Result<Reply, Failure>)
    ensures
        reply_view(result) == list_of(outcome_view(outcome)),
{
    match outcome {
        Ok(tasks) => Ok(Reply { status: Status::Okay, body: Body::Tasks(tasks) }),
        Err(e) => Err(Failure::Storage(e)),
    }
}

/// The reply that goes out for what a handler returned: its own reply, or
/// the one that reports its failure.
pub fn recover(result: Result<Reply, Failure>) -> (reply: Reply)
    ensures
        reply@ == recover_of(reply_view(result)),
{
    match result {
        Ok(reply) => reply,
        Err(failure) => handle_rejection(failure),
    }
}

/// What a list request is answered with, given what each step of the
/// store's iteration gave.
pub open spec fn list_reply(items: Seq<Result<TaskView, StorageError>>) -> ReplyView {
    recover_of(list_of(list_all_of(items)))
}

/// Listing again with nothing written in between gives the same documents:
/// two iterations without a failure that give the same documents, in
/// whatever order, are answered with the same status and the same documents.
pub proof fn listing_again_gives_the_same_documents(
    first: Seq<Result<TaskView, StorageError>>,
    second: Seq<Result<TaskView, StorageError>>,
)
    requires
        all_given(first),
        all_given(second),
        documents(first).to_multiset() == documents(second).to_multiset(),
    ensures
        list_reply(first).status == list_reply(second).status,
        list_reply(first).tasks().to_multiset() == list_reply(second).tasks().to_multiset(),
        first == second ==> list_reply(first) == list_reply(second),
{
}

/// What goes to the store on a create request does not depend on the
/// identifier that the caller sent, and carries none.
pub proof fn create_ignores_the_supplied_id(a: TaskView, b: TaskView)
    requires
        a.description == b.description,
        a.is_complete == b.is_complete,
    ensures
        dispatch_of(Method::Post, "/add"@, Some(a)) == dispatch_of(Method::Post, "/add"@, Some(b)),
        dispatch_of(Method::Post, "/add"@, Some(a)) matches Ok(StepView::Insert(task))
            && task.id.is_none() && task.description == a.description && task.is_complete
            == a.is_complete,
{
}

/// A request whose body does not decode never reaches the store as an
/// insert, whatever its request line; on the create route it is answered
/// with a client error.
pub proof fn malformed_create_is_refused(method: Method, path: Seq<char>)
    ensures
        !(dispatch_of(method, path, None) matches Ok(StepView::Insert(_))),
        route_of(method, path) == Route::Add ==> {
            &&& dispatch_of(method, path, None) == Err::<StepView, Failure>(Failure::Input)
            &&& recover_of(Err(Failure::Input)).status == Status::BadRequest
            &&& recover_of(Err(Failure::Input)).status.is_client_error()
        },
{
}

/// Listing an empty store is answered with success and an empty sequence.
pub proof fn empty_store_lists_nothing()
    ensures
        list_reply(Seq::empty()) == (ReplyView {
            status: Status::Okay,
            body: BodyView::Tasks(Seq::empty()),
        }),
{
    let items = Seq::<Result<TaskView, StorageError>>::empty();
    assert(all_given(items));
    assert(documents(items) =~= Seq::<TaskView>::empty());
}

/// A storage failure on either endpoint is answered with a server error
/// that carries no document and does not say which failure it was.
pub proof fn storage_failure_is_a_server_error(e: StorageError)
    ensures
        recover_of(add_of(Err(e))).status.is_server_error(),
        recover_of(list_of(Err(e))).status.is_server_error(),
        recover_of(add_of(Err(e))) == recover_of(list_of(Err(e))),
        recover_of(list_of(Err(e))).tasks().len() == 0,
        recover_of(list_of(Err(e))) == ReplyView::text(
            Status::InternalServerError,
            "Internal Server Error"@,
        ),
{
}

/// A list reply carries every document of the iteration, with success, or
/// none, with a server error: never a part of them.
pub proof fn list_reply_is_all_or_nothing(items: Seq<Result<TaskView, StorageError>>)
    ensures
        all_given(items) ==> list_reply(items).status == Status::Okay && list_reply(items).tasks()
            == documents(items) && list_reply(items).tasks().len() == items.len(),
        !all_given(items) ==> list_reply(items).status.is_server_error() && list_reply(
            items,
        ).tasks().len() == 0,
{
    if !all_given(items) {
        failure_has_a_first(items);
    }
}

/// Every insert that the store acknowledged is answered with success, and
/// the replies to two inserts differ where the identifiers do.
pub proof fn replies_tell_identifiers_apart(a: Seq<char>, b: Seq<char>)
    ensures
        add_of(Ok(a)) matches Ok(reply) && reply.status == Status::Created && reply.status.is_success(),
        add_of(Ok(a)) == add_of(Ok(b)) ==> a == b,
{
}

} // verus!
