use todo_backend::http::{Body, Method, Reply, Status};
use todo_backend::repository::{Listing, StorageError};
use todo_backend::router::{dispatch, handle_rejection, health_check, list, recover, Failure, Step};
use todo_backend::task::Task;

fn text(status: Status, body: &str) -> Reply {
    Reply { status, body: Body::Text(body.to_string()) }
}

fn stored(id: &str, description: &str, is_complete: bool) -> Task {
    Task { id: Some(id.to_string()), description: description.to_string(), is_complete }
}

/// Stands in for the store: gives each insert the next identifier and keeps the task.
fn store_insert(store: &mut Vec<Task>, task: Task) -> Result<String, StorageError> {
    let id = format!("{:024x}", store.len() + 1);
    store.push(Task { id: Some(id.clone()), description: task.description, is_complete: task.is_complete });
    Ok(id)
}

fn store_list(store: &[Task]) -> Result<Vec<Task>, StorageError> {
    let mut listing = Listing::begin();
    for task in store {
        listing = listing.record(Ok(task.clone()));
    }
    listing.finish()
}

fn serve_create(store: &mut Vec<Task>, payload: Option<Task>) -> Reply {
    match dispatch(Method::Post, "/add", payload) {
        Ok(Step::Insert(task)) => {
            let outcome = store_insert(store, task);
            recover(todo_backend::router::add(outcome))
        }
        Ok(Step::Respond(reply)) => reply,
        Ok(Step::FindAll) => unreachable!(),
        Err(failure) => handle_rejection(failure),
    }
}

fn serve_list(store: &[Task]) -> Reply {
    match dispatch(Method::Get, "/list", None) {
        Ok(Step::FindAll) => recover(list(store_list(store))),
        _ => unreachable!(),
    }
}

#[test]
fn health_check_is_a_fixed_success() {
    assert_eq!(health_check(), text(Status::Okay, "Server is healthy"));
    assert_eq!(health_check().status.code(), 200);
}

#[test]
fn health_route_answers_without_the_store() {
    assert_eq!(dispatch(Method::Get, "/health", None), Ok(Step::Respond(text(Status::Okay, "Server is healthy"))));
    let payload = Some(Task::new("ignored".to_string(), true));
    assert_eq!(dispatch(Method::Get, "/health", payload), Ok(Step::Respond(text(Status::Okay, "Server is healthy"))));
}

#[test]
fn input_error_is_a_bad_request() {
    let reply = handle_rejection(Failure::Input);
    assert_eq!(reply, text(Status::BadRequest, "Bad Request"));
    assert_eq!(reply.status.code(), 400);
}

#[test]
fn storage_error_is_an_internal_server_error() {
    let reply = handle_rejection(Failure::Storage(StorageError::Connection));
    assert_eq!(reply, text(Status::InternalServerError, "Internal Server Error"));
    assert_eq!(reply.status.code(), 500);
}

#[test]
fn storage_errors_are_not_told_apart() {
    assert_eq!(
        handle_rejection(Failure::Storage(StorageError::Connection)),
        handle_rejection(Failure::Storage(StorageError::Query))
    );
}

#[test]
fn routing_error_is_not_found() {
    let reply = handle_rejection(Failure::Routing);
    assert_eq!(reply, text(Status::NotFound, "Not Found"));
    assert_eq!(reply.status.code(), 404);
}

#[test]
fn create_sends_the_task_to_the_store() {
    let payload = Task::new("buy milk".to_string(), false);
    assert_eq!(
        dispatch(Method::Post, "/add", Some(payload)),
        Ok(Step::Insert(Task { id: None, description: "buy milk".to_string(), is_complete: false }))
    );
}

#[test]
fn create_discards_a_supplied_identifier() {
    let payload = Task { id: Some("forged".to_string()), description: "x".to_string(), is_complete: true };
    assert_eq!(
        dispatch(Method::Post, "/add", Some(payload)),
        Ok(Step::Insert(Task { id: None, description: "x".to_string(), is_complete: true }))
    );
}

#[test]
fn forged_identifier_is_not_the_stored_one() {
    let mut store: Vec<Task> = Vec::new();
    let payload = Task { id: Some("forged".to_string()), description: "x".to_string(), is_complete: true };
    let reply = serve_create(&mut store, Some(payload));
    assert_eq!(reply.status, Status::Created);
    assert_eq!(store.len(), 1);
    assert_ne!(store[0].id, Some("forged".to_string()));
    assert_eq!(store[0].description, "x");
    assert!(store[0].is_complete);
    assert_eq!(reply.body, Body::Inserted(store[0].id.clone().unwrap()));
}

#[test]
fn malformed_create_is_a_client_error_and_stores_nothing() {
    assert_eq!(dispatch(Method::Post, "/add", None), Err(Failure::Input));
    let mut store: Vec<Task> = vec![stored("a", "kept", false)];
    let reply = serve_create(&mut store, None);
    assert_eq!(reply, text(Status::BadRequest, "Bad Request"));
    assert_eq!(reply.status.code(), 400);
    assert_eq!(store.len(), 1);
    assert_eq!(serve_list(&store).body, Body::Tasks(vec![stored("a", "kept", false)]));
}

#[test]
fn list_route_asks_for_every_task() {
    assert_eq!(dispatch(Method::Get, "/list", None), Ok(Step::FindAll));
    let payload = Some(Task::new("ignored".to_string(), false));
    assert_eq!(dispatch(Method::Get, "/list", payload), Ok(Step::FindAll));
}

#[test]
fn unknown_request_lines_are_routing_errors() {
    assert_eq!(dispatch(Method::Get, "/", None), Err(Failure::Routing));
    assert_eq!(dispatch(Method::Get, "/add", None), Err(Failure::Routing));
    assert_eq!(dispatch(Method::Post, "/list", None), Err(Failure::Routing));
    assert_eq!(dispatch(Method::Other, "/add", Some(Task::new("x".to_string(), false))), Err(Failure::Routing));
    assert_eq!(dispatch(Method::Post, "/update", Some(Task::new("x".to_string(), false))), Err(Failure::Routing));
    assert_eq!(recover(Err(Failure::Routing)), text(Status::NotFound, "Not Found"));
}

#[test]
fn add_answers_with_the_assigned_identifier() {
    let result = todo_backend::router::add(Ok("65f0c1d2e3a4b5c6d7e8f901".to_string()));
    assert_eq!(
        result,
        Ok(Reply { status: Status::Created, body: Body::Inserted("65f0c1d2e3a4b5c6d7e8f901".to_string()) })
    );
    assert_eq!(recover(result).status.code(), 201);
}

#[test]
fn add_hands_on_the_storage_failure() {
    assert_eq!(
        todo_backend::router::add(Err(StorageError::Connection)),
        Err(Failure::Storage(StorageError::Connection))
    );
    assert_eq!(todo_backend::router::add(Err(StorageError::Query)), Err(Failure::Storage(StorageError::Query)));
    let reply = recover(todo_backend::router::add(Err(StorageError::Connection)));
    assert_eq!(reply, text(Status::InternalServerError, "Internal Server Error"));
}

#[test]
fn list_of_an_empty_store_is_an_empty_sequence() {
    let result = list(Ok(Vec::new()));
    assert_eq!(result, Ok(Reply { status: Status::Okay, body: Body::Tasks(Vec::new()) }));
    let store: Vec<Task> = Vec::new();
    let reply = serve_list(&store);
    assert_eq!(reply.status.code(), 200);
    assert_eq!(reply.body, Body::Tasks(Vec::new()));
}

#[test]
fn list_keeps_the_order_of_the_store() {
    let result = list(Ok(vec![stored("b", "second", true), stored("a", "first", false)]));
    assert_eq!(
        result,
        Ok(Reply {
            status: Status::Okay,
            body: Body::Tasks(vec![stored("b", "second", true), stored("a", "first", false)]),
        })
    );
}

#[test]
fn list_hands_on_the_storage_failure() {
    assert_eq!(list(Err(StorageError::Connection)), Err(Failure::Storage(StorageError::Connection)));
    assert_eq!(list(Err(StorageError::Query)), Err(Failure::Storage(StorageError::Query)));
    let reply = recover(list(Err(StorageError::Query)));
    assert_eq!(reply, text(Status::InternalServerError, "Internal Server Error"));
}

#[test]
fn list_that_fails_midway_carries_no_document() {
    let outcome = Listing::begin()
        .record(Ok(stored("a", "first", false)))
        .record(Err(StorageError::Connection))
        .record(Ok(stored("b", "second", false)))
        .finish();
    let reply = recover(list(outcome));
    assert_eq!(reply, text(Status::InternalServerError, "Internal Server Error"));
}

#[test]
fn recover_passes_a_reply_through() {
    let reply = Reply { status: Status::Created, body: Body::Inserted("abc".to_string()) };
    assert_eq!(recover(Ok(reply)), Reply { status: Status::Created, body: Body::Inserted("abc".to_string()) });
    assert_eq!(recover(Err(Failure::Input)), text(Status::BadRequest, "Bad Request"));
}

#[test]
fn round_trip_of_one_task() {
    let mut store: Vec<Task> = Vec::new();
    let payload = Task { id: None, description: "buy milk".to_string(), is_complete: false };
    let created = serve_create(&mut store, Some(payload));
    assert_eq!(created.status, Status::Created);
    let id = match created.body {
        Body::Inserted(id) => id,
        other => panic!("unexpected body {:?}", other),
    };
    assert!(!id.is_empty());
    let listed = serve_list(&store);
    assert_eq!(listed.status, Status::Okay);
    assert_eq!(
        listed.body,
        Body::Tasks(vec![Task { id: Some(id), description: "buy milk".to_string(), is_complete: false }])
    );
}

#[test]
fn listing_twice_gives_the_same_documents() {
    let mut store: Vec<Task> = Vec::new();
    serve_create(&mut store, Some(Task::new("one".to_string(), false)));
    serve_create(&mut store, Some(Task::new("two".to_string(), true)));
    let first = serve_list(&store);
    let second = serve_list(&store);
    assert_eq!(first, second);
    match first.body {
        Body::Tasks(tasks) => assert_eq!(tasks.len(), 2),
        other => panic!("unexpected body {:?}", other),
    }
}

#[test]
fn fifty_creates_give_fifty_distinct_identifiers() {
    let mut store: Vec<Task> = Vec::new();
    let mut ids: Vec<String> = Vec::new();
    let mut n: u32 = 0;
    while n < 50 {
        let reply = serve_create(&mut store, Some(Task::new(format!("task {}", n), n % 2 == 0)));
        assert_eq!(reply.status, Status::Created);
        match reply.body {
            Body::Inserted(id) => {
                assert!(!ids.contains(&id));
                ids.push(id);
            }
            other => panic!("unexpected body {:?}", other),
        }
        n += 1;
    }
    assert_eq!(ids.len(), 50);
    match serve_list(&store).body {
        Body::Tasks(tasks) => assert_eq!(tasks.len(), 50),
        other => panic!("unexpected body {:?}", other),
    }
}
