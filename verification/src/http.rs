//! The HTTP surface: methods, status codes, replies and the route table.

use crate::task::{task_views, Task, TaskView};
use vstd::prelude::*;

verus! {

/// The status of a reply.
#[derive(Clone, Copy, Debug, PartialEq, Eq, Structural)]
pub enum Status {
    Okay,
    Created,
    BadRequest,
    NotFound,
    InternalServerError,
}

impl Status {
    /// The numeric code that goes on the wire.
    pub open spec fn spec_code(self) -> int {
        match self {
            Status::Okay => 200,
            Status::Created => 201,
            Status::BadRequest => 400,
            Status::NotFound => 404,
            Status::InternalServerError => 500,
        }
    }

    /// A code of the 200 class.
    pub open spec fn is_success(self) -> bool {
        200 <= self.spec_code() < 300
    }

    /// A code of the 400 class.
    pub open spec fn is_client_error(self) -> bool {
        400 <= self.spec_code() < 500
    }

    /// A code of the 500 class.
    pub open spec fn is_server_error(self) -> bool {
        500 <= self.spec_code() < 600
    }

    /// The numeric code that goes on the wire.
    pub fn code(self) -> (code: u16)
        ensures
            code == self.spec_code(),
    {
        match self {
            Status::Okay => 200,
            Status::Created => 201,
            Status::BadRequest => 400,
            Status::NotFound => 404,
            Status::InternalServerError => 500,
        }
    }
}

/// The method of a request, as far as the route table tells methods apart.
#[derive(Clone, Copy, Debug, PartialEq, Eq, Structural)]
pub enum Method {
    Get,
    Post,
    Other,
}

/// Where a request goes.
#[derive(Clone, Copy, Debug, PartialEq, Eq, Structural)]
pub enum Route {
    /// `GET /health`: liveness probe.
    Health,
    /// `POST /add`: create a task.
    Add,
    /// `GET /list`: all tasks.
    List,
    /// Anything else.
    NotFound,
}

/// The method that a name on the request line stands for. Names are upper
/// case, as on the wire.
pub open spec fn method_of(name: Seq<char>) -> Method {
    if name == "GET"@ {
        Method::Get
    } else if name == "POST"@ {
        Method::Post
    } else {
        Method::Other
    }
}

/// The route table: a path is matched whole.
pub open spec fn route_of(method: Method, path: Seq<char>) -> Route {
    if method == Method::Get && path == "/health"@ {
        Route::Health
    } else if method == Method::Post && path == "/add"@ {
        Route::Add
    } else if method == Method::Get && path == "/list"@ {
        Route::List
    } else {
        Route::NotFound
    }
}

/// Whether two texts hold the same characters.
pub fn same_text(a: &str, b: &str) -> (same: bool)
    ensures
        same == (a@ == b@),
{
    let left: String = a.to_owned();
    let right: String = b.to_owned();
    left == right
}

impl Method {
    /// Reads a method name off the request line.
    pub fn from_name(name: &str) -> (method: Method)
        ensures
            method == method_of(name@),
    {
        if same_text(name, "GET") {
            Method::Get
        } else if same_text(name, "POST") {
            Method::Post
        } else {
            Method::Other
        }
    }
}

/// Looks a request line up in the route table.
pub fn route(method: Method, path: &str) -> (found: Route)
    ensures
        found == route_of(method, path@),
{
    match method {
        Method::Get => {
            if same_text(path, "/health") {
                Route::Health
            } else if same_text(path, "/list") {
                Route::List
            } else {
                Route::NotFound
            }
        },
        Method::Post => {
            if same_text(path, "/add") {
                Route::Add
            } else {
                Route::NotFound
            }
        },
        Method::Other => Route::NotFound,
    }
}

/// Whether the cross-origin policy lets a page of another origin use the
/// method. The policy admits every origin.
pub open spec fn cors_allows(method: Method) -> bool {
    method == Method::Get || method == Method::Post
}

/// The methods that the cross-origin policy admits, by name: those that the
/// route table uses.
pub fn cors_allowed_methods() -> (names: Vec<&'static str>)
    ensures
        names@.len() == 2,
        names@[0]@ == "GET"@,
        names@[1]@ == "POST"@,
        forall|i: int| 0 <= i < names@.len() ==> cors_allows(method_of(#[trigger] names@[i]@)),
{
    let mut names: Vec<&'static str> = Vec::new();
    names.push("GET");
    names.push("POST");
    proof {
        reveal_strlit("GET");
        reveal_strlit("POST");
    }
    names
}

/// The request headers that the cross-origin policy admits, by name.
pub fn cors_allowed_headers() -> (names: Vec<&'static str>)
    ensures
        names@.len() == 1,
        names@[0]@ == "content-type"@,
{
    let mut names: Vec<&'static str> = Vec::new();
    names.push("content-type");
    names
}

/// A reply body as contracts speak of it.
pub enum BodyView {
    Text(Seq<char>),
    Inserted(Seq<char>),
    Tasks(Seq<TaskView>),
}

/// What a reply carries. The caller puts it on the wire: a text as it is,
/// the other two as JSON.
#[derive(Debug, PartialEq, Eq)]
pub enum Body {
    /// A fixed text.
    Text(String),
    /// The acknowledgement of an insert: the identifier that the store
    /// assigned.
    Inserted(String),
    /// The tasks of the store, in the order in which the store gave them.
    Tasks(Vec<Task>),
}

impl View for Body {
    type V = BodyView;

    open spec fn view(&self) -> BodyView {
        match self {
            Body::Text(text) => BodyView::Text(text@),
            Body::Inserted(id) => BodyView::Inserted(id@),
            Body::Tasks(tasks) => BodyView::Tasks(task_views(tasks@)),
        }
    }
}

/// A reply as contracts speak of it.
pub struct ReplyView {
    pub status: Status,
    pub body: BodyView,
}

/// A status and a body.
#[derive(Debug, PartialEq, Eq)]
pub struct Reply {
    pub status: Status,
    pub body: Body,
}

impl View for Reply {
    type V = ReplyView;

    open spec fn view(&self) -> ReplyView {
        ReplyView { status: self.status, body: self.body@ }
    }
}

impl ReplyView {
    /// A reply that carries a fixed text.
    pub open spec fn text(status: Status, text: Seq<char>) -> ReplyView {
        ReplyView { status, body: BodyView::Text(text) }
    }

    /// The tasks that the reply carries: none unless its body is a task list.
    pub open spec fn tasks(self) -> Seq<TaskView> {
        match self.body {
            BodyView::Tasks(tasks) => tasks,
            _ => Seq::empty(),
        }
    }
}

impl Reply {
    /// A reply that carries a fixed text.
    pub fn text(status: Status, text: &str) -> (reply: Reply)
        ensures
            reply@ == ReplyView::text(status, text@),
    {
        Reply { status, body: Body::Text(text.to_owned()) }
    }
}

} // verus!
