//! From a decoded request to the response: which operation of the gateway a
//! request stands for, and which status answers each outcome.
//!
//! A response carries a status and, for a listing that succeeded, the
//! entries. A failure of the store is answered with a status alone.

use crate::statement::{
    spec_create_statement, spec_delete_statement, spec_list_statement, spec_update_statement,
    StatementView,
};
use crate::store::{Gateway, StoreError, UpdateError};
use crate::todo::{
    todo_views, CreateTodo, CreateTodoView, Todo, TodoView, UpdateTodo, UpdateTodoView,
};
use vstd::prelude::*;

verus! {

/// The status of a response.
#[derive(Debug, Clone, Copy, PartialEq, Eq)]
pub enum Status {
    Success,
    Created,
    BadRequest,
    InternalServerError,
}

impl Status {
    /// The number of the status.
    pub open spec fn spec_code(self) -> u16 {
        match self {
            Status::Success => 200,
            Status::Created => 201,
            Status::BadRequest => 400,
            Status::InternalServerError => 500,
        }
    }

    /// The number of the status.
    pub fn code(&self) -> (code: u16)
        ensures
            code == self.spec_code(),
    {
        match self {
            Status::Success => 200,
            Status::Created => 201,
            Status::BadRequest => 400,
            Status::InternalServerError => 500,
        }
    }
}

/// A decoded request.
#[derive(Debug, Clone, PartialEq, Eq)]
pub enum Request {
    /// `GET /todos`
    List,
    /// `POST /todos`
    Create(CreateTodo),
    /// `PATCH /todos`
    Update(UpdateTodo),
    /// `DELETE /todos/{id}`
    Delete(u64),
}

/// What a [`Request`] is in contracts.
pub enum RequestView {
    List,
    Create(CreateTodoView),
    Update(UpdateTodoView),
    Delete(u64),
}

impl View for Request {
    type V = RequestView;

    open spec fn view(&self) -> RequestView {
        match self {
            Request::List => RequestView::List,
            Request::Create(input) => RequestView::Create(input@),
            Request::Update(input) => RequestView::Update(input@),
            Request::Delete(id) => RequestView::Delete(*id),
        }
    }
}

/// A response: the status and, for a listing, the entries.
#[derive(Debug, Clone, PartialEq, Eq)]
pub struct Response {
    pub status: Status,
    pub todos: Option<Vec<Todo>>,
}

/// What a [`Response`] is in contracts.
pub struct ResponseView {
    pub status: Status,
    pub todos: Option<Seq<TodoView>>,
}

impl View for Response {
    type V = ResponseView;

    open spec fn view(&self) -> ResponseView {
        ResponseView {
            status: self.status,
            todos: match self.todos {
                Some(list) => Some(todo_views(list@)),
                None => None,
            },
        }
    }
}

/// The response that is a status and nothing more.
pub open spec fn bare(status: Status) -> ResponseView {
    ResponseView { status, todos: None }
}

impl RequestView {
    /// Whether the request is turned down for what it holds: an update that
    /// names no field.
    pub open spec fn is_rejected(self) -> bool {
        self matches RequestView::Update(input) && !input.has_change()
    }

    /// The statement that carries out the request.
    pub open spec fn statement(self) -> StatementView
        recommends
            !self.is_rejected(),
    {
        match self {
            RequestView::List => spec_list_statement(),
            RequestView::Create(input) => spec_create_statement(input),
            RequestView::Update(input) => spec_update_statement(input),
            RequestView::Delete(id) => spec_delete_statement(id),
        }
    }

    /// The status that answers the request where the store carried it out.
    pub open spec fn success(self) -> Status {
        match self {
            RequestView::Create(_) => Status::Created,
            _ => Status::Success,
        }
    }

    /// Whether `response` may answer the request. A rejected request is
    /// answered with `BadRequest`. Any other request is answered with its
    /// status of success or, where the store failed, with
    /// `InternalServerError`. Entries come with a listing that succeeded
    /// and with nothing else.
    pub open spec fn answered_by(self, response: ResponseView) -> bool {
        if self.is_rejected() {
            response == bare(Status::BadRequest)
        } else if response.status == self.success() {
            response.todos is Some <==> self is List
        } else {
            response == bare(Status::InternalServerError)
        }
    }

    /// The response to the request where the store cannot be reached.
    pub open spec fn unanswered(self) -> ResponseView {
        if self.is_rejected() {
            bare(Status::BadRequest)
        } else {
            bare(Status::InternalServerError)
        }
    }
}

/// The response to a listing: the entries with `Success`, or
/// `InternalServerError` where the store failed.
pub fn list_response(result: Result<Vec<Todo>, StoreError>) -> (response: Response)
    ensures
        result matches Ok(todos) ==> response.status == Status::Success && response.todos == Some(
            todos,
        ),
        result is Err ==> response@ == bare(Status::InternalServerError),
{
    match result {
        Ok(todos) => Response { status: Status::Success, todos: Some(todos) },
        Err(_) => Response { status: Status::InternalServerError, todos: None },
    }
}

/// The response to a creation: `Created`, or `InternalServerError` where
/// the store failed.
pub fn create_response(result: Result<usize, StoreError>) -> (response: Response)
    ensures
        result is Ok ==> response@ == bare(Status::Created),
        result is Err ==> response@ == bare(Status::InternalServerError),
{
    match result {
        Ok(_) => Response { status: Status::Created, todos: None },
        Err(_) => Response { status: Status::InternalServerError, todos: None },
    }
}

/// The response to a removal: `Success`, whether or not an entry was removed,
/// or `InternalServerError` where the store failed.
pub fn delete_response(result: Result<usize, StoreError>) -> (response: Response)
    ensures
        result is Ok ==> response@ == bare(Status::Success),
        result is Err ==> response@ == bare(Status::InternalServerError),
{
    match result {
        Ok(_) => Response { status: Status::Success, todos: None },
        Err(_) => Response { status: Status::InternalServerError, todos: None },
    }
}

/// The response to an update: `Success`, whether or not an entry was changed;
/// `BadRequest` for a request that names no field; `InternalServerError`
/// where the store failed.
pub fn update_response(result: Result<usize, UpdateError>) -> (response: Response)
    ensures
        result is Ok ==> response@ == bare(Status::Success),
        result == Err::<usize, UpdateError>(UpdateError::NoFields) ==> response@ == bare(
            Status::BadRequest,
        ),
        result matches Err(UpdateError::Store(_)) ==> response@ == bare(
            Status::InternalServerError,
        ),
{
    match result {
        Ok(_) => Response { status: Status::Success, todos: None },
        Err(UpdateError::NoFields) => Response { status: Status::BadRequest, todos: None },
        Err(UpdateError::Store(_)) => Response {
            status: Status::InternalServerError,
            todos: None,
        },
    }
}

/// Answers a request: hands it to the operation of the gateway that it
/// stands for, and turns the outcome into the response. A rejected request
/// sends nothing to the store; any other sends the one statement that
/// carries it out. No failure of the store ends in anything but a response.
pub fn handle(store: &mut Gateway, request: Request) -> (response: Response)
    ensures
        request@.answered_by(response@),
        request@.is_rejected() ==> final(store).sent() == old(store).sent(),
        !request@.is_rejected() ==> final(store).sent() == old(store).sent().push(
            request@.statement(),
        ),
{
    match request {
        Request::List => list_response(store.list()),
        Request::Create(input) => create_response(store.create(input)),
        Request::Update(input) => update_response(store.update(input)),
        Request::Delete(id) => delete_response(store.delete(id)),
    }
}

/// Answers a request where the store cannot be reached: a rejected request
/// as ever, any other with `InternalServerError`.
pub fn handle_unreachable(request: &Request) -> (response: Response)
    ensures
        response@ == request@.unanswered(),
{
    let status = match request {
        Request::Update(input) => if input.has_change() {
            Status::InternalServerError
        } else {
            Status::BadRequest
        },
        _ => Status::InternalServerError,
    };
    Response { status, todos: None }
}

} // verus!
