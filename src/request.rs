//! Requests to the service and the judgement of its answers.
use vstd::prelude::*;
use crate::pomo::Pomo;
use crate::todo::{SubTodo, Todo};

verus! {

/// The HTTP method of a request.
#[derive(Clone, Copy, Debug, PartialEq, Eq, Structural)]
pub enum Method {
    Get,
    Post,
    Patch,
    Delete,
}

/// What a request does to a resource.
#[derive(Clone, Copy, Debug, PartialEq, Eq, Structural)]
pub enum Operation {
    Fetch,
    Create,
    Update,
    Delete,
}

/// The method of each operation.
pub open spec fn method_of(op: Operation) -> Method {
    match op {
        Operation::Fetch => Method::Get,
        Operation::Create => Method::Post,
        Operation::Update => Method::Patch,
        Operation::Delete => Method::Delete,
    }
}

/// The status of a successful answer to each operation.
pub open spec fn success_status(op: Operation) -> u16 {
    match op {
        Operation::Fetch => 200,
        Operation::Create => 201,
        Operation::Update => 200,
        Operation::Delete => 204,
    }
}

/// The status of a successful answer to `op`.
pub fn expected_status(op: Operation) -> (r: u16)
    ensures
        r == success_status(op),
{
    match op {
        Operation::Fetch => 200,
        Operation::Create => 201,
        Operation::Update => 200,
        Operation::Delete => 204,
    }
}

/// The method of `op`.
pub fn method_for(op: Operation) -> (r: Method)
    ensures
        r == method_of(op),
{
    match op {
        Operation::Fetch => Method::Get,
        Operation::Create => Method::Post,
        Operation::Update => Method::Patch,
        Operation::Delete => Method::Delete,
    }
}

/// The body of a request: nothing, JSON text, or a record to be sent as JSON.
#[derive(Clone, Debug)]
pub enum Payload {
    Empty,
    Json(String),
    Todo(Todo),
    SubTodo(SubTodo),
    Pomo(Pomo),
}

/// One request to the service.
#[derive(Clone, Debug)]
pub struct Request {
    pub method: Method,
    pub url: String,
    /// The value of the `Authorization` header.
    pub authorization: String,
    pub payload: Payload,
    /// The status of a successful answer.
    pub expected_status: u16,
}

/// Why a call failed.
#[derive(Clone, Debug)]
pub enum ApiError {
    /// The record lacks the identifier that the call needs; nothing was sent.
    Validation,
    /// The connection, TLS or I/O failed.
    Transport(String),
    /// The answer came with another status than the call expects.
    Status { code: u16, body: String },
    /// The answer's body does not have the expected shape.
    Decode(String),
}

impl Request {
    /// The request of operation `op` on `url`.
    pub fn new(op: Operation, url: String, authorization: String, payload: Payload) -> (r: Request)
        ensures
            r.method == method_of(op),
            r.url == url,
            r.authorization == authorization,
            r.payload == payload,
            r.expected_status == success_status(op),
    {
        Request {
            method: method_for(op),
            url,
            authorization,
            payload,
            expected_status: expected_status(op),
        }
    }

    /// Whether the request carries a body.
    pub open spec fn has_body(self) -> bool {
        !(self.payload is Empty)
    }

    /// Whether the request carries a body, which is then sent as JSON.
    pub fn is_json(&self) -> (r: bool)
        ensures
            r == self.has_body(),
    {
        match self.payload {
            Payload::Empty => false,
            _ => true,
        }
    }

    /// Judges the answer: its body when the status is the expected one, else
    /// a status error with the status and body that came.
    pub fn accept(&self, status: u16, body: String) -> (r: Result<String, ApiError>)
        ensures
            status == self.expected_status ==> r == Ok::<String, ApiError>(body),
            status != self.expected_status ==> r == Err::<String, ApiError>(
                ApiError::Status { code: status, body },
            ),
    {
        if status == self.expected_status {
            Ok(body)
        } else {
            Err(ApiError::Status { code: status, body })
        }
    }
}

} // verus!
