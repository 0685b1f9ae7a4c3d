//! Error taxonomy of the service and its projection onto HTTP.
//!
//! `Error` is the internal classification of everything that can go wrong in
//! a turn; `HTTPError` is the stable wire shape `{code, message}` that a
//! failing request answers with.

use vstd::prelude::*;
use vstd::string::*;

verus! {

/// Internal error classification for a chat turn.
#[derive(Debug)]
pub enum Error {
    InternalServer(String),
    NotFound(String),
    Unauthorized(String),
    Validation { field: String, message: String },
    Conflict(String),
    BadRequest(String),
    Render(String),
    Template(String),
    Parse(String),
    MaliciousPrompt(String),
}

impl Clone for Error {
    fn clone(&self) -> (r: Self)
        ensures
            r == *self,
    {
        match self {
            Error::InternalServer(m) => Error::InternalServer(m.clone()),
            Error::NotFound(m) => Error::NotFound(m.clone()),
            Error::Unauthorized(m) => Error::Unauthorized(m.clone()),
            Error::Validation { field, message } => Error::Validation {
                field: field.clone(),
                message: message.clone(),
            },
            Error::Conflict(m) => Error::Conflict(m.clone()),
            Error::BadRequest(m) => Error::BadRequest(m.clone()),
            Error::Render(m) => Error::Render(m.clone()),
            Error::Template(m) => Error::Template(m.clone()),
            Error::Parse(m) => Error::Parse(m.clone()),
            Error::MaliciousPrompt(m) => Error::MaliciousPrompt(m.clone()),
        }
    }
}

/// The human-readable description of an error, as `message` renders it.
pub open spec fn error_text(e: Error) -> Seq<char> {
    match e {
        Error::BadRequest(detail) => "Bad request: "@ + detail@,
        Error::InternalServer(msg) => "Internal server error: "@ + msg@,
        Error::NotFound(resource) => resource@ + " not found"@,
        Error::Unauthorized(operation) => "Unauthorized: "@ + operation@,
        Error::Validation { field, message } => "Validation error for field "@ + field@ + ": "@
            + message@,
        Error::Conflict(resource) => resource@ + " already exists"@,
        Error::Render(e) => "Render error: "@ + e@,
        Error::Template(e) => "Template error: "@ + e@,
        Error::Parse(msg) => "Parsing error: "@ + msg@,
        Error::MaliciousPrompt(msg) => "Malicious prompt error: "@ + msg@,
    }
}

impl Error {
    pub fn internal_server_error(message: String) -> (r: Self)
        ensures
            r == Error::InternalServer(message),
    {
        Error::InternalServer(message)
    }

    pub fn not_found_error(resource: String) -> (r: Self)
        ensures
            r == Error::NotFound(resource),
    {
        Error::NotFound(resource)
    }

    pub fn unauthorized_error(operation: String) -> (r: Self)
        ensures
            r == Error::Unauthorized(operation),
    {
        Error::Unauthorized(operation)
    }

    pub fn validation_error(field: String, message: String) -> (r: Self)
        ensures
            r == (Error::Validation { field, message }),
    {
        Error::Validation { field, message }
    }

    pub fn conflict_error(resource: String) -> (r: Self)
        ensures
            r == Error::Conflict(resource),
    {
        Error::Conflict(resource)
    }

    pub fn bad_request_error(detail: String) -> (r: Self)
        ensures
            r == Error::BadRequest(detail),
    {
        Error::BadRequest(detail)
    }

    pub fn malicious_prompt_error(detail: String) -> (r: Self)
        ensures
            r == Error::MaliciousPrompt(detail),
    {
        Error::MaliciousPrompt(detail)
    }

    /// Renders the error as one line of text, variant by variant.
    pub fn message(&self) -> (r: String)
        ensures
            r@ == error_text(*self),
    {
        match self {
            Error::BadRequest(detail) => {
                let mut m = "Bad request: ".to_owned();
                m.append(detail.as_str());
                m
            },
            Error::InternalServer(msg) => {
                let mut m = "Internal server error: ".to_owned();
                m.append(msg.as_str());
                m
            },
            Error::NotFound(resource) => {
                let mut m = resource.as_str().to_owned();
                m.append(" not found");
                m
            },
            Error::Unauthorized(operation) => {
                let mut m = "Unauthorized: ".to_owned();
                m.append(operation.as_str());
                m
            },
            Error::Validation { field, message } => {
                let mut m = "Validation error for field ".to_owned();
                m.append(field.as_str());
                m.append(": ");
                m.append(message.as_str());
                m
            },
            Error::Conflict(resource) => {
                let mut m = resource.as_str().to_owned();
                m.append(" already exists");
                m
            },
            Error::Render(e) => {
                let mut m = "Render error: ".to_owned();
                m.append(e.as_str());
                m
            },
            Error::Template(e) => {
                let mut m = "Template error: ".to_owned();
                m.append(e.as_str());
                m
            },
            Error::Parse(msg) => {
                let mut m = "Parsing error: ".to_owned();
                m.append(msg.as_str());
                m
            },
            Error::MaliciousPrompt(msg) => {
                let mut m = "Malicious prompt error: ".to_owned();
                m.append(msg.as_str());
                m
            },
        }
    }
}

/// Wire shape of a failing request: a stable numeric code with a message.
#[derive(Debug)]
pub struct HTTPError {
    pub code: u16,
    pub message: String,
}

/// The HTTP status code owed to each error variant.
pub open spec fn http_code(e: Error) -> u16 {
    match e {
        Error::BadRequest(_) => 400,
        Error::InternalServer(_) => 500,
        Error::NotFound(_) => 404,
        Error::Unauthorized(_) => 401,
        Error::Validation { .. } => 400,
        Error::Conflict(_) => 409,
        Error::MaliciousPrompt(_) => 422,
        Error::Render(_) => 500,
        Error::Template(_) => 500,
        Error::Parse(_) => 400,
    }
}

/// The body message owed to each error variant.
pub open spec fn http_text(e: Error) -> Seq<char> {
    match e {
        Error::BadRequest(detail) => "Bad request: "@ + detail@,
        Error::InternalServer(msg) => "Internal server error: "@ + msg@,
        Error::NotFound(resource) => resource@ + " not found"@,
        Error::Unauthorized(operation) => "Unauthorized: "@ + operation@,
        Error::Validation { field, message } => "Validation error for field "@ + field@ + ": "@
            + message@,
        Error::Conflict(resource) => resource@ + " already exists"@,
        Error::MaliciousPrompt(resource) => "Malicious prompt: "@ + resource@,
        Error::Render(detail) => "Render error: "@ + detail@,
        Error::Template(detail) => "Template error: "@ + detail@,
        Error::Parse(detail) => "Parse error: "@ + detail@,
    }
}

impl HTTPError {
    /// Projects an internal error onto its HTTP status code and body message.
    pub fn new(error: Error) -> (r: Self)
        ensures
            r.code == http_code(error),
            r.message@ == http_text(error),
    {
        match error {
            Error::BadRequest(detail) => {
                let mut m = "Bad request: ".to_owned();
                m.append(detail.as_str());
                HTTPError { code: 400, message: m }
            },
            Error::InternalServer(msg) => {
                let mut m = "Internal server error: ".to_owned();
                m.append(msg.as_str());
                HTTPError { code: 500, message: m }
            },
            Error::NotFound(resource) => {
                let mut m = resource.as_str().to_owned();
                m.append(" not found");
                HTTPError { code: 404, message: m }
            },
            Error::Unauthorized(operation) => {
                let mut m = "Unauthorized: ".to_owned();
                m.append(operation.as_str());
                HTTPError { code: 401, message: m }
            },
            Error::Validation { field, message } => {
                let mut m = "Validation error for field ".to_owned();
                m.append(field.as_str());
                m.append(": ");
                m.append(message.as_str());
                HTTPError { code: 400, message: m }
            },
            Error::Conflict(resource) => {
                let mut m = resource.as_str().to_owned();
                m.append(" already exists");
                HTTPError { code: 409, message: m }
            },
            Error::MaliciousPrompt(resource) => {
                let mut m = "Malicious prompt: ".to_owned();
                m.append(resource.as_str());
                HTTPError { code: 422, message: m }
            },
            Error::Render(detail) => {
                let mut m = "Render error: ".to_owned();
                m.append(detail.as_str());
                HTTPError { code: 500, message: m }
            },
            Error::Template(detail) => {
                let mut m = "Template error: ".to_owned();
                m.append(detail.as_str());
                HTTPError { code: 500, message: m }
            },
            Error::Parse(detail) => {
                let mut m = "Parse error: ".to_owned();
                m.append(detail.as_str());
                HTTPError { code: 400, message: m }
            },
        }
    }
}

} // verus!
