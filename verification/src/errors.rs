//! Error taxonomy of the service and its mapping to HTTP status codes.
//!
//! Failures raised by external collaborators (datastore, cache, codecs)
//! are carried as their rendered text; the variants keep the taxonomy so
//! that the transport layer can map each to the right response class.

use vstd::prelude::*;

verus! {

/// Every failure the service can surface.
#[derive(Debug)]
pub enum AppError {
    Database(String),
    Redis(String),
    Serialization(String),
    BsonDeserialization(String),
    BsonSerialization(String),
    WebSocket(String),
    Authentication(String),
    Validation(String),
    DuplicateIdempotencyKey,
    MessageNotFound,
    ConversationNotFound,
    UserNotFound,
    Internal(String),
}

pub type AppResult<T> = Result<T, AppError>;

impl AppError {
    /// The HTTP status code this error is surfaced as: authentication
    /// failures are unauthorized, validation failures are bad requests,
    /// missing entities are not found, duplicate keys conflict, and
    /// everything else is an internal server error.
    pub open spec fn spec_status_code(&self) -> u16 {
        match self {
            AppError::Authentication(_) => 401,
            AppError::Validation(_) => 400,
            AppError::UserNotFound => 404,
            AppError::MessageNotFound => 404,
            AppError::ConversationNotFound => 404,
            AppError::DuplicateIdempotencyKey => 409,
            _ => 500,
        }
    }

    /// Maps the error to the HTTP status code of its response.
    pub fn status_code(&self) -> (code: u16)
        ensures
            code == self.spec_status_code(),
    {
        match self {
            AppError::Authentication(_) => 401,
            AppError::Validation(_) => 400,
            AppError::UserNotFound => 404,
            AppError::MessageNotFound => 404,
            AppError::ConversationNotFound => 404,
            AppError::DuplicateIdempotencyKey => 409,
            _ => 500,
        }
    }
}

} // verus!
