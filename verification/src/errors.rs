use crate::item_service::ApplicationError;
use vstd::prelude::*;
use vstd::string::StringExecFns;

verus! {

/// Transport-level failures, one per response class.
#[derive(Debug)]
pub enum ServerError {
    InternalServerError,
    UnprocessableEntity(String),
    BadRequest(String),
    NotFound,
}

/// The body of an error response.
#[derive(Debug, PartialEq, Eq)]
pub struct ErrorResponse {
    pub message: String,
}

impl Default for ErrorResponse {
    fn default() -> (r: Self)
        ensures
            r.message@.len() == 0,
    {
        ErrorResponse { message: String::new() }
    }
}

impl ServerError {
    /// The HTTP status code this error maps to.
    pub open spec fn spec_status_code(&self) -> u16 {
        match self {
            ServerError::InternalServerError => 500,
            ServerError::UnprocessableEntity(_) => 422,
            ServerError::BadRequest(_) => 400,
            ServerError::NotFound => 404,
        }
    }

    pub fn status_code(&self) -> (r: u16)
        ensures
            r == self.spec_status_code(),
    {
        match self {
            ServerError::InternalServerError => 500,
            ServerError::UnprocessableEntity(_) => 422,
            ServerError::BadRequest(_) => 400,
            ServerError::NotFound => 404,
        }
    }

    /// What the response body says: generic wording for internal failures,
    /// the carried message otherwise.
    pub open spec fn spec_message(&self) -> Seq<char> {
        match self {
            ServerError::InternalServerError => "Internal server"@,
            ServerError::UnprocessableEntity(m) => m@,
            ServerError::BadRequest(m) => m@,
            ServerError::NotFound => "Resource not found"@,
        }
    }

    pub fn response_body(&self) -> (r: ErrorResponse)
        ensures
            r.message@ == self.spec_message(),
    {
        match self {
            ServerError::InternalServerError => ErrorResponse {
                message: String::from_str("Internal server"),
            },
            ServerError::UnprocessableEntity(m) => ErrorResponse { message: m.clone() },
            ServerError::BadRequest(m) => ErrorResponse { message: m.clone() },
            ServerError::NotFound => ErrorResponse {
                message: String::from_str("Resource not found"),
            },
        }
    }

    /// How application outcomes map to transport errors: a validation
    /// failure to a bad request carrying its message, a missed lookup to
    /// not-found, everything else to an internal failure.
    pub fn of_application_error(error: ApplicationError) -> (r: ServerError)
        ensures
            match error {
                ApplicationError::InternalError => r is InternalServerError,
                ApplicationError::ValidationError(m) => r matches ServerError::BadRequest(b)
                    && b@ == m@,
                ApplicationError::ResourceNotFound => r is NotFound,
            },
    {
        match error {
            ApplicationError::InternalError => ServerError::InternalServerError,
            ApplicationError::ValidationError(m) => ServerError::BadRequest(m),
            ApplicationError::ResourceNotFound => ServerError::NotFound,
        }
    }
}

} // verus!
