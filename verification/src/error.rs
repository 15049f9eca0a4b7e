//! The errors that a request can end in, and how each is answered.

use vstd::prelude::*;
use vstd::string::*;

verus! {

pub enum AppError {
    NotFound(String),
    Unauthorized(String),
    BadRequest(String),
    Conflict(String),
    Payment(String),
    Database(String),
    Internal(String),
}

pub type AppResult<T> = Result<T, AppError>;

/// An error as its kind and its text.
pub enum ErrorView {
    NotFound(Seq<char>),
    Unauthorized(Seq<char>),
    BadRequest(Seq<char>),
    Conflict(Seq<char>),
    Payment(Seq<char>),
    Database(Seq<char>),
    Internal(Seq<char>),
}

impl View for AppError {
    type V = ErrorView;

    open spec fn view(&self) -> ErrorView {
        match self {
            AppError::NotFound(m) => ErrorView::NotFound(m@),
            AppError::Unauthorized(m) => ErrorView::Unauthorized(m@),
            AppError::BadRequest(m) => ErrorView::BadRequest(m@),
            AppError::Conflict(m) => ErrorView::Conflict(m@),
            AppError::Payment(m) => ErrorView::Payment(m@),
            AppError::Database(m) => ErrorView::Database(m@),
            AppError::Internal(m) => ErrorView::Internal(m@),
        }
    }
}

/// The result is the error `refusal` where there is one, and a success otherwise.
pub open spec fn refused_as<T>(r: AppResult<T>, refusal: Option<ErrorView>) -> bool {
    match refusal {
        Some(e) => r matches Err(x) && x@ == e,
        None => r is Ok,
    }
}

/// HTTP status of an error.
pub open spec fn status_code(e: ErrorView) -> u16 {
    match e {
        ErrorView::NotFound(_) => 404,
        ErrorView::Unauthorized(_) => 401,
        ErrorView::BadRequest(_) => 400,
        ErrorView::Conflict(_) => 409,
        ErrorView::Payment(_) => 402,
        ErrorView::Database(_) => 500,
        ErrorView::Internal(_) => 500,
    }
}

/// What a client is told of an error: database and internal errors keep their
/// detail to themselves.
pub open spec fn public_message(e: ErrorView) -> Seq<char> {
    match e {
        ErrorView::NotFound(m) => m,
        ErrorView::Unauthorized(m) => m,
        ErrorView::BadRequest(m) => m,
        ErrorView::Conflict(m) => m,
        ErrorView::Payment(m) => m,
        ErrorView::Database(_) => "database error"@,
        ErrorView::Internal(_) => "internal server error"@,
    }
}

/// The error with its kind in front, for logs.
pub open spec fn full_message(e: ErrorView) -> Seq<char> {
    match e {
        ErrorView::NotFound(m) => "not found: "@ + m,
        ErrorView::Unauthorized(m) => "unauthorized: "@ + m,
        ErrorView::BadRequest(m) => "bad request: "@ + m,
        ErrorView::Conflict(m) => "conflict: "@ + m,
        ErrorView::Payment(m) => "payment error: "@ + m,
        ErrorView::Database(m) => "database error: "@ + m,
        ErrorView::Internal(m) => "internal error: "@ + m,
    }
}

impl AppError {
    pub fn not_found(m: &str) -> (e: AppError)
        ensures
            e@ == ErrorView::NotFound(m@),
    {
        AppError::NotFound(m.to_owned())
    }

    pub fn unauthorized(m: &str) -> (e: AppError)
        ensures
            e@ == ErrorView::Unauthorized(m@),
    {
        AppError::Unauthorized(m.to_owned())
    }

    pub fn bad_request(m: &str) -> (e: AppError)
        ensures
            e@ == ErrorView::BadRequest(m@),
    {
        AppError::BadRequest(m.to_owned())
    }

    /// The HTTP status and the message that a client gets.
    pub fn into_response(&self) -> (r: (u16, String))
        ensures
            r.0 == status_code(self@),
            r.1@ == public_message(self@),
    {
        match self {
            AppError::NotFound(m) => (404, m.clone()),
            AppError::Unauthorized(m) => (401, m.clone()),
            AppError::BadRequest(m) => (400, m.clone()),
            AppError::Conflict(m) => (409, m.clone()),
            AppError::Payment(m) => (402, m.clone()),
            AppError::Database(_) => (500, "database error".to_owned()),
            AppError::Internal(_) => (500, "internal server error".to_owned()),
        }
    }

    /// The error with its kind in front.
    pub fn to_text(&self) -> (r: String)
        ensures
            r@ == full_message(self@),
    {
        match self {
            AppError::NotFound(m) => "not found: ".to_owned().concat(m.as_str()),
            AppError::Unauthorized(m) => "unauthorized: ".to_owned().concat(m.as_str()),
            AppError::BadRequest(m) => "bad request: ".to_owned().concat(m.as_str()),
            AppError::Conflict(m) => "conflict: ".to_owned().concat(m.as_str()),
            AppError::Payment(m) => "payment error: ".to_owned().concat(m.as_str()),
            AppError::Database(m) => "database error: ".to_owned().concat(m.as_str()),
            AppError::Internal(m) => "internal error: ".to_owned().concat(m.as_str()),
        }
    }
}

/// The detail of a database or internal error never reaches a client: two such
/// errors of one kind get the same answer, whatever they hold.
pub proof fn law_server_errors_keep_their_detail(a: Seq<char>, b: Seq<char>)
    ensures
        public_message(ErrorView::Database(a)) == public_message(ErrorView::Database(b)),
        public_message(ErrorView::Internal(a)) == public_message(ErrorView::Internal(b)),
        status_code(ErrorView::Database(a)) == 500,
        status_code(ErrorView::Internal(a)) == 500,
{
}

} // verus!
