//! The responses of the service, and the status each one carries.

use crate::account::{Account, AccountView};
use vstd::prelude::*;

verus! {

/// The body of a response that reports an error.
#[derive(Clone, Debug, PartialEq, Eq)]
pub struct ErrorResponse {
    pub error_code: String,
    pub message: String,
}

/// What an [`ErrorResponse`] holds.
pub ghost struct ErrorView {
    pub error_code: Seq<char>,
    pub message: Seq<char>,
}

impl View for ErrorResponse {
    type V = ErrorView;

    open spec fn view(&self) -> ErrorView {
        ErrorView { error_code: self.error_code@, message: self.message@ }
    }
}

/// The error for an account that the store does not hold, and for an
/// identifier that cannot name one.
pub open spec fn not_found_error() -> ErrorView {
    ErrorView { error_code: "NOT_FOUND"@, message: "The requested account could not be found"@ }
}

/// The error for an update that carries an identifier.
pub open spec fn invalid_request_error() -> ErrorView {
    ErrorView { error_code: "INVALID_REQUEST"@, message: "The ID cannot be provided"@ }
}

/// The error for a call that the store failed to carry out.
pub open spec fn internal_error() -> ErrorView {
    ErrorView {
        error_code: "INTERNAL_ERROR"@,
        message: "The account store could not complete the request"@,
    }
}

impl ErrorResponse {
    /// The error for an account that the store does not hold.
    pub fn not_found() -> (error: ErrorResponse)
        ensures
            error@ == not_found_error(),
    {
        ErrorResponse {
            error_code: "NOT_FOUND".to_owned(),
            message: "The requested account could not be found".to_owned(),
        }
    }

    /// The error for an update that carries an identifier.
    pub fn invalid_request() -> (error: ErrorResponse)
        ensures
            error@ == invalid_request_error(),
    {
        ErrorResponse {
            error_code: "INVALID_REQUEST".to_owned(),
            message: "The ID cannot be provided".to_owned(),
        }
    }

    /// The error for a call that the store failed to carry out.
    pub fn internal() -> (error: ErrorResponse)
        ensures
            error@ == internal_error(),
    {
        ErrorResponse {
            error_code: "INTERNAL_ERROR".to_owned(),
            message: "The account store could not complete the request".to_owned(),
        }
    }
}

/// What a response of any of the three requests holds.
pub ghost enum ResponseView {
    Success(AccountView),
    InvalidRequest(ErrorView),
    NotFound(ErrorView),
    InternalError(ErrorView),
}

impl ResponseView {
    /// The HTTP status that the response carries.
    pub open spec fn status(self) -> int {
        match self {
            ResponseView::Success(_) => 200,
            ResponseView::InvalidRequest(_) => 400,
            ResponseView::NotFound(_) => 404,
            ResponseView::InternalError(_) => 500,
        }
    }
}

/// The response to a request that creates an account.
#[derive(Clone, Debug, PartialEq, Eq)]
pub enum CreateAccountResponse {
    Success(Account),
    InternalError(ErrorResponse),
}

/// The response to a request that reads an account.
#[derive(Clone, Debug, PartialEq, Eq)]
pub enum ReadAccountResponse {
    Success(Account),
    NotFound(ErrorResponse),
    InternalError(ErrorResponse),
}

/// The response to a request that updates an account.
#[derive(Clone, Debug, PartialEq, Eq)]
pub enum UpdateAccountResponse {
    Success(Account),
    InvalidRequest(ErrorResponse),
    NotFound(ErrorResponse),
    InternalError(ErrorResponse),
}

impl View for CreateAccountResponse {
    type V = ResponseView;

    open spec fn view(&self) -> ResponseView {
        match self {
            CreateAccountResponse::Success(account) => ResponseView::Success(account@),
            CreateAccountResponse::InternalError(error) => ResponseView::InternalError(error@),
        }
    }
}

impl View for ReadAccountResponse {
    type V = ResponseView;

    open spec fn view(&self) -> ResponseView {
        match self {
            ReadAccountResponse::Success(account) => ResponseView::Success(account@),
            ReadAccountResponse::NotFound(error) => ResponseView::NotFound(error@),
            ReadAccountResponse::InternalError(error) => ResponseView::InternalError(error@),
        }
    }
}

impl View for UpdateAccountResponse {
    type V = ResponseView;

    open spec fn view(&self) -> ResponseView {
        match self {
            UpdateAccountResponse::Success(account) => ResponseView::Success(account@),
            UpdateAccountResponse::InvalidRequest(error) => ResponseView::InvalidRequest(error@),
            UpdateAccountResponse::NotFound(error) => ResponseView::NotFound(error@),
            UpdateAccountResponse::InternalError(error) => ResponseView::InternalError(error@),
        }
    }
}

impl CreateAccountResponse {
    /// The HTTP status that the response carries.
    pub fn status(&self) -> (code: u16)
        ensures
            code == self@.status(),
    {
        match self {
            CreateAccountResponse::Success(_) => 200,
            CreateAccountResponse::InternalError(_) => 500,
        }
    }
}

impl ReadAccountResponse {
    /// The HTTP status that the response carries.
    pub fn status(&self) -> (code: u16)
        ensures
            code == self@.status(),
    {
        match self {
            ReadAccountResponse::Success(_) => 200,
            ReadAccountResponse::NotFound(_) => 404,
            ReadAccountResponse::InternalError(_) => 500,
        }
    }
}

impl UpdateAccountResponse {
    /// The HTTP status that the response carries.
    pub fn status(&self) -> (code: u16)
        ensures
            code == self@.status(),
    {
        match self {
            UpdateAccountResponse::Success(_) => 200,
            UpdateAccountResponse::InvalidRequest(_) => 400,
            UpdateAccountResponse::NotFound(_) => 404,
            UpdateAccountResponse::InternalError(_) => 500,
        }
    }
}

} // verus!
