//! Application errors: their categories and the plain wording users see,
//! while the detail stays for diagnostics.

use vstd::prelude::*;

verus! {

/// An application error, by category, with its diagnostic detail.
#[derive(Debug, Clone, PartialEq, Eq)]
pub enum AppError {
    NetworkError(String),
    ValidationError(String),
    AuthenticationError(String),
    AuthorizationError(String),
    NotFoundError(String),
    ServerError(String),
    UnknownError(String),
}

pub open spec fn user_message_text(e: AppError) -> Seq<char> {
    match e {
        AppError::NetworkError(_) => "Network error"@,
        AppError::ValidationError(_) => "Validation error"@,
        AppError::AuthenticationError(_) => "Authentication error"@,
        AppError::AuthorizationError(_) => "Access denied"@,
        AppError::NotFoundError(_) => "Not found"@,
        AppError::ServerError(_) => "Service unavailable"@,
        AppError::UnknownError(_) => "Unexpected error"@,
    }
}

pub open spec fn error_type_text(e: AppError) -> Seq<char> {
    match e {
        AppError::NetworkError(_) => "network"@,
        AppError::ValidationError(_) => "validation"@,
        AppError::AuthenticationError(_) => "authentication"@,
        AppError::AuthorizationError(_) => "authorization"@,
        AppError::NotFoundError(_) => "not_found"@,
        AppError::ServerError(_) => "server"@,
        AppError::UnknownError(_) => "unknown"@,
    }
}

/// The diagnostic detail of an error.
pub open spec fn detail_of(e: AppError) -> Seq<char> {
    match e {
        AppError::NetworkError(d) => d@,
        AppError::ValidationError(d) => d@,
        AppError::AuthenticationError(d) => d@,
        AppError::AuthorizationError(d) => d@,
        AppError::NotFoundError(d) => d@,
        AppError::ServerError(d) => d@,
        AppError::UnknownError(d) => d@,
    }
}

impl AppError {
    /// The category's fixed wording; the detail is never shown to users.
    pub fn user_message(&self) -> (res: String)
        ensures
            res@ == user_message_text(*self),
    {
        let t = match self {
            AppError::NetworkError(_) => "Network error",
            AppError::ValidationError(_) => "Validation error",
            AppError::AuthenticationError(_) => "Authentication error",
            AppError::AuthorizationError(_) => "Access denied",
            AppError::NotFoundError(_) => "Not found",
            AppError::ServerError(_) => "Service unavailable",
            AppError::UnknownError(_) => "Unexpected error",
        };
        t.to_owned()
    }

    /// The category's stable code.
    pub fn error_type(&self) -> (res: &'static str)
        ensures
            res@ == error_type_text(*self),
    {
        proof {
            reveal_strlit("network");
            reveal_strlit("validation");
            reveal_strlit("authentication");
            reveal_strlit("authorization");
            reveal_strlit("not_found");
            reveal_strlit("server");
            reveal_strlit("unknown");
        }
        match self {
            AppError::NetworkError(_) => "network",
            AppError::ValidationError(_) => "validation",
            AppError::AuthenticationError(_) => "authentication",
            AppError::AuthorizationError(_) => "authorization",
            AppError::NotFoundError(_) => "not_found",
            AppError::ServerError(_) => "server",
            AppError::UnknownError(_) => "unknown",
        }
    }

    /// The diagnostic detail.
    pub fn detail(&self) -> (res: &str)
        ensures
            res@ == detail_of(*self),
    {
        match self {
            AppError::NetworkError(d) => d.as_str(),
            AppError::ValidationError(d) => d.as_str(),
            AppError::AuthenticationError(d) => d.as_str(),
            AppError::AuthorizationError(d) => d.as_str(),
            AppError::NotFoundError(d) => d.as_str(),
            AppError::ServerError(d) => d.as_str(),
            AppError::UnknownError(d) => d.as_str(),
        }
    }
}

impl From<String> for AppError {
    fn from(value: String) -> (res: Self) {
        AppError::UnknownError(value)
    }
}

impl vstd::std_specs::convert::FromSpecImpl<String> for AppError {
    open spec fn obeys_from_spec() -> bool {
        true
    }

    open spec fn from_spec(v: String) -> AppError {
        AppError::UnknownError(v)
    }
}

/// An unknown error with the given detail.
pub fn unknown_error(detail: &str) -> (res: AppError)
    ensures
        res matches AppError::UnknownError(d) && d@ == detail@,
{
    AppError::UnknownError(detail.to_owned())
}

/// What an error boundary shows.
#[derive(PartialEq, Eq, Structural, Clone, Copy, Debug)]
pub enum BoundaryView {
    Children,
    Fallback,
    DefaultError,
}

/// The boundary shows its children until an error is caught, then the
/// caller's fallback or the generic error state; "retry" clears it.
pub fn boundary_view(has_error: bool, has_fallback: bool) -> (res: BoundaryView)
    ensures
        res == if !has_error {
            BoundaryView::Children
        } else if has_fallback {
            BoundaryView::Fallback
        } else {
            BoundaryView::DefaultError
        },
{
    if !has_error {
        BoundaryView::Children
    } else if has_fallback {
        BoundaryView::Fallback
    } else {
        BoundaryView::DefaultError
    }
}

} // verus!
