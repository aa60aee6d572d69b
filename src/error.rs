//! Failures of the order operations and of the storefront's calls to them.
use vstd::prelude::*;
use crate::dto::ErrorResponse;
use crate::text::{decimal, push_decimal};

verus! {

/// The views of a list of strings.
pub open spec fn texts(v: Seq<String>) -> Seq<Seq<char>> {
    v.map_values(|s: String| s@)
}

/// How an order operation fails. Each kind reaches the caller as it is.
#[derive(Debug)]
pub enum AppError {
    /// A menu pizza or an order that does not exist.
    NotFound(String),
    /// Every complaint found about a request.
    ValidationError(Vec<String>),
    /// The store failed.
    DatabaseError(String),
    /// Something that must not happen did.
    InternalError(String),
}

/// HTTP status for each kind of failure.
pub open spec fn app_error_status(e: AppError) -> u16 {
    match e {
        AppError::NotFound(_) => 404,
        AppError::ValidationError(_) => 422,
        AppError::DatabaseError(_) => 500,
        AppError::InternalError(_) => 500,
    }
}

impl AppError {
    /// The HTTP status that reports this failure.
    pub fn status_code(&self) -> (r: u16)
        ensures
            r == app_error_status(*self),
    {
        match self {
            AppError::NotFound(_) => 404,
            AppError::ValidationError(_) => 422,
            AppError::DatabaseError(_) => 500,
            AppError::InternalError(_) => 500,
        }
    }

    /// The body that reports this failure: the message itself for a missing
    /// item, a headline with every complaint for a rejected request, and the
    /// message after a prefix naming the kind otherwise.
    pub fn into_error_response(self) -> (r: ErrorResponse)
        ensures
            match self {
                AppError::NotFound(m) => r.error@ == m@ && r.details is None,
                AppError::ValidationError(v) => r.error@ == "Validation failed"@
                    && r.details == Some(v),
                AppError::DatabaseError(m) => r.error@ == "Database error: "@ + m@
                    && r.details is None,
                AppError::InternalError(m) => r.error@ == "Internal error: "@ + m@
                    && r.details is None,
            },
    {
        match self {
            AppError::NotFound(m) => ErrorResponse::new(m),
            AppError::ValidationError(v) => ErrorResponse::with_details(
                String::from_str("Validation failed"),
                v,
            ),
            AppError::DatabaseError(m) => {
                let mut e = String::from_str("Database error: ");
                e.append(m.as_str());
                ErrorResponse::new(e)
            },
            AppError::InternalError(m) => {
                let mut e = String::from_str("Internal error: ");
                e.append(m.as_str());
                ErrorResponse::new(e)
            },
        }
    }
}

/// How a call from the storefront page to the order service fails.
#[derive(Debug)]
pub enum ApiError {
    NetworkError(String),
    HttpError { status: u16, message: String },
    ParseError(String),
    SerializeError(String),
}

/// The message shown to a customer for a failed call.
pub open spec fn user_message_of(e: ApiError) -> Seq<char> {
    match e {
        ApiError::NetworkError(_) =>
            "Unable to connect to the server. Please check your internet connection and try again."@,
        ApiError::HttpError { status, message } => if status == 400 {
            "Invalid request: "@ + message@
        } else if status == 404 {
            "The requested resource was not found."@
        } else if 500 <= status <= 599 {
            "Server error. Please try again later."@
        } else {
            "Request failed: "@ + message@
        },
        ApiError::ParseError(_) => "Failed to process server response. Please try again."@,
        ApiError::SerializeError(_) =>
            "Failed to prepare request. Please check your input and try again."@,
    }
}

/// The technical description of a failed call.
pub open spec fn description_of(e: ApiError) -> Seq<char> {
    match e {
        ApiError::NetworkError(m) => "Network error: "@ + m@,
        ApiError::HttpError { status, message } => "HTTP error "@ + decimal(status as nat) + ": "@
            + message@,
        ApiError::ParseError(m) => "Parse error: "@ + m@,
        ApiError::SerializeError(m) => "Serialize error: "@ + m@,
    }
}

impl ApiError {
    /// A message fit for customers.
    pub fn user_message(&self) -> (r: String)
        ensures
            r@ == user_message_of(*self),
    {
        match self {
            ApiError::NetworkError(_) => String::from_str(
                "Unable to connect to the server. Please check your internet connection and try again.",
            ),
            ApiError::HttpError { status, message } => {
                if *status == 400 {
                    let mut r = String::from_str("Invalid request: ");
                    r.append(message.as_str());
                    r
                } else if *status == 404 {
                    String::from_str("The requested resource was not found.")
                } else if 500 <= *status && *status <= 599 {
                    String::from_str("Server error. Please try again later.")
                } else {
                    let mut r = String::from_str("Request failed: ");
                    r.append(message.as_str());
                    r
                }
            },
            ApiError::ParseError(_) => String::from_str(
                "Failed to process server response. Please try again.",
            ),
            ApiError::SerializeError(_) => String::from_str(
                "Failed to prepare request. Please check your input and try again.",
            ),
        }
    }

    /// A description for logs: the kind of failure and its details.
    pub fn describe(&self) -> (r: String)
        ensures
            r@ == description_of(*self),
    {
        match self {
            ApiError::NetworkError(m) => {
                let mut r = String::from_str("Network error: ");
                r.append(m.as_str());
                r
            },
            ApiError::HttpError { status, message } => {
                let mut r = String::from_str("HTTP error ");
                push_decimal(&mut r, *status as u64);
                r.append(": ");
                r.append(message.as_str());
                r
            },
            ApiError::ParseError(m) => {
                let mut r = String::from_str("Parse error: ");
                r.append(m.as_str());
                r
            },
            ApiError::SerializeError(m) => {
                let mut r = String::from_str("Serialize error: ");
                r.append(m.as_str());
                r
            },
        }
    }
}

} // verus!
