//! The failures that the store and the services report.

use vstd::prelude::*;
use vstd::string::*;
use crate::text::{concat_text, join, joined, text_views};

verus! {

/// What can go wrong while talking to the store, as plain values.
#[derive(Debug, PartialEq, Eq)]
pub enum StoreFailure {
    /// A row that was asked for is absent, or could not be decoded.
    RowNotFound,
    /// The database rejected a statement.
    Database { message: String, code: Option<String> },
    /// No connection became free in time.
    PoolTimedOut,
    /// Any other failure, with its description.
    Other { message: String },
}

/// The characters of an optional text.
pub open spec fn optional_text(t: Option<String>) -> Option<Seq<char>> {
    match t {
        Some(s) => Some(s@),
        None => None,
    }
}

/// A store failure, as plain values.
pub enum StoreFailureView {
    RowNotFound,
    Database { message: Seq<char>, code: Option<Seq<char>> },
    PoolTimedOut,
    Other { message: Seq<char> },
}

impl View for StoreFailure {
    type V = StoreFailureView;

    open spec fn view(&self) -> StoreFailureView {
        match self {
            StoreFailure::RowNotFound => StoreFailureView::RowNotFound,
            StoreFailure::Database { message, code } => StoreFailureView::Database {
                message: message@,
                code: optional_text(*code),
            },
            StoreFailure::PoolTimedOut => StoreFailureView::PoolTimedOut,
            StoreFailure::Other { message } => StoreFailureView::Other { message: message@ },
        }
    }
}

/// The error type of `sqlx`, carried through as it is.
#[verifier::external_type_specification]
#[verifier::external_body]
pub struct ExSqlxError(sqlx::Error);

/// Tells the variants of `sqlx::Error` apart and moves their fields into a
/// `StoreFailure`. Nothing is claimed of the result: which variant comes
/// back is the error's own matter.
#[verifier::external_body]
pub(crate) fn classify(error: sqlx::Error) -> StoreFailure {
    match error {
        sqlx::Error::RowNotFound => StoreFailure::RowNotFound,
        sqlx::Error::Database(e) => StoreFailure::Database {
            message: e.message().to_string(),
            code: e.code().map(|c| c.to_string()),
        },
        sqlx::Error::PoolTimedOut => StoreFailure::PoolTimedOut,
        other => StoreFailure::Other { message: other.to_string() },
    }
}

impl StoreFailure {
    /// The failure that an error of `sqlx` amounts to. The error decides;
    /// every failure can come back.
    pub fn from_sqlx(error: sqlx::Error) -> (r: StoreFailure) {
        classify(error)
    }
}

/// The errors of the plain payment service, each with a free-form message.
#[derive(Debug, PartialEq, Eq)]
pub enum PaymentError {
    DatabaseError(String),
    NotFound(String),
    InvalidInput(String),
}

/// An error of the plain payment service, as plain values.
pub enum PaymentErrorView {
    DatabaseError(Seq<char>),
    NotFound(Seq<char>),
    InvalidInput(Seq<char>),
}

impl View for PaymentError {
    type V = PaymentErrorView;

    open spec fn view(&self) -> PaymentErrorView {
        match self {
            PaymentError::DatabaseError(m) => PaymentErrorView::DatabaseError(m@),
            PaymentError::NotFound(m) => PaymentErrorView::NotFound(m@),
            PaymentError::InvalidInput(m) => PaymentErrorView::InvalidInput(m@),
        }
    }
}

/// The errors of the caching payment service, each with typed fields.
#[derive(Debug, PartialEq, Eq)]
pub enum OptimizedPaymentError {
    DatabaseError { message: String, code: Option<String> },
    NotFound { entity: String, id: String },
    InvalidInput { field: String, message: String },
    ValidationError { errors: Vec<String> },
    CacheError { message: String },
    ConnectionError { message: String },
}

/// An error of the caching payment service, as plain values.
pub enum OptimizedPaymentErrorView {
    DatabaseError { message: Seq<char>, code: Option<Seq<char>> },
    NotFound { entity: Seq<char>, id: Seq<char> },
    InvalidInput { field: Seq<char>, message: Seq<char> },
    ValidationError { errors: Seq<Seq<char>> },
    CacheError { message: Seq<char> },
    ConnectionError { message: Seq<char> },
}

impl View for OptimizedPaymentError {
    type V = OptimizedPaymentErrorView;

    open spec fn view(&self) -> OptimizedPaymentErrorView {
        match self {
            OptimizedPaymentError::DatabaseError { message, code } => OptimizedPaymentErrorView::DatabaseError {
                message: message@,
                code: optional_text(*code),
            },
            OptimizedPaymentError::NotFound { entity, id } => OptimizedPaymentErrorView::NotFound {
                entity: entity@,
                id: id@,
            },
            OptimizedPaymentError::InvalidInput { field, message } => OptimizedPaymentErrorView::InvalidInput {
                field: field@,
                message: message@,
            },
            OptimizedPaymentError::ValidationError { errors } => OptimizedPaymentErrorView::ValidationError {
                errors: Seq::new(errors.len() as nat, |i: int| errors[i]@),
            },
            OptimizedPaymentError::CacheError { message } => OptimizedPaymentErrorView::CacheError {
                message: message@,
            },
            OptimizedPaymentError::ConnectionError { message } => OptimizedPaymentErrorView::ConnectionError {
                message: message@,
            },
        }
    }
}

/// The error for a payment that the store does not hold.
pub open spec fn payment_not_found(id: Seq<char>) -> OptimizedPaymentErrorView {
    OptimizedPaymentErrorView::NotFound { entity: "Payment"@, id }
}

/// The error of the caching service that a store failure becomes: an
/// absent row is a payment not found, of unknown id; a timed-out pool is a
/// connection error; everything else is a database error.
pub open spec fn converted(f: StoreFailureView) -> OptimizedPaymentErrorView {
    match f {
        StoreFailureView::RowNotFound => payment_not_found("unknown"@),
        StoreFailureView::Database { message, code } => OptimizedPaymentErrorView::DatabaseError {
            message,
            code,
        },
        StoreFailureView::PoolTimedOut => OptimizedPaymentErrorView::ConnectionError {
            message: "Database connection pool timed out"@,
        },
        StoreFailureView::Other { message } => OptimizedPaymentErrorView::DatabaseError {
            message,
            code: None,
        },
    }
}

/// The error that a store failure becomes where the id that was asked for
/// is known: an absent row names that id.
pub open spec fn converted_for(id: Seq<char>, f: StoreFailureView) -> OptimizedPaymentErrorView {
    match f {
        StoreFailureView::RowNotFound => payment_not_found(id),
        _ => converted(f),
    }
}

/// Turns a store failure into an error of the caching service.
pub fn convert_failure(f: StoreFailure) -> (r: OptimizedPaymentError)
    ensures
        r@ == converted(f@),
{
    match f {
        StoreFailure::RowNotFound => OptimizedPaymentError::NotFound {
            entity: "Payment".to_string(),
            id: "unknown".to_string(),
        },
        StoreFailure::Database { message, code } => OptimizedPaymentError::DatabaseError { message, code },
        StoreFailure::PoolTimedOut => OptimizedPaymentError::ConnectionError {
            message: "Database connection pool timed out".to_string(),
        },
        StoreFailure::Other { message } => OptimizedPaymentError::DatabaseError { message, code: None },
    }
}

/// Turns a store failure into an error of the caching service, naming the
/// payment id that was asked for where the row is absent.
pub fn convert_failure_for(id: &str, f: StoreFailure) -> (r: OptimizedPaymentError)
    ensures
        r@ == converted_for(id@, f@),
{
    match f {
        StoreFailure::RowNotFound => OptimizedPaymentError::NotFound {
            entity: "Payment".to_string(),
            id: id.to_string(),
        },
        other => convert_failure(other),
    }
}

/// The error for a connection that could not be had, with the reason.
pub fn connection_failed(reason: &str) -> (r: OptimizedPaymentError)
    ensures
        r@ == (OptimizedPaymentErrorView::ConnectionError {
            message: "Failed to acquire database connection: "@ + reason@,
        }),
{
    OptimizedPaymentError::ConnectionError {
        message: concat_text("Failed to acquire database connection: ", reason),
    }
}

/// How the standard library prints an optional code for inspection.
pub uninterp spec fn inspected_code(code: Option<Seq<char>>) -> Seq<char>;

/// Formats an optional code with `{:?}`; the contract only gives the
/// result its name.
#[verifier::external_body]
fn inspect_code(code: &Option<String>) -> (r: String)
    ensures
        r@ == inspected_code(optional_text(*code)),
{
    format!("{:?}", code)
}

/// The sentence that describes an error of the caching service.
pub open spec fn description(e: OptimizedPaymentErrorView) -> Seq<char> {
    match e {
        OptimizedPaymentErrorView::DatabaseError { message, code } => "Database error: "@ + message
            + " (code: "@ + inspected_code(code) + ")"@,
        OptimizedPaymentErrorView::NotFound { entity, id } => entity + " with id '"@ + id
            + "' not found"@,
        OptimizedPaymentErrorView::InvalidInput { field, message } => "Invalid input for field '"@
            + field + "': "@ + message,
        OptimizedPaymentErrorView::ValidationError { errors } => "Validation errors: "@ + joined(
            errors,
            ", "@,
        ),
        OptimizedPaymentErrorView::CacheError { message } => "Cache error: "@ + message,
        OptimizedPaymentErrorView::ConnectionError { message } => "Connection error: "@ + message,
    }
}

impl OptimizedPaymentError {
    /// The error as a sentence for a reader.
    pub fn to_string(&self) -> (r: String)
        ensures
            r@ == description(self@),
    {
        match self {
            OptimizedPaymentError::DatabaseError { message, code } => {
                let mut out = concat_text("Database error: ", message.as_str());
                out.append(" (code: ");
                out.append(inspect_code(code).as_str());
                out.append(")");
                out
            },
            OptimizedPaymentError::NotFound { entity, id } => {
                let mut out = concat_text(entity.as_str(), " with id '");
                out.append(id.as_str());
                out.append("' not found");
                out
            },
            OptimizedPaymentError::InvalidInput { field, message } => {
                let mut out = concat_text("Invalid input for field '", field.as_str());
                out.append("': ");
                out.append(message.as_str());
                out
            },
            OptimizedPaymentError::ValidationError { errors } => {
                assert(self@->ValidationError_errors =~= text_views(errors@));
                concat_text("Validation errors: ", join(errors, ", ").as_str())
            },
            OptimizedPaymentError::CacheError { message } => concat_text("Cache error: ", message.as_str()),
            OptimizedPaymentError::ConnectionError { message } => concat_text(
                "Connection error: ",
                message.as_str(),
            ),
        }
    }
}

} // verus!
