use vstd::prelude::*;
use crate::model::{request_is_valid, validation_message, CreateExpenseRequest, Expense};
use crate::service::{rejection, ExpenseService, ServiceError};
use crate::store::{has_id, is_first_highest, newest_first, records_view, StorageError};

verus! {

pub const STATUS_OK: u16 = 200;

pub const STATUS_CREATED: u16 = 201;

pub const STATUS_BAD_REQUEST: u16 = 400;

pub const STATUS_NOT_FOUND: u16 = 404;

pub const STATUS_INTERNAL_SERVER_ERROR: u16 = 500;

pub const DATABASE_ERROR_TEXT: &'static str = "Database error";

pub const NOT_FOUND_TEXT: &'static str = "Resource not found";

pub const INTERNAL_ERROR_TEXT: &'static str = "Internal server error";

/// An outcome that the transport reports as a failure.
#[derive(Clone, Debug)]
pub enum AppError {
    /// The record store failed; its detail is not shown to clients.
    Database(StorageError),
    /// The request broke a business rule; the text says which.
    Validation(String),
    /// There is nothing to return.
    NotFound,
    Internal,
}

/// The body of a failure reply: `{ "error": ..., "status": ... }`.
#[derive(Clone, Debug)]
pub struct ErrorBody {
    pub error: String,
    pub status: u16,
}

/// The status code that reports an error.
pub open spec fn error_status(e: AppError) -> u16 {
    match e {
        AppError::Database(_) => STATUS_INTERNAL_SERVER_ERROR,
        AppError::Validation(_) => STATUS_BAD_REQUEST,
        AppError::NotFound => STATUS_NOT_FOUND,
        AppError::Internal => STATUS_INTERNAL_SERVER_ERROR,
    }
}

/// The text that a client is shown for an error.
pub open spec fn error_text(e: AppError) -> Seq<char> {
    match e {
        AppError::Database(_) => DATABASE_ERROR_TEXT@,
        AppError::Validation(msg) => msg@,
        AppError::NotFound => NOT_FOUND_TEXT@,
        AppError::Internal => INTERNAL_ERROR_TEXT@,
    }
}

impl AppError {
    /// The transport error for a failed service call.
    pub fn from_service(e: ServiceError) -> (r: AppError)
        ensures
            e matches ServiceError::Validation(v) ==> (r matches AppError::Validation(m) && m@
                == validation_message(v.amount_rejected, v.category_rejected)),
            e matches ServiceError::Storage(s) ==> r == AppError::Database(s),
    {
        match e {
            ServiceError::Validation(v) => AppError::Validation(v.message()),
            ServiceError::Storage(s) => AppError::Database(s),
        }
    }

    /// The status code of this error.
    pub fn status(&self) -> (r: u16)
        ensures
            r == error_status(*self),
    {
        match self {
            AppError::Database(_) => STATUS_INTERNAL_SERVER_ERROR,
            AppError::Validation(_) => STATUS_BAD_REQUEST,
            AppError::NotFound => STATUS_NOT_FOUND,
            AppError::Internal => STATUS_INTERNAL_SERVER_ERROR,
        }
    }

    /// The reply body for this error: a generic text for server-side
    /// failures, the rule that was broken for a rejected request.
    pub fn into_response(self) -> (r: ErrorBody)
        ensures
            r.status == error_status(self),
            r.error@ == error_text(self),
    {
        let status = self.status();
        let error = match self {
            AppError::Database(_) => String::from_str(DATABASE_ERROR_TEXT),
            AppError::Validation(msg) => msg,
            AppError::NotFound => String::from_str(NOT_FOUND_TEXT),
            AppError::Internal => String::from_str(INTERNAL_ERROR_TEXT),
        };
        ErrorBody { error, status }
    }
}

/// `POST /expenses`: validates the request, then stores it. On success the
/// transport replies `STATUS_CREATED` with the record.
pub fn add_expense(service: &mut ExpenseService, request: CreateExpenseRequest) -> (r: Result<
    Expense,
    AppError,
>)
    requires
        old(service).wf(),
    ensures
        final(service).wf(),
        r is Err ==> final(service)@ == old(service)@,
        !request_is_valid(request.amount, request.category@) ==> (r matches Err(
            AppError::Validation(m),
        ) && m@ == validation_message(
            rejection(request).amount_rejected,
            rejection(request).category_rejected,
        )),
        request_is_valid(request.amount, request.category@) && old(service)@.len() == 0 ==> r is Ok,
        r matches Err(AppError::Validation(_)) ==> !request_is_valid(request.amount, request.category@),
        r matches Err(AppError::Database(s)) ==> s == StorageError::DuplicateId,
        r matches Err(e) ==> e is Validation || e is Database,
        r matches Ok(e) ==> {
            &&& e.amount == request.amount
            &&& e.category@ == request.category@
            &&& !has_id(old(service)@, e.id)
            &&& exists|p: int|
                0 <= p <= old(service)@.len() && final(service)@ == old(service)@.insert(p, e@)
        },
{
    match service.add_expense(request) {
        Ok(e) => Ok(e),
        Err(e) => Err(AppError::from_service(e)),
    }
}

/// `GET /expenses`: every record, the most recent first.
pub fn get_all_expenses(service: &ExpenseService) -> (r: Vec<Expense>)
    requires
        service.wf(),
    ensures
        records_view(r@) == service@,
        newest_first(records_view(r@)),
{
    service.get_all_expenses()
}

/// `GET /expenses/highest`: the record with the greatest amount, or
/// `NotFound` when nothing is stored.
pub fn get_highest_expense(service: &ExpenseService) -> (r: Result<Expense, AppError>)
    requires
        service.wf(),
    ensures
        r is Err <==> service@.len() == 0,
        r matches Err(e) ==> e is NotFound,
        r matches Ok(e) ==> is_first_highest(service@, e@),
{
    match service.get_highest_expense() {
        Some(e) => Ok(e),
        None => Err(AppError::NotFound),
    }
}

} // verus!
