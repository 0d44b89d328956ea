use expense_tracker::http::{
    add_expense, get_all_expenses, get_highest_expense, AppError, STATUS_BAD_REQUEST,
    STATUS_INTERNAL_SERVER_ERROR, STATUS_NOT_FOUND,
};
use expense_tracker::model::{Amount, CreateExpenseRequest};
use expense_tracker::service::ExpenseService;
use expense_tracker::store::{ExpenseStore, StorageError};

fn request(x: f64, category: &str) -> CreateExpenseRequest {
    CreateExpenseRequest::new(Amount::from_bits(x.to_bits()), category.to_string())
}

#[test]
fn error_bodies_carry_status_and_text() {
    let body = AppError::Database(StorageError::Backend).into_response();
    assert_eq!((body.status, body.error.as_str()), (500, "Database error"));
    let body = AppError::Validation("amount: bad".to_string()).into_response();
    assert_eq!((body.status, body.error.as_str()), (400, "amount: bad"));
    let body = AppError::NotFound.into_response();
    assert_eq!((body.status, body.error.as_str()), (404, "Resource not found"));
    let body = AppError::Internal.into_response();
    assert_eq!((body.status, body.error.as_str()), (STATUS_INTERNAL_SERVER_ERROR, "Internal server error"));
}

#[test]
fn highest_on_empty_is_not_found() {
    let service = ExpenseService::new(ExpenseStore::new());
    let err = get_highest_expense(&service).unwrap_err();
    assert!(matches!(err, AppError::NotFound));
    assert_eq!(err.status(), STATUS_NOT_FOUND);
    assert!(get_all_expenses(&service).is_empty());
}

#[test]
fn invalid_post_is_bad_request() {
    let mut service = ExpenseService::new(ExpenseStore::new());
    let err = add_expense(&mut service, request(-10.0, "Groceries")).unwrap_err();
    assert_eq!(err.status(), STATUS_BAD_REQUEST);
    let body = err.into_response();
    assert_eq!(body.error, "amount: Amount must be greater than 0");
    assert!(get_all_expenses(&service).is_empty());
}

#[test]
fn valid_post_then_get() {
    let mut service = ExpenseService::new(ExpenseStore::new());
    let e = add_expense(&mut service, request(25.5, "Groceries")).unwrap();
    assert_eq!(e.category, "Groceries");
    let highest = get_highest_expense(&service).unwrap();
    assert_eq!(highest.id, e.id);
    assert_eq!(get_all_expenses(&service).len(), 1);
}
