use expense_tracker::model::{Amount, CreateExpenseRequest, Timestamp, ValidationError};
use expense_tracker::service::{ExpenseService, ServiceError};
use expense_tracker::store::{ExpenseStore, StorageError};

fn amount(x: f64) -> Amount {
    Amount::from_bits(x.to_bits())
}

fn request(x: f64, category: &str) -> CreateExpenseRequest {
    CreateExpenseRequest::new(amount(x), category.to_string())
}

fn create_test_service() -> ExpenseService {
    ExpenseService::new(ExpenseStore::new())
}

fn at(secs: i64) -> Timestamp {
    Timestamp { secs, nanos: 0 }
}

#[test]
fn test_add_expense() {
    let mut service = create_test_service();

    let expense = service.add_expense(request(25.50, "Groceries")).unwrap();

    assert_eq!(f64::from_bits(expense.amount.bits), 25.50);
    assert_eq!(expense.category, "Groceries");
    assert!(!expense.id_text().is_empty())
}

#[test]
fn test_get_all_expenses_with_data() {
    let mut service = create_test_service();

    service.add_expense(request(15.50, "Transport")).unwrap();
    service.add_expense(request(25.50, "Groceries")).unwrap();

    let expense = service.get_all_expenses();

    assert_eq!(expense.len(), 2);
    assert!(expense.iter().any(|e| f64::from_bits(e.amount.bits) == 15.50));
    assert!(expense.iter().any(|e| f64::from_bits(e.amount.bits) == 25.50));
}

#[test]
fn test_get_highest_expense_empty() {
    let service = create_test_service();

    let highest = service.get_highest_expense();

    assert!(highest.is_none());
}

#[test]
fn test_get_highest_expense_with_data() {
    let mut service = create_test_service();

    service.add_expense(request(15.50, "Transport")).unwrap();
    service.add_expense(request(25.50, "Groceries")).unwrap();
    service.add_expense(request(5.50, "Entertainment")).unwrap();

    let highest = service.get_highest_expense();

    assert!(highest.is_some());
    assert_eq!(f64::from_bits(highest.as_ref().unwrap().amount.bits), 25.50);
    assert_eq!(highest.as_ref().unwrap().category, "Groceries");
}

#[test]
fn test_get_highest_expense_single_item() {
    let mut service = create_test_service();

    service.add_expense(request(10.05, "Books")).unwrap();

    let highest = service.get_highest_expense();

    assert!(highest.is_some());
    assert_eq!(f64::from_bits(highest.as_ref().unwrap().amount.bits), 10.05);
    assert_eq!(highest.as_ref().unwrap().category, "Books");
}

#[test]
fn get_all_on_empty_store_is_empty() {
    let service = create_test_service();
    assert!(service.get_all_expenses().is_empty());
}

#[test]
fn round_trip_through_list_and_highest() {
    let mut service = create_test_service();
    let added = service.add_expense(request(10.05, "Books")).unwrap();

    let listed = service.get_all_expenses();
    assert_eq!(listed.len(), 1);
    assert_eq!(f64::from_bits(listed[0].amount.bits), 10.05);
    assert_eq!(listed[0].category, "Books");
    assert_eq!(listed[0].id, added.id);

    let highest = service.get_highest_expense().unwrap();
    assert_eq!(f64::from_bits(highest.amount.bits), 10.05);
    assert_eq!(highest.category, "Books");
}

#[test]
fn list_is_newest_first_whatever_the_insert_order() {
    let mut service = create_test_service();
    service.add_expense_with(request(1.0, "b"), 2, at(200)).unwrap();
    service.add_expense_with(request(2.0, "c"), 3, at(300)).unwrap();
    service.add_expense_with(request(3.0, "a"), 1, at(100)).unwrap();
    service.add_expense_with(request(4.0, "d"), 4, Timestamp { secs: 200, nanos: 5 }).unwrap();

    let ids: Vec<u128> = service.get_all_expenses().iter().map(|e| e.id).collect();
    assert_eq!(ids, vec![3, 4, 2, 1]);
}

#[test]
fn add_with_given_identity_keeps_fields() {
    let mut service = create_test_service();
    let e = service.add_expense_with(request(7.25, "Lunch"), 42, at(1_700_000_000)).unwrap();
    assert_eq!(e.id, 42);
    assert_eq!(e.amount, amount(7.25));
    assert_eq!(e.category, "Lunch");
    assert_eq!(e.date, at(1_700_000_000));
}

#[test]
fn invalid_request_writes_nothing() {
    let mut service = create_test_service();
    let err = service.add_expense(request(0.0, "Food")).unwrap_err();
    assert_eq!(
        err,
        ServiceError::Validation(ValidationError { amount_rejected: true, category_rejected: false })
    );
    let err = service.add_expense(request(-3.0, &"x".repeat(51))).unwrap_err();
    assert_eq!(
        err,
        ServiceError::Validation(ValidationError { amount_rejected: true, category_rejected: true })
    );
    assert!(service.get_all_expenses().is_empty());
}

#[test]
fn duplicate_id_is_a_storage_error() {
    let mut service = create_test_service();
    service.add_expense_with(request(1.0, "a"), 9, at(1)).unwrap();
    let err = service.add_expense_with(request(2.0, "b"), 9, at(2)).unwrap_err();
    assert_eq!(err, ServiceError::Storage(StorageError::DuplicateId));
    assert_eq!(service.get_all_expenses().len(), 1);
}

#[test]
fn many_inserts_get_distinct_ids_and_all_stay() {
    let mut service = create_test_service();
    let mut ids = Vec::new();
    for i in 0..20 {
        let e = service.add_expense(request(1.0 + i as f64, "Misc")).unwrap();
        ids.push(e.id);
    }
    let listed = service.get_all_expenses();
    assert_eq!(listed.len(), 20);
    for id in &ids {
        assert_eq!(listed.iter().filter(|e| e.id == *id).count(), 1);
    }
}

#[test]
fn new_record_is_dated_within_the_call() {
    let mut service = create_test_service();
    let start = chrono::Utc::now();
    let e = service.add_expense(request(3.5, "Taxi")).unwrap();
    let end = chrono::Utc::now();
    let t = (e.date.secs, e.date.nanos);
    assert!((start.timestamp(), start.timestamp_subsec_nanos()) <= t);
    assert!(t <= (end.timestamp(), end.timestamp_subsec_nanos()));
}

#[test]
fn valid_request_on_empty_store_succeeds() {
    let mut service = create_test_service();
    let e = service.add_expense(request(25.50, "Groceries")).unwrap();
    assert_eq!(e.id_text().len(), 36);
}

#[test]
fn two_successive_adds_keep_both() {
    let mut service = create_test_service();
    let a = service.add_expense(request(1.5, "One")).unwrap();
    let b = service.add_expense(request(2.5, "Two")).unwrap();
    assert_ne!(a.id, b.id);
    let listed = service.get_all_expenses();
    assert_eq!(listed.len(), 2);
    assert!(listed.iter().any(|e| e.id == a.id && e.category == "One"));
    assert!(listed.iter().any(|e| e.id == b.id && e.category == "Two"));
}
