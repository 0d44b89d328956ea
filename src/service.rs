use vstd::prelude::*;
use crate::interop::{current_time, fresh_id};
use crate::model::{
    amount_meets_minimum, category_len_ok, Amount, request_is_valid, CreateExpenseRequest, Expense,
    ExpenseView, Timestamp, ValidationError,
};
use crate::store::{has_id, is_first_highest, newest_first, records_view, ExpenseStore, StorageError};

verus! {

impl Expense {
    /// A record with a fresh random id, created now.
    pub fn new(amount: Amount, category: String) -> (r: Expense)
        ensures
            r.amount == amount,
            r.category@ == category@,
    {
        Expense::from_parts(fresh_id(), amount, category, current_time())
    }
}

/// Why adding an expense failed.
#[derive(Clone, Copy, Debug, PartialEq, Eq, Structural)]
pub enum ServiceError {
    Validation(ValidationError),
    Storage(StorageError),
}

/// The validation error that a request with this amount and category earns.
pub open spec fn rejection(request: CreateExpenseRequest) -> ValidationError {
    ValidationError {
        amount_rejected: !amount_meets_minimum(request.amount.bits),
        category_rejected: !category_len_ok(request.category@),
    }
}

/// Enforces the business rules before any write, and gives each new record
/// its identity and creation time.
pub struct ExpenseService {
    store: ExpenseStore,
}

impl View for ExpenseService {
    type V = Seq<ExpenseView>;

    closed spec fn view(&self) -> Seq<ExpenseView> {
        self.store@
    }
}

impl ExpenseService {
    pub closed spec fn wf(&self) -> bool {
        self.store.wf()
    }

    /// A service over the given store.
    pub fn new(store: ExpenseStore) -> (r: ExpenseService)
        requires
            store.wf(),
        ensures
            r.wf(),
            r@ == store@,
    {
        ExpenseService { store }
    }

    /// Validates the request and, when it passes, stores a record with the
    /// given id and creation time. Nothing is written on any failure.
    pub fn add_expense_with(&mut self, request: CreateExpenseRequest, id: u128, date: Timestamp) -> (r:
        Result<Expense, ServiceError>)
        requires
            old(self).wf(),
        ensures
            final(self).wf(),
            !request_is_valid(request.amount, request.category@) ==> r == Err::<Expense, ServiceError>(
                ServiceError::Validation(rejection(request)),
            ),
            request_is_valid(request.amount, request.category@) && has_id(old(self)@, id) ==> r == Err::<
                Expense,
                ServiceError,
            >(ServiceError::Storage(StorageError::DuplicateId)),
            r is Err ==> final(self)@ == old(self)@,
            r is Ok <==> request_is_valid(request.amount, request.category@) && !has_id(old(self)@, id),
            r matches Ok(e) ==> {
                &&& e@ == (ExpenseView { id, amount: request.amount, category: request.category@, date })
                &&& exists|p: int| 0 <= p <= old(self)@.len() && final(self)@ == old(self)@.insert(p, e@)
            },
    {
        if let Err(v) = request.validate() {
            return Err(ServiceError::Validation(v));
        }
        let record = Expense::from_parts(id, request.amount, request.category, date);
        let stored = record.duplicate();
        let ghost before = self.store@;
        match self.store.insert(stored) {
            Ok(()) => {
                proof {
                    let p = choose|p: int| 0 <= p <= before.len() && self.store@ == before.insert(p, stored@);
                    assert(self@ == old(self)@.insert(p, record@));
                }
                Ok(record)
            },
            Err(e) => Err(ServiceError::Storage(e)),
        }
    }

    /// Validates the request and, when it passes, stores a record with a
    /// fresh random id and the current time. Nothing is written on any
    /// failure; a clash of random ids is reported as `DuplicateId`.
    pub fn add_expense(&mut self, request: CreateExpenseRequest) -> (r: Result<Expense, ServiceError>)
        requires
            old(self).wf(),
        ensures
            final(self).wf(),
            !request_is_valid(request.amount, request.category@) ==> r == Err::<Expense, ServiceError>(
                ServiceError::Validation(rejection(request)),
            ),
            r is Err ==> final(self)@ == old(self)@,
            request_is_valid(request.amount, request.category@) && old(self)@.len() == 0 ==> r is Ok,
            r matches Err(ServiceError::Validation(_)) ==> !request_is_valid(request.amount, request.category@),
            r matches Err(ServiceError::Storage(s)) ==> s == StorageError::DuplicateId && request_is_valid(
                request.amount,
                request.category@,
            ),
            r matches Ok(e) ==> {
                &&& e.amount == request.amount
                &&& e.category@ == request.category@
                &&& !has_id(old(self)@, e.id)
                &&& exists|p: int| 0 <= p <= old(self)@.len() && final(self)@ == old(self)@.insert(p, e@)
            },
    {
        let id = fresh_id();
        let now = current_time();
        self.add_expense_with(request, id, now)
    }

    /// Every stored record, the most recent first; empty when nothing is stored.
    pub fn get_all_expenses(&self) -> (r: Vec<Expense>)
        requires
            self.wf(),
        ensures
            records_view(r@) == self@,
            newest_first(records_view(r@)),
    {
        self.store.list_all()
    }

    /// A record with the greatest amount, or `None` when nothing is stored.
    pub fn get_highest_expense(&self) -> (r: Option<Expense>)
        requires
            self.wf(),
        ensures
            r is None <==> self@.len() == 0,
            r matches Some(e) ==> is_first_highest(self@, e@),
    {
        self.store.find_max_amount()
    }
}

} // verus!
