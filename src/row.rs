use vstd::prelude::*;
use crate::interop::{
    parse_rfc3339, parse_uuid, rfc3339_instant_of, rfc3339_text, rfc3339_text_of, uuid_text,
    uuid_text_of, uuid_value_of,
};
use crate::model::{request_is_valid, Amount, CreateExpenseRequest, Expense, ExpenseView, Timestamp};
use crate::store::{has_id, ids_unique, records_view, ExpenseStore, StorageError};

verus! {

/// One row of the backing table `expenses(id, amount, category, date)`, with
/// the id and the date as text.
#[derive(Clone, Debug)]
pub struct ExpenseRow {
    pub id: String,
    pub amount: Amount,
    pub category: String,
    pub date: String,
}

pub struct ExpenseRowView {
    pub id: Seq<char>,
    pub amount: Amount,
    pub category: Seq<char>,
    pub date: Seq<char>,
}

impl View for ExpenseRow {
    type V = ExpenseRowView;

    open spec fn view(&self) -> ExpenseRowView {
        ExpenseRowView { id: self.id@, amount: self.amount, category: self.category@, date: self.date@ }
    }
}

/// The record a row holds: `None` when its id or date does not parse, or when
/// it breaks the rules that every stored record obeys.
pub open spec fn row_record(row: ExpenseRowView) -> Option<ExpenseView> {
    match (uuid_value_of(row.id), rfc3339_instant_of(row.date)) {
        (Some(id), Some((secs, nanos))) => if request_is_valid(row.amount, row.category) {
            Some(
                ExpenseView {
                    id,
                    amount: row.amount,
                    category: row.category,
                    date: Timestamp { secs, nanos },
                },
            )
        } else {
            None
        },
        _ => None,
    }
}

impl ExpenseRow {
    pub fn new(id: String, amount: Amount, category: String, date: String) -> (r: ExpenseRow)
        ensures
            r@ == (ExpenseRowView { id: id@, amount, category: category@, date: date@ }),
    {
        ExpenseRow { id, amount, category, date }
    }
}

impl Expense {
    /// The hyphenated text of this record's id.
    pub fn id_text(&self) -> (r: String)
        ensures
            r@ == uuid_text_of(self.id),
            r@.len() == 36,
    {
        uuid_text(self.id)
    }

    /// The row that stores this record. Fails when the date lies outside the
    /// range that RFC 3339 text can carry.
    pub fn to_row(&self) -> (r: Result<ExpenseRow, StorageError>)
        ensures
            r is Err <==> rfc3339_text_of(self.date.secs, self.date.nanos) is None,
            r matches Err(e) ==> e == StorageError::MalformedRow,
            r matches Ok(row) ==> {
                &&& row.id@ == uuid_text_of(self.id)
                &&& row.amount == self.amount
                &&& row.category@ == self.category@
                &&& rfc3339_text_of(self.date.secs, self.date.nanos) == Some(row.date@)
            },
    {
        match rfc3339_text(self.date.secs, self.date.nanos) {
            Some(date) => Ok(
                ExpenseRow {
                    id: uuid_text(self.id),
                    amount: self.amount,
                    category: self.category.clone(),
                    date,
                },
            ),
            None => Err(StorageError::MalformedRow),
        }
    }

    /// The record a row read back from the table holds. A row whose id or date
    /// does not parse, or that breaks the record rules, is reported as
    /// `MalformedRow`.
    pub fn from_row(row: &ExpenseRow) -> (r: Result<Expense, StorageError>)
        ensures
            r is Ok <==> row_record(row@) is Some,
            r matches Ok(e) ==> row_record(row@) == Some(e@),
            r matches Err(e) ==> e == StorageError::MalformedRow,
    {
        let id = match parse_uuid(row.id.as_str()) {
            Some(id) => id,
            None => return Err(StorageError::MalformedRow),
        };
        let (secs, nanos) = match parse_rfc3339(row.date.as_str()) {
            Some(instant) => instant,
            None => return Err(StorageError::MalformedRow),
        };
        let request = CreateExpenseRequest { amount: row.amount, category: row.category.clone() };
        if request.validate().is_err() {
            return Err(StorageError::MalformedRow);
        }
        Ok(Expense { id, amount: row.amount, category: request.category, date: Timestamp { secs, nanos } })
    }
}

/// Whether every row holds a record.
pub open spec fn rows_well_formed(rows: Seq<ExpenseRowView>) -> bool {
    forall|i: int| 0 <= i < rows.len() ==> (#[trigger] row_record(rows[i])) is Some
}

/// The records the rows hold, in row order.
pub open spec fn rows_records(rows: Seq<ExpenseRowView>) -> Seq<ExpenseView> {
    rows.map_values(|row: ExpenseRowView| row_record(row)->Some_0)
}

/// The views of a list of rows.
pub open spec fn rows_view(rows: Seq<ExpenseRow>) -> Seq<ExpenseRowView> {
    rows.map_values(|row: ExpenseRow| row@)
}

impl ExpenseStore {
    /// A store holding the records of the rows read from the backing table.
    /// Fails with `MalformedRow` when some row holds no record, and otherwise
    /// with `DuplicateId` when two rows share an id.
    pub fn from_rows(rows: &Vec<ExpenseRow>) -> (r: Result<ExpenseStore, StorageError>)
        ensures
            r == Err::<ExpenseStore, StorageError>(StorageError::MalformedRow) <==> !rows_well_formed(rows_view(rows@)),
            r == Err::<ExpenseStore, StorageError>(StorageError::DuplicateId) <==> (rows_well_formed(rows_view(rows@))
                && !ids_unique(rows_records(rows_view(rows@)))),
            r is Ok <==> rows_well_formed(rows_view(rows@)) && ids_unique(rows_records(rows_view(rows@))),
            r matches Ok(s) ==> {
                &&& s.wf()
                &&& s@.len() == rows@.len()
                &&& forall|i: int| 0 <= i < rows@.len() ==> s@.contains(#[trigger] rows_records(rows_view(rows@))[i])
            },
    {
        let ghost rv = rows_view(rows@);
        let ghost recs = rows_records(rv);
        let mut parsed: Vec<Expense> = Vec::new();
        let mut i: usize = 0;
        while i < rows.len()
            invariant
                i <= rows@.len(),
                rv == rows_view(rows@),
                recs == rows_records(rv),
                parsed@.len() == i,
                forall|k: int| 0 <= k < i ==> row_record(#[trigger] rv[k]) is Some,
                forall|k: int| 0 <= k < i ==> (#[trigger] parsed@[k])@ == recs[k],
            decreases rows@.len() - i,
        {
            match Expense::from_row(&rows[i]) {
                Ok(e) => {
                    parsed.push(e);
                },
                Err(_) => {
                    assert(row_record(rv[i as int]) is None);
                    return Err(StorageError::MalformedRow);
                },
            }
            i = i + 1;
        }
        let mut store = ExpenseStore::new();
        let mut j: usize = 0;
        while j < parsed.len()
            invariant
                j <= parsed@.len(),
                parsed@.len() == rows@.len(),
                rv == rows_view(rows@),
                recs == rows_records(rv),
                rows_well_formed(rv),
                forall|k: int| 0 <= k < parsed@.len() ==> (#[trigger] parsed@[k])@ == recs[k],
                store.wf(),
                store@.len() == j,
                forall|k: int| 0 <= k < j ==> store@.contains(#[trigger] recs[k]),
                forall|m: int| #![trigger store@[m]] 0 <= m < j ==> exists|k: int| 0 <= k < j && store@[m] == #[trigger] recs[k],
                forall|a: int, b: int| 0 <= a < j && 0 <= b < j && a != b ==> #[trigger] recs[a].id != #[trigger] recs[b].id,
            decreases parsed@.len() - j,
        {
            let e = parsed[j].duplicate();
            let ghost before = store@;
            let ghost ev = e@;
            assert(ev == recs[j as int]);
            assert(row_record(rv[j as int]) is Some);
            assert(recs[j as int] == row_record(rv[j as int])->Some_0);
            assert(crate::model::record_is_valid(ev));
            match store.insert(e) {
                Ok(()) => {
                    proof {
                        let p = choose|p: int| 0 <= p <= before.len() && store@ == before.insert(p, ev);
                        before.insert_ensures(p, ev);
                        assert forall|k: int| 0 <= k < j + 1 implies store@.contains(#[trigger] recs[k]) by {
                            if k == j {
                                assert(store@[p] == ev);
                            } else {
                                let q = choose|q: int| 0 <= q < before.len() && before[q] == recs[k];
                                if q < p {
                                    assert(store@[q] == recs[k]);
                                } else {
                                    assert(store@[q + 1] == recs[k]);
                                }
                            }
                        }
                        assert forall|m: int| #![trigger store@[m]] 0 <= m < j + 1 implies exists|k: int| 0 <= k < j + 1 && store@[m] == #[trigger] recs[k] by {
                            if m == p {
                                assert(store@[m] == recs[j as int]);
                            } else if m < p {
                                assert(store@[m] == before[m]);
                                let k = choose|k: int| 0 <= k < j && before[m] == #[trigger] recs[k];
                                assert(store@[m] == recs[k]);
                            } else {
                                assert(store@[m] == before[m - 1]);
                                let k = choose|k: int| 0 <= k < j && before[m - 1] == #[trigger] recs[k];
                                assert(store@[m] == recs[k]);
                            }
                        }
                        assert forall|a: int, b: int| 0 <= a < j + 1 && 0 <= b < j + 1 && a != b implies #[trigger] recs[a].id != #[trigger] recs[b].id by {
                            if a == j {
                                assert(!has_id(before, ev.id));
                                assert(before.contains(recs[b]));
                            } else if b == j {
                                assert(!has_id(before, ev.id));
                                assert(before.contains(recs[a]));
                            }
                        }
                    }
                },
                Err(err) => {
                    proof {
                        assert(err == StorageError::DuplicateId);
                        let m = choose|m: int| 0 <= m < before.len() && #[trigger] before[m].id == ev.id;
                        let k = choose|k: int| 0 <= k < j && before[m] == #[trigger] recs[k];
                        assert(recs[k].id == recs[j as int].id);
                        assert(!ids_unique(recs));
                    }
                    return Err(err);
                },
            }
            j = j + 1;
        }
        Ok(store)
    }
}

} // verus!
