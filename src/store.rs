use vstd::prelude::*;
use crate::model::{amount_meets_minimum, is_before, record_is_valid, Expense, ExpenseView};

verus! {

/// Why the record store refused or failed an operation.
#[derive(Clone, Copy, Debug, PartialEq, Eq, Structural)]
pub enum StorageError {
    /// A record with the same id is already stored.
    DuplicateId,
    /// The record breaks a rule that every stored record obeys.
    InvalidRecord,
    /// A row read back from the backing table could not be turned into a record.
    MalformedRow,
    /// The backing table could not be read or written.
    Backend,
}

/// Whether the records run from the most recent to the oldest.
pub open spec fn newest_first(s: Seq<ExpenseView>) -> bool {
    forall|i: int, j: int| 0 <= i < j < s.len() ==> !is_before(#[trigger] s[i].date, #[trigger] s[j].date)
}

/// Whether no two records share an id.
pub open spec fn ids_unique(s: Seq<ExpenseView>) -> bool {
    forall|i: int, j: int| 0 <= i < s.len() && 0 <= j < s.len() && i != j ==> #[trigger] s[i].id != #[trigger] s[j].id
}

/// Whether some record has this id.
pub open spec fn has_id(s: Seq<ExpenseView>, id: u128) -> bool {
    exists|i: int| 0 <= i < s.len() && #[trigger] s[i].id == id
}

/// Whether `e` has the greatest amount among `s`. For valid records (amounts
/// of at least 0.01, never NaN) bit patterns order as the amounts do.
pub open spec fn is_highest(s: Seq<ExpenseView>, e: ExpenseView) -> bool {
    &&& s.contains(e)
    &&& forall|i: int| 0 <= i < s.len() ==> (#[trigger] s[i]).amount.bits <= e.amount.bits
}

/// Whether `e` is the first record of `s` with the greatest amount.
pub open spec fn is_first_highest(s: Seq<ExpenseView>, e: ExpenseView) -> bool {
    &&& is_highest(s, e)
    &&& exists|i: int|
        0 <= i < s.len() && s[i] == e && forall|k: int| 0 <= k < i ==> (#[trigger] s[k]).amount.bits < e.amount.bits
}

/// The invariant of a store: records valid, ids unique, newest first.
pub open spec fn store_wf(s: Seq<ExpenseView>) -> bool {
    &&& forall|i: int| 0 <= i < s.len() ==> record_is_valid(#[trigger] s[i])
    &&& ids_unique(s)
    &&& newest_first(s)
}

/// The view of a list of records.
pub open spec fn records_view(v: Seq<Expense>) -> Seq<ExpenseView> {
    v.map_values(|e: Expense| e@)
}

/// The table of expense records. Records are only ever added; the table is
/// kept ordered from the most recent record to the oldest.
pub struct ExpenseStore {
    records: Vec<Expense>,
}

impl View for ExpenseStore {
    type V = Seq<ExpenseView>;

    closed spec fn view(&self) -> Seq<ExpenseView> {
        records_view(self.records@)
    }
}

impl ExpenseStore {
    pub open spec fn wf(&self) -> bool {
        store_wf(self@)
    }

    /// An empty store.
    pub fn new() -> (r: ExpenseStore)
        ensures
            r.wf(),
            r@.len() == 0,
    {
        let r = ExpenseStore { records: Vec::new() };
        assert(r@ =~= Seq::<ExpenseView>::empty());
        r
    }

    /// The number of stored records.
    pub fn len(&self) -> (r: usize)
        ensures
            r == self@.len(),
    {
        self.records.len()
    }

    /// Whether a record with this id is stored.
    pub fn contains_id(&self, id: u128) -> (r: bool)
        ensures
            r == has_id(self@, id),
    {
        let mut i: usize = 0;
        while i < self.records.len()
            invariant
                i <= self.records@.len(),
                forall|k: int| 0 <= k < i ==> self@[k].id != id,
            decreases self.records@.len() - i,
        {
            if self.records[i].id == id {
                assert(self@[i as int].id == id);
                return true;
            }
            i = i + 1;
        }
        false
    }

    /// Writes one record. A record that breaks the record rules, or whose id
    /// is taken, is refused and nothing changes. Otherwise it is placed so
    /// that the table stays ordered newest first.
    pub fn insert(&mut self, record: Expense) -> (r: Result<(), StorageError>)
        requires
            old(self).wf(),
        ensures
            final(self).wf(),
            r == Err::<(), StorageError>(StorageError::InvalidRecord) <==> !record_is_valid(record@),
            r == Err::<(), StorageError>(StorageError::DuplicateId) <==> (record_is_valid(record@)
                && has_id(old(self)@, record.id)),
            r is Ok <==> record_is_valid(record@) && !has_id(old(self)@, record.id),
            r is Err ==> final(self)@ == old(self)@,
            r is Ok ==> exists|p: int| 0 <= p <= old(self)@.len() && final(self)@ == old(self)@.insert(p, record@),
    {
        let amount_ok = record.amount.meets_minimum();
        let chars = record.category.as_str().unicode_len();
        if !(amount_ok && 1 <= chars && chars <= crate::model::MAX_CATEGORY_CHARS) {
            return Err(StorageError::InvalidRecord);
        }
        if self.contains_id(record.id) {
            return Err(StorageError::DuplicateId);
        }
        let ghost before = self@;
        let mut pos: usize = 0;
        while pos < self.records.len() && !self.records[pos].date.before(&record.date)
            invariant
                pos <= self.records@.len(),
                before == self@,
                forall|k: int| 0 <= k < pos ==> !is_before(#[trigger] before[k].date, record.date),
            decreases self.records@.len() - pos,
        {
            pos = pos + 1;
        }
        let ghost rv = record@;
        self.records.insert(pos, record);
        proof {
            let after = self@;
            before.insert_ensures(pos as int, rv);
            assert(after =~= before.insert(pos as int, rv));
            assert forall|i: int, j: int| 0 <= i < j < after.len() implies !is_before(
                #[trigger] after[i].date,
                #[trigger] after[j].date,
            ) by {
                if j == pos {
                    assert(after[i] == before[i]);
                } else if i == pos {
                    assert(after[j] == before[j - 1]);
                    assert(!is_before(before[pos as int].date, before[j - 1].date));
                } else if j < pos {
                } else if i < pos {
                    assert(after[j] == before[j - 1]);
                } else {
                    assert(after[j] == before[j - 1]);
                    assert(after[i] == before[i - 1]);
                }
            }
            assert forall|i: int, j: int|
                0 <= i < after.len() && 0 <= j < after.len() && i != j implies #[trigger] after[i].id
                != #[trigger] after[j].id by {
                if i == pos {
                    if j > pos {
                        assert(after[j] == before[j - 1]);
                    }
                } else if j == pos {
                    if i > pos {
                        assert(after[i] == before[i - 1]);
                    }
                }
            }
            assert forall|i: int| 0 <= i < after.len() implies record_is_valid(#[trigger] after[i]) by {
                if i > pos {
                    assert(after[i] == before[i - 1]);
                }
            }
        }
        Ok(())
    }

    /// Every record, the most recent first.
    pub fn list_all(&self) -> (r: Vec<Expense>)
        requires
            self.wf(),
        ensures
            records_view(r@) == self@,
            newest_first(records_view(r@)),
    {
        let mut out: Vec<Expense> = Vec::new();
        let mut i: usize = 0;
        while i < self.records.len()
            invariant
                i <= self.records@.len(),
                records_view(out@) =~= self@.subrange(0, i as int),
            decreases self.records@.len() - i,
        {
            let e = self.records[i].duplicate();
            let ghost prev = out@;
            proof {
                assert(e@ == self@[i as int]);
            }
            out.push(e);
            proof {
                assert(out@ == prev.push(e));
                assert(records_view(out@) =~= records_view(prev).push(e@));
                assert(self@.subrange(0, i + 1) =~= self@.subrange(0, i as int).push(e@));
            }
            i = i + 1;
        }
        assert(self@.subrange(0, self@.len() as int) =~= self@);
        out
    }

    /// A record with the greatest amount, or `None` when the store is empty.
    /// Among records that share the greatest amount, the first in the table
    /// (the most recent) is returned.
    pub fn find_max_amount(&self) -> (r: Option<Expense>)
        requires
            self.wf(),
        ensures
            r is None <==> self@.len() == 0,
            r matches Some(e) ==> is_first_highest(self@, e@),
    {
        if self.records.len() == 0 {
            return None;
        }
        let mut best: usize = 0;
        let mut i: usize = 1;
        while i < self.records.len()
            invariant
                1 <= i <= self.records@.len(),
                best < i,
                forall|k: int| 0 <= k < i ==> (#[trigger] self@[k]).amount.bits <= self@[best as int].amount.bits,
                forall|k: int| 0 <= k < best ==> (#[trigger] self@[k]).amount.bits < self@[best as int].amount.bits,
            decreases self.records@.len() - i,
        {
            if self.records[i].amount.bits > self.records[best].amount.bits {
                best = i;
            }
            i = i + 1;
        }
        let e = self.records[best].duplicate();
        assert(self@[best as int] == e@);
        Some(e)
    }
}

} // verus!
