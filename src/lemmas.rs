use vstd::prelude::*;
use crate::model::ExpenseView;
use crate::store::{ids_unique, is_highest, store_wf};

verus! {

/// A successful insert loses no write: every record stored before is still
/// stored, the new record is stored too, and the store grew by one. When the
/// result is a valid store, the new record's id differs from every earlier id.
pub proof fn lemma_insert_loses_nothing(before: Seq<ExpenseView>, record: ExpenseView, p: int)
    requires
        0 <= p <= before.len(),
    ensures
        before.insert(p, record).len() == before.len() + 1,
        before.insert(p, record).contains(record),
        forall|x: ExpenseView| before.contains(x) ==> #[trigger] before.insert(p, record).contains(x),
        store_wf(before.insert(p, record)) ==> forall|i: int|
            0 <= i < before.len() ==> (#[trigger] before[i]).id != record.id,
{
    let after = before.insert(p, record);
    before.insert_ensures(p, record);
    assert(after[p] == record);
    assert forall|x: ExpenseView| before.contains(x) implies #[trigger] after.contains(x) by {
        let i = choose|i: int| 0 <= i < before.len() && before[i] == x;
        if i < p {
            assert(after[i] == x);
        } else {
            assert(after[i + 1] == x);
        }
    }
    if store_wf(after) {
        assert forall|i: int| 0 <= i < before.len() implies (#[trigger] before[i]).id != record.id by {
            assert(ids_unique(after));
            if i < p {
                assert(after[i] == before[i]);
            } else {
                assert(after[i + 1] == before[i]);
            }
        }
    }
}

/// Two successive successful inserts lose no write: both new records and
/// every earlier one are stored, the store grew by two, and when the result is
/// a valid store the two new records have different ids.
pub proof fn lemma_two_inserts_keep_both(
    before: Seq<ExpenseView>,
    first: ExpenseView,
    p: int,
    second: ExpenseView,
    q: int,
)
    requires
        0 <= p <= before.len(),
        0 <= q <= before.len() + 1,
    ensures
        before.insert(p, first).insert(q, second).len() == before.len() + 2,
        before.insert(p, first).insert(q, second).contains(first),
        before.insert(p, first).insert(q, second).contains(second),
        forall|x: ExpenseView| before.contains(x) ==> #[trigger] before.insert(p, first).insert(q, second).contains(x),
        store_wf(before.insert(p, first).insert(q, second)) ==> first.id != second.id,
{
    let middle = before.insert(p, first);
    lemma_insert_loses_nothing(before, first, p);
    lemma_insert_loses_nothing(middle, second, q);
    if store_wf(middle.insert(q, second)) {
        let i = choose|i: int| 0 <= i < middle.len() && middle[i] == first;
        assert(middle[i].id != second.id);
    }
}

/// A record inserted into an empty store is what the store lists, and it is
/// the record with the greatest amount.
pub proof fn lemma_lone_record_round_trip(record: ExpenseView, p: int, listed: Seq<ExpenseView>, highest: ExpenseView)
    requires
        p == 0,
        listed == Seq::<ExpenseView>::empty().insert(p, record),
        is_highest(listed, highest),
    ensures
        listed =~= seq![record],
        highest == record,
{
    Seq::<ExpenseView>::empty().insert_ensures(p, record);
    assert(listed =~= seq![record]);
}

} // verus!
