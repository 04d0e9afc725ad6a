//! The two commands that change the records: adding an expense and deleting
//! one by its id.

use vstd::prelude::*;
use crate::expense::{has_id, highest_id, lemma_max_id, max_id, unique_ids, Expense};
use crate::report::{
    added_message, added_text, deleted_message, deleted_text, not_found_message, not_found_text,
};

verus! {

/// What a command leaves to its caller.
#[derive(Debug)]
pub struct Outcome<A> {
    /// The records to store in place of the old ones; `None` where the
    /// datastore stays as it is and nothing is to be written.
    pub save: Option<Vec<Expense<A>>>,
    /// The line to print.
    pub message: String,
}

/// The records `s` followed by a new one, which carries the id after the
/// largest id of `s`.
pub open spec fn with_added<A>(s: Seq<Expense<A>>, description: String, amount: A) -> Seq<
    Expense<A>,
> {
    s.push(Expense { id: (max_id(s) + 1) as u32, description, amount })
}

/// The records after a request to add an expense: `with_added`, or `s` itself
/// where no id is left.
pub open spec fn after_add<A>(s: Seq<Expense<A>>, description: String, amount: A) -> Seq<
    Expense<A>,
> {
    if max_id(s) < u32::MAX {
        with_added(s, description, amount)
    } else {
        s
    }
}

/// The records after the requests of `requests`, each a description and an
/// amount, were served one after the other, starting from `s`.
pub open spec fn after_adds<A>(s: Seq<Expense<A>>, requests: Seq<(String, A)>) -> Seq<Expense<A>>
    decreases requests.len(),
{
    if requests.len() == 0 {
        s
    } else {
        after_add(after_adds(s, requests.drop_last()), requests.last().0, requests.last().1)
    }
}

/// The records of `s` whose id is not `id`, in their order.
pub open spec fn without_id<A>(s: Seq<Expense<A>>, id: u32) -> Seq<Expense<A>> {
    s.filter(|e: Expense<A>| e.id != id)
}

/// The id that the next expense gets: one more than the largest id, and 1
/// for the first expense. `None` where the largest id is the last one that
/// the id type has.
pub fn next_id<A>(expenses: &Vec<Expense<A>>) -> (id: Option<u32>)
    ensures
        max_id(expenses@) < u32::MAX ==> id == Some((max_id(expenses@) + 1) as u32),
        max_id(expenses@) >= u32::MAX ==> id is None,
{
    let highest: u32 = highest_id(expenses);
    if highest < u32::MAX {
        Some(highest + 1)
    } else {
        None
    }
}

/// Records a new expense behind the others, under the next id, and reports
/// that id. The result is `None`, and nothing is added, where no id is left.
pub fn add_expense<A>(expenses: Vec<Expense<A>>, description: String, amount: A) -> (outcome:
    Option<Outcome<A>>)
    ensures
        max_id(expenses@) < u32::MAX ==> ({
            &&& outcome matches Some(o)
            &&& o.save matches Some(list)
            &&& list@ == with_added(expenses@, description, amount)
            &&& o.message@ == added_message((max_id(expenses@) + 1) as u32)
        }),
        max_id(expenses@) >= u32::MAX ==> outcome is None,
{
    match next_id(&expenses) {
        Some(id) => {
            let mut list = expenses;
            list.push(Expense { id, description, amount });
            Some(Outcome { save: Some(list), message: added_text(id) })
        },
        None => None,
    }
}

/// Removes every expense that carries `id`. Where there is one, the records
/// that are left are to be saved; where there is none, nothing is to be
/// written, and the report says that no such expense was found.
pub fn delete_expense<A>(expenses: Vec<Expense<A>>, id: u32) -> (outcome: Outcome<A>)
    ensures
        has_id(expenses@, id) ==> ({
            &&& outcome.save matches Some(list)
            &&& list@ == without_id(expenses@, id)
            &&& outcome.message@ == deleted_message(id)
        }),
        !has_id(expenses@, id) ==> ({
            &&& outcome.save is None
            &&& outcome.message@ == not_found_message(id)
        }),
{
    let ghost keep = |e: Expense<A>| e.id != id;
    let len_before: usize = expenses.len();
    let mut list = expenses;
    let mut i: usize = 0;
    let ghost mut done: int = 0;
    while i < list.len()
        invariant
            0 <= i <= done <= expenses.len(),
            list.len() - i == expenses.len() - done,
            list@.take(i as int) == expenses@.take(done).filter(keep),
            list@.skip(i as int) == expenses@.skip(done),
            keep == |e: Expense<A>| e.id != id,
        decreases list.len() - i,
    {
        let ghost before = list@;
        proof {
            assert(before[i as int] == before.skip(i as int)[0]);
            assert(expenses@.take(done + 1) == expenses@.take(done).push(expenses@[done]));
            expenses@.take(done).lemma_filter_push(expenses@[done], keep);
        }
        if list[i].id == id {
            list.remove(i);
            assert(list@.skip(i as int) == before.skip(i as int).skip(1));
        } else {
            assert(list@.skip(i + 1) == before.skip(i as int).skip(1));
            i += 1;
        }
        proof {
            done = done + 1;
        }
    }
    proof {
        assert(expenses@.take(done) == expenses@);
        lemma_without_id(expenses@, id);
    }
    if list.len() == len_before {
        Outcome { save: None, message: not_found_text(id) }
    } else {
        Outcome { save: Some(list), message: deleted_text(id) }
    }
}

/// What a deletion keeps and what it drops: no record that is left carries
/// `id`, every record that is left was there before, the records are fewer
/// exactly where one of them carried `id`, and without such a record the
/// sequence is unchanged.
pub proof fn lemma_without_id<A>(s: Seq<Expense<A>>, id: u32)
    ensures
        !has_id(without_id(s, id), id),
        forall|k: int|
            0 <= k < without_id(s, id).len() ==> s.contains(#[trigger] without_id(s, id)[k]),
        without_id(s, id).len() <= s.len(),
        has_id(s, id) <==> without_id(s, id).len() < s.len(),
        !has_id(s, id) ==> without_id(s, id) == s,
    decreases s.len(),
{
    reveal(Seq::filter);
    if s.len() > 0 {
        let front = s.drop_last();
        let kept_front = without_id(front, id);
        let kept = without_id(s, id);
        lemma_without_id(front, id);
        assert forall|k: int| 0 <= k < kept.len() implies s.contains(#[trigger] kept[k]) by {
            if k < kept_front.len() {
                let j = choose|j: int| 0 <= j < front.len() && front[j] == kept_front[k];
                assert(s[j] == kept[k]);
            }
        }
        if has_id(front, id) {
            let j = choose|j: int| 0 <= j < front.len() && front[j].id == id;
            assert(s[j].id == id);
        }
        if has_id(s, id) && s.last().id != id {
            let j = choose|j: int| 0 <= j < s.len() && s[j].id == id;
            assert(front[j].id == id);
        }
    }
}

/// Adding an expense to records with distinct ids leaves the ids distinct,
/// and the new id is then the largest.
pub proof fn lemma_add_keeps_ids_unique<A>(s: Seq<Expense<A>>, description: String, amount: A)
    requires
        max_id(s) < u32::MAX,
    ensures
        max_id(with_added(s, description, amount)) == max_id(s) + 1,
        unique_ids(s) ==> unique_ids(with_added(s, description, amount)),
{
    lemma_max_id(s);
    assert(with_added(s, description, amount).drop_last() == s);
}

/// In records whose largest id is `m` the next expense gets the id `m + 1`,
/// and the first expense of all gets the id 1.
pub proof fn lemma_next_id_follows_largest<A>(
    s: Seq<Expense<A>>,
    m: u32,
    description: String,
    amount: A,
)
    requires
        m < u32::MAX,
        forall|i: int| 0 <= i < s.len() ==> s[i].id <= m,
        s.len() > 0 ==> exists|i: int| 0 <= i < s.len() && s[i].id == m,
        s.len() == 0 ==> m == 0,
    ensures
        max_id(s) == m,
        after_add(s, description, amount) == with_added(s, description, amount),
        with_added(s, description, amount).last().id == m + 1,
        s.len() == 0 ==> with_added(s, description, amount).last().id == 1,
{
    lemma_max_id(s);
}

/// However many expenses are added one after the other, ids that were
/// distinct stay distinct.
pub proof fn lemma_adds_keep_ids_unique<A>(s: Seq<Expense<A>>, requests: Seq<(String, A)>)
    requires
        unique_ids(s),
    ensures
        unique_ids(after_adds(s, requests)),
    decreases requests.len(),
{
    if requests.len() > 0 {
        let served = after_adds(s, requests.drop_last());
        lemma_adds_keep_ids_unique(s, requests.drop_last());
        if max_id(served) < u32::MAX {
            lemma_add_keeps_ids_unique(served, requests.last().0, requests.last().1);
        }
    }
}

/// Records that came about by adding expenses to an empty datastore carry
/// distinct ids.
pub proof fn lemma_ids_unique_from_empty<A>(requests: Seq<(String, A)>)
    ensures
        unique_ids(after_adds(Seq::<Expense<A>>::empty(), requests)),
{
    lemma_adds_keep_ids_unique(Seq::<Expense<A>>::empty(), requests);
}

/// Where ids are distinct, deleting the id of the record at `i` removes that
/// record and no other: the records are one fewer, and the rest keep their
/// order.
pub proof fn lemma_delete_present<A>(s: Seq<Expense<A>>, i: int)
    requires
        unique_ids(s),
        0 <= i < s.len(),
    ensures
        without_id(s, s[i].id) == s.remove(i),
        without_id(s, s[i].id).len() == s.len() - 1,
    decreases s.len(),
{
    let id = s[i].id;
    let front = s.drop_last();
    reveal(Seq::filter);
    if i == s.len() - 1 {
        if has_id(front, id) {
            let j = choose|j: int| 0 <= j < front.len() && front[j].id == id;
            assert(s[j].id == s[i].id);
        }
        lemma_without_id(front, id);
    } else {
        lemma_front_keeps_ids_unique(s);
        lemma_delete_present(front, i);
        assert(s.last().id != s[i].id);
    }
}

/// Deleting an id that no record carries changes nothing.
pub proof fn lemma_delete_absent<A>(s: Seq<Expense<A>>, id: u32)
    requires
        !has_id(s, id),
    ensures
        without_id(s, id) == s,
{
    lemma_without_id(s, id);
}

/// A deletion keeps distinct ids distinct.
pub proof fn lemma_delete_keeps_ids_unique<A>(s: Seq<Expense<A>>, id: u32)
    requires
        unique_ids(s),
    ensures
        unique_ids(without_id(s, id)),
    decreases s.len(),
{
    reveal(Seq::filter);
    if s.len() > 0 {
        let front = s.drop_last();
        let kept_front = without_id(front, id);
        let kept = without_id(s, id);
        lemma_front_keeps_ids_unique(s);
        lemma_delete_keeps_ids_unique(front, id);
        lemma_without_id(front, id);
        if s.last().id != id {
            assert forall|a: int, b: int| 0 <= a < b < kept.len() implies kept[a].id
                != kept[b].id by {
                if b == kept.len() - 1 {
                    let j = choose|j: int| 0 <= j < front.len() && front[j] == kept_front[a];
                    assert(s[j].id != s.last().id);
                }
            }
        }
    }
}

/// Distinct ids stay distinct when the last record is left out.
proof fn lemma_front_keeps_ids_unique<A>(s: Seq<Expense<A>>)
    requires
        unique_ids(s),
        s.len() > 0,
    ensures
        unique_ids(s.drop_last()),
{
    let front = s.drop_last();
    assert forall|a: int, b: int| 0 <= a < b < front.len() implies front[a].id != front[b].id by {
        assert(front[a] == s[a] && front[b] == s[b]);
    }
}

} // verus!
