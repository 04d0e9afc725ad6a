//! The expense record and the mathematical vocabulary used to talk about a
//! sequence of records: the largest id, uniqueness of ids, membership.

use vstd::prelude::*;

verus! {

/// One recorded expense.
///
/// `A` is the type of the amount. The rules of the tracker never compute with
/// an amount: they store it and hand it back, so any type will do.
#[derive(Debug, Clone, PartialEq)]
pub struct Expense<A> {
    pub id: u32,
    pub description: String,
    pub amount: A,
}

/// The largest id that occurs in `s`, or 0 where `s` is empty.
pub open spec fn max_id<A>(s: Seq<Expense<A>>) -> nat
    decreases s.len(),
{
    if s.len() == 0 {
        0
    } else {
        let rest = max_id(s.drop_last());
        if s.last().id > rest {
            s.last().id as nat
        } else {
            rest
        }
    }
}

/// No two records of `s` share an id.
pub open spec fn unique_ids<A>(s: Seq<Expense<A>>) -> bool {
    forall|i: int, j: int| 0 <= i < j < s.len() ==> s[i].id != s[j].id
}

/// Some record of `s` carries the id `id`.
pub open spec fn has_id<A>(s: Seq<Expense<A>>, id: u32) -> bool {
    exists|i: int| 0 <= i < s.len() && s[i].id == id
}

/// `max_id` is an upper bound of the ids of `s`, it fits the id type, and on
/// a non-empty sequence it is the id of one of the records.
pub proof fn lemma_max_id<A>(s: Seq<Expense<A>>)
    ensures
        max_id(s) <= u32::MAX,
        forall|i: int| 0 <= i < s.len() ==> s[i].id <= max_id(s),
        s.len() == 0 ==> max_id(s) == 0,
        s.len() > 0 ==> exists|i: int| 0 <= i < s.len() && s[i].id == max_id(s),
    decreases s.len(),
{
    if s.len() > 0 {
        let front = s.drop_last();
        lemma_max_id(front);
        assert forall|i: int| 0 <= i < s.len() implies s[i].id <= max_id(s) by {
            if i < s.len() - 1 {
                assert(front[i] == s[i]);
            }
        }
        if s.last().id <= max_id(front) && front.len() > 0 {
            let k = choose|k: int| 0 <= k < front.len() && front[k].id == max_id(front);
            assert(s[k].id == max_id(s));
        } else {
            assert(s[s.len() - 1].id == max_id(s));
        }
    }
}

/// The largest id among `expenses`, or 0 where there is none.
pub fn highest_id<A>(expenses: &Vec<Expense<A>>) -> (highest: u32)
    ensures
        highest == max_id(expenses@),
{
    let mut highest: u32 = 0;
    let mut i: usize = 0;
    while i < expenses.len()
        invariant
            i <= expenses.len(),
            highest == max_id(expenses@.take(i as int)),
        decreases expenses.len() - i,
    {
        assert(expenses@.take(i + 1).drop_last() == expenses@.take(i as int));
        if expenses[i].id > highest {
            highest = expenses[i].id;
        }
        i += 1;
    }
    assert(expenses@.take(i as int) == expenses@);
    highest
}

} // verus!
