//! Entries that may be absent, and the values of those that are present.

use vstd::prelude::*;

verus! {

/// The values of the entries that are present, in the order of the entries.
pub open spec fn present<T>(entries: Seq<Option<T>>) -> Seq<T> {
    entries.filter_map(|entry: Option<T>| entry)
}

/// Whether `copies` holds, place for place, a clone of each of `values`.
pub open spec fn clones_of<T: Clone>(values: Seq<T>, copies: Seq<T>) -> bool {
    &&& copies.len() == values.len()
    &&& forall|i: int| 0 <= i < values.len() ==> cloned(#[trigger] values[i], copies[i])
}

/// Whether a clone of a `T` is always equal to the value it was made from.
pub open spec fn clones_are_equal<T: Clone>() -> bool {
    forall|value: T, copy: T| #[trigger] cloned(value, copy) ==> copy == value
}

/// Clones the values of the entries that are present, in the order of the
/// entries.
pub fn filter_present<T: Clone>(entries: &Vec<Option<T>>) -> (values: Vec<T>)
    ensures
        clones_of(present(entries@), values@),
        clones_are_equal::<T>() ==> values@ == present(entries@),
{
    let mut values: Vec<T> = Vec::new();
    let mut at: usize = 0;
    while at < entries.len()
        invariant
            at <= entries.len(),
            clones_of(present(entries@.take(at as int)), values@),
        decreases entries.len() - at,
    {
        proof {
            entries@.lemma_filter_map_take_succ(|entry: Option<T>| entry, at as int);
        }
        match &entries[at] {
            Some(value) => {
                values.push(value.clone());
            },
            None => {},
        }
        at = at + 1;
    }
    assert(entries@.take(at as int) =~= entries@);
    values
}

/// Entries that are all present and hold `values`.
pub open spec fn whole<T>(values: Seq<T>) -> Seq<Option<T>> {
    values.map_values(|value: T| Some(value))
}

/// The present values of two lists of entries, one behind the other, are the
/// present values of the first and then those of the second.
pub proof fn lemma_present_concat<T>(first: Seq<Option<T>>, second: Seq<Option<T>>)
    ensures
        present(first + second) == present(first) + present(second),
    decreases second.len(),
{
    if second.len() > 0 {
        lemma_present_concat(first, second.drop_last());
        assert((first + second).drop_last() =~= first + second.drop_last());
    }
}

/// Where every entry is present, nothing is dropped.
pub proof fn lemma_present_of_whole<T>(values: Seq<T>)
    ensures
        present(whole(values)) == values,
    decreases values.len(),
{
    if values.len() > 0 {
        lemma_present_of_whole(values.drop_last());
        assert(whole(values).drop_last() =~= whole(values.drop_last()));
    }
}

/// Filtering is idempotent: the present values, taken as entries and filtered
/// again, are the same values.
pub proof fn lemma_present_is_idempotent<T>(entries: Seq<Option<T>>)
    ensures
        present(whole(present(entries))) == present(entries),
{
    lemma_present_of_whole(present(entries));
}

/// Filtering keeps the order and drops nothing that is present: the value of
/// a present entry stands behind the values of the present entries before it.
pub proof fn lemma_present_keeps_order<T>(entries: Seq<Option<T>>, at: int)
    requires
        0 <= at < entries.len(),
        entries[at] is Some,
    ensures
        present(entries.take(at)).len() < present(entries).len(),
        present(entries)[present(entries.take(at)).len() as int] == entries[at]->0,
        present(entries.take(at)).is_prefix_of(present(entries)),
{
    let before = entries.take(at);
    let here = seq![entries[at]];
    let behind = entries.skip(at + 1);
    assert(entries =~= before + here + behind);
    lemma_present_concat(before + here, behind);
    lemma_present_concat(before, here);
    Seq::lemma_filter_map_singleton(entries[at], |entry: Option<T>| entry);
}

/// Filtering drops exactly the absent entries: a value is among the present
/// values if and only if an entry holds it.
pub proof fn lemma_present_holds_what_entries_hold<T>(entries: Seq<Option<T>>, value: T)
    ensures
        present(entries).contains(value) <==> entries.contains(Some(value)),
{
    if present(entries).contains(value) {
        entries.lemma_filter_map_contains(|entry: Option<T>| entry, value);
    }
    if entries.contains(Some(value)) {
        let at = choose|at: int| 0 <= at < entries.len() && entries[at] == Some(value);
        lemma_present_keeps_order(entries, at);
    }
}

} // verus!
