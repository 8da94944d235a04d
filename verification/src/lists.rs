//! Lists of positions: what is left of a list when some entries are
//! taken out.

use vstd::prelude::*;

verus! {

/// `list` without the entries that are in `excluded`, the others in their
/// order.
pub open spec fn without<T>(list: Seq<T>, excluded: Set<T>) -> Seq<T>
    decreases list.len(),
{
    if list.len() == 0 {
        Seq::empty()
    } else if excluded.contains(list.last()) {
        without(list.drop_last(), excluded)
    } else {
        without(list.drop_last(), excluded).push(list.last())
    }
}

/// What a list holds after one more entry was put at its end.
pub proof fn lemma_push_contains<T>(list: Seq<T>, last: T)
    ensures
        forall|entry: T| #[trigger]
            list.push(last).contains(entry) <==> list.contains(entry) || entry == last,
{
    let longer = list.push(last);
    assert forall|entry: T| #[trigger] longer.contains(entry) <==> list.contains(entry) || entry
        == last by {
        if list.contains(entry) {
            let i = choose|i: int| 0 <= i < list.len() && list[i] == entry;
            assert(longer[i] == entry);
        }
        if entry == last {
            assert(longer[list.len() as int] == entry);
        }
        if longer.contains(entry) {
            let i = choose|i: int| 0 <= i < longer.len() && longer[i] == entry;
            if i < list.len() {
                assert(list[i] == entry);
            }
        }
    }
}

/// What `without` keeps: exactly the entries of the list that are not
/// excluded.
pub proof fn lemma_without_members<T>(list: Seq<T>, excluded: Set<T>)
    ensures
        forall|entry: T| #[trigger]
            without(list, excluded).contains(entry) <==> list.contains(entry) && !excluded.contains(
                entry,
            ),
    decreases list.len(),
{
    if list.len() > 0 {
        let rest = list.drop_last();
        lemma_without_members(rest, excluded);
        let kept = without(rest, excluded);
        assert forall|entry: T| #[trigger]
            without(list, excluded).contains(entry) <==> list.contains(entry) && !excluded.contains(
                entry,
            ) by {
            if list.contains(entry) {
                let i = choose|i: int| 0 <= i < list.len() && list[i] == entry;
                if i < rest.len() {
                    assert(rest[i] == entry);
                }
            }
            if rest.contains(entry) {
                let i = choose|i: int| 0 <= i < rest.len() && rest[i] == entry;
                assert(list[i] == entry);
            }
            if !excluded.contains(list.last()) {
                assert(kept.push(list.last())[kept.len() as int] == list.last());
                if kept.contains(entry) {
                    let i = choose|i: int| 0 <= i < kept.len() && kept[i] == entry;
                    assert(kept.push(list.last())[i] == entry);
                }
                if kept.push(list.last()).contains(entry) {
                    let i = choose|i: int|
                        0 <= i < kept.push(list.last()).len() && kept.push(list.last())[i]
                            == entry;
                    if i < kept.len() {
                        assert(kept[i] == entry);
                    }
                }
            }
            assert(list[list.len() - 1] == list.last());
        }
    } else {
        assert forall|entry: T| !(#[trigger] without(list, excluded).contains(entry)) by {}
    }
}

/// Nothing is left of a list whose entries are all excluded.
pub proof fn lemma_without_all<T>(list: Seq<T>, excluded: Set<T>)
    requires
        forall|i: int| 0 <= i < list.len() ==> excluded.contains(#[trigger] list[i]),
    ensures
        without(list, excluded) == Seq::<T>::empty(),
    decreases list.len(),
{
    if list.len() > 0 {
        let rest = list.drop_last();
        assert forall|i: int| 0 <= i < rest.len() implies excluded.contains(#[trigger] rest[i]) by {
            assert(rest[i] == list[i]);
        }
        lemma_without_all(rest, excluded);
        assert(list.last() == list[list.len() - 1]);
    }
}

} // verus!
