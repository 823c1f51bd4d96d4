use vstd::prelude::*;

use crate::filament::RollView;
use crate::store::{
    after_save,
    after_update,
    contains_id,
    consistent,
    ids_unique,
    index_of,
    lookup,
    update_allowed,
};

verus! {

/// Saving a valid roll keeps a store consistent: ids stay unique and every
/// roll valid.
pub proof fn law_save_keeps_store_consistent(s: Seq<RollView>, r: RollView)
    requires
        consistent(s),
        r.is_valid(),
    ensures
        consistent(after_save(s, r)),
{
    let t = after_save(s, r);
    if contains_id(s, r.id) {
        let k = index_of(s, r.id);
        assert forall|i: int, j: int|
            0 <= i < t.len() && 0 <= j < t.len() && #[trigger] t[i].id == #[trigger] t[j].id implies i
                == j by {
            if i != k && j != k {
                assert(s[i].id == s[j].id);
            } else if i != k {
                assert(s[i].id == s[k].id);
            } else if j != k {
                assert(s[j].id == s[k].id);
            }
        }
    } else {
        assert forall|i: int, j: int|
            0 <= i < t.len() && 0 <= j < t.len() && #[trigger] t[i].id == #[trigger] t[j].id implies i
                == j by {
            if i < s.len() && j < s.len() {
                assert(s[i].id == s[j].id);
            } else if i < s.len() {
                assert(s[i].id == r.id);
            } else if j < s.len() {
                assert(s[j].id == r.id);
            }
        }
    }
}

/// Updating a remaining mass, accepted or not, keeps a store consistent and
/// every id where it was.
pub proof fn law_update_keeps_store_consistent(s: Seq<RollView>, id: Seq<char>, w: int)
    requires
        consistent(s),
    ensures
        consistent(after_update(s, id, w)),
        after_update(s, id, w).len() == s.len(),
        forall|i: int| 0 <= i < s.len() ==> (#[trigger] after_update(s, id, w)[i]).id == s[i].id,
{
    let t = after_update(s, id, w);
    if update_allowed(s, id, w) {
        let k = index_of(s, id);
        assert forall|i: int| 0 <= i < s.len() implies (#[trigger] t[i]).id == s[i].id by {}
        assert forall|i: int, j: int|
            0 <= i < t.len() && 0 <= j < t.len() && #[trigger] t[i].id == #[trigger] t[j].id implies i
                == j by {
            assert(t[i].id == s[i].id && t[j].id == s[j].id);
        }
        assert(s[k].is_valid());
        assert forall|i: int| 0 <= i < t.len() implies #[trigger] t[i].is_valid() by {
            assert(s[i].is_valid());
        }
    }
}

/// Once a roll is saved, looking up its id finds exactly that roll.
pub proof fn law_save_then_find(s: Seq<RollView>, r: RollView)
    requires
        ids_unique(s),
    ensures
        lookup(after_save(s, r), r.id) == Some(r),
{
    let t = after_save(s, r);
    if contains_id(s, r.id) {
        let k = index_of(s, r.id);
        assert(t[k] == r);
        assert(contains_id(t, r.id));
        let k2 = index_of(t, r.id);
        if k2 != k {
            assert(s[k2].id == s[k].id);
        }
    } else {
        let k = s.len() as int;
        assert(t[k] == r);
        assert(contains_id(t, r.id));
        let k2 = index_of(t, r.id);
        if k2 != k {
            assert(s[k2].id == r.id);
        }
    }
}

/// After an accepted update, looking up the id finds the roll with the new
/// remaining mass and every other field as before.
pub proof fn law_update_then_find(s: Seq<RollView>, id: Seq<char>, w: int)
    requires
        ids_unique(s),
        update_allowed(s, id, w),
    ensures
        lookup(after_update(s, id, w), id) == Some(lookup(s, id)->0.with_remaining(w)),
{
    let k = index_of(s, id);
    let t = after_update(s, id, w);
    assert(t[k].id == id);
    assert(contains_id(t, id));
    let k2 = index_of(t, id);
    if k2 != k {
        assert(t[k2].id == s[k2].id);
        assert(s[k2].id == s[k].id);
    }
}

/// A remaining mass below zero or above the roll's full mass changes
/// nothing in the store.
pub proof fn law_out_of_bounds_update_changes_nothing(s: Seq<RollView>, id: Seq<char>, w: int)
    requires
        w < 0 || (lookup(s, id) matches Some(v) && w > v.weight),
    ensures
        after_update(s, id, w) == s,
{
}

/// Saving twice under one id is the same as saving the second roll once:
/// the second replaces the first and the store does not grow.
pub proof fn law_save_is_upsert(s: Seq<RollView>, a: RollView, b: RollView)
    requires
        ids_unique(s),
        a.id == b.id,
    ensures
        after_save(after_save(s, a), b) == after_save(s, b),
        lookup(after_save(after_save(s, a), b), b.id) == Some(b),
        after_save(after_save(s, a), b).len() == after_save(s, a).len(),
{
    let t = after_save(s, a);
    if contains_id(s, a.id) {
        let k = index_of(s, a.id);
        assert(t[k].id == a.id);
        assert(contains_id(t, b.id));
        let k2 = index_of(t, b.id);
        if k2 != k {
            assert(s[k2].id == s[k].id);
        }
        assert(after_save(t, b) =~= after_save(s, b));
    } else {
        let k = s.len() as int;
        assert(t[k].id == b.id);
        assert(contains_id(t, b.id));
        let k2 = index_of(t, b.id);
        if k2 != k {
            assert(s[k2].id == a.id);
        }
        assert(after_save(t, b) =~= after_save(s, b));
    }
    law_save_then_find(s, b);
}

/// An id that is not stored stays absent when a roll with another id is
/// saved or when any remaining mass is updated, so looking it up fails.
pub proof fn law_unsaved_id_stays_absent(s: Seq<RollView>, r: RollView, id: Seq<char>, w: int)
    requires
        ids_unique(s),
        !contains_id(s, id),
        r.id != id,
    ensures
        !contains_id(after_save(s, r), id),
        !contains_id(after_update(s, r.id, w), id),
        lookup(after_save(s, r), id) is None,
        !contains_id(Seq::<RollView>::empty(), id),
{
    let t = after_save(s, r);
    if contains_id(t, id) {
        let k = choose|k: int| 0 <= k < t.len() && #[trigger] t[k].id == id;
        if contains_id(s, r.id) {
            if k != index_of(s, r.id) {
                assert(s[k].id == id);
            }
        } else if k < s.len() {
            assert(s[k].id == id);
        }
    }
    let u = after_update(s, r.id, w);
    if contains_id(u, id) {
        let k = choose|k: int| 0 <= k < u.len() && #[trigger] u[k].id == id;
        if update_allowed(s, r.id, w) {
            assert(u[k].id == s[k].id);
        }
    }
}

/// Updates of two different ids do not touch each other: applied in either
/// order they leave the same store.
pub proof fn law_updates_of_different_ids_commute(
    s: Seq<RollView>,
    id1: Seq<char>,
    w1: int,
    id2: Seq<char>,
    w2: int,
)
    requires
        ids_unique(s),
        id1 != id2,
    ensures
        after_update(after_update(s, id1, w1), id2, w2) == after_update(
            after_update(s, id2, w2),
            id1,
            w1,
        ),
{
    lemma_same_ids_same_lookups(s, id1, w1, id2);
    lemma_same_ids_same_lookups(s, id2, w2, id1);
    let a = after_update(s, id1, w1);
    let b = after_update(s, id2, w2);
    assert(after_update(a, id2, w2) =~= after_update(b, id1, w1));
}

/// Of two updates of one id, the later one that is accepted decides the
/// remaining mass: the store ends as if only that update had been made.
pub proof fn law_last_update_wins(s: Seq<RollView>, id: Seq<char>, w1: int, w2: int)
    requires
        ids_unique(s),
    ensures
        after_update(after_update(s, id, w1), id, w2) == if update_allowed(s, id, w2) {
            after_update(s, id, w2)
        } else {
            after_update(s, id, w1)
        },
{
    lemma_same_ids_same_lookups(s, id, w1, id);
    let a = after_update(s, id, w1);
    if update_allowed(s, id, w2) {
        assert(after_update(a, id, w2) =~= after_update(s, id, w2));
    }
}

/// An update leaves every id where it was, with the same full mass, so
/// lookups of another id are unaffected and the bounds of an update of the
/// same id are unchanged.
proof fn lemma_same_ids_same_lookups(s: Seq<RollView>, id: Seq<char>, w: int, other: Seq<char>)
    requires
        ids_unique(s),
    ensures
        ids_unique(after_update(s, id, w)),
        contains_id(after_update(s, id, w), other) == contains_id(s, other),
        contains_id(s, other) ==> index_of(after_update(s, id, w), other) == index_of(s, other),
        contains_id(s, other) ==> after_update(s, id, w)[index_of(s, other)].weight
            == s[index_of(s, other)].weight,
        other != id ==> lookup(after_update(s, id, w), other) == lookup(s, other),
        forall|x: int| update_allowed(after_update(s, id, w), other, x) == update_allowed(s, other, x),
{
    let t = after_update(s, id, w);
    if update_allowed(s, id, w) {
        let k = index_of(s, id);
        assert forall|i: int, j: int|
            0 <= i < t.len() && 0 <= j < t.len() && #[trigger] t[i].id == #[trigger] t[j].id implies i
                == j by {
            assert(t[i].id == s[i].id && t[j].id == s[j].id);
        }
        if contains_id(s, other) {
            let m = index_of(s, other);
            assert(t[m].id == other);
            assert(contains_id(t, other));
            let m2 = index_of(t, other);
            if m2 != m {
                assert(t[m2].id == s[m2].id);
                assert(s[m2].id == s[m].id);
            }
        }
        if contains_id(t, other) {
            let m = index_of(t, other);
            assert(s[m].id == t[m].id);
        }
    }
}

} // verus!
