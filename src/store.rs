use vstd::prelude::*;

use crate::error::FilamentError;
use crate::filament::{FilamentRoll, RollView, remaining_problem};

verus! {

/// The contents of a sequence of rolls.
pub open spec fn views(rolls: Seq<FilamentRoll>) -> Seq<RollView> {
    rolls.map_values(|f: FilamentRoll| f@)
}

/// No two entries share an id.
pub open spec fn ids_unique(s: Seq<RollView>) -> bool {
    forall|i: int, j: int|
        0 <= i < s.len() && 0 <= j < s.len() && #[trigger] s[i].id == #[trigger] s[j].id ==> i == j
}

/// Every entry obeys the rules of a roll.
pub open spec fn all_valid(s: Seq<RollView>) -> bool {
    forall|i: int| 0 <= i < s.len() ==> #[trigger] s[i].is_valid()
}

/// The entries obey every rule of a store: ids are unique and each roll is
/// valid.
pub open spec fn consistent(s: Seq<RollView>) -> bool {
    ids_unique(s) && all_valid(s)
}

/// Some entry carries this id.
pub open spec fn contains_id(s: Seq<RollView>, id: Seq<char>) -> bool {
    exists|i: int| 0 <= i < s.len() && #[trigger] s[i].id == id
}

/// The position of the entry with this id, where there is one.
pub open spec fn index_of(s: Seq<RollView>, id: Seq<char>) -> int {
    choose|i: int| 0 <= i < s.len() && #[trigger] s[i].id == id
}

/// The entry stored under this id.
pub open spec fn lookup(s: Seq<RollView>, id: Seq<char>) -> Option<RollView> {
    if contains_id(s, id) {
        Some(s[index_of(s, id)])
    } else {
        None
    }
}

/// The entries after saving `r`: it replaces the entry with its id in place,
/// or is added at the end when there is none.
pub open spec fn after_save(s: Seq<RollView>, r: RollView) -> Seq<RollView> {
    if contains_id(s, r.id) {
        s.update(index_of(s, r.id), r)
    } else {
        s.push(r)
    }
}

/// Whether the remaining mass of the entry with this id may become `w`.
pub open spec fn update_allowed(s: Seq<RollView>, id: Seq<char>, w: int) -> bool {
    match lookup(s, id) {
        Some(v) => 0 <= w <= v.weight,
        None => false,
    }
}

/// The entries after setting the remaining mass of the entry with this id to
/// `w`; unchanged when there is no such entry or `w` is out of bounds.
pub open spec fn after_update(s: Seq<RollView>, id: Seq<char>, w: int) -> Seq<RollView> {
    if update_allowed(s, id, w) {
        s.update(index_of(s, id), s[index_of(s, id)].with_remaining(w))
    } else {
        s
    }
}

/// What looking up `id` in the entries `s` returns: a copy of the entry, or
/// `NotFound` carrying the id.
pub open spec fn find_result(
    s: Seq<RollView>,
    id: Seq<char>,
    r: Result<FilamentRoll, FilamentError>,
) -> bool {
    match lookup(s, id) {
        Some(v) => r matches Ok(f) && f@ == v,
        None => r matches Err(FilamentError::NotFound(m)) && m@ == id,
    }
}

/// What setting the remaining mass of the entry with `id` in `s` to `w`
/// returns: `NotFound` carrying the id, `InvalidData` for a mass out of
/// bounds, or a copy of the updated entry.
pub open spec fn update_result(
    s: Seq<RollView>,
    id: Seq<char>,
    w: int,
    r: Result<FilamentRoll, FilamentError>,
) -> bool {
    match lookup(s, id) {
        None => r matches Err(FilamentError::NotFound(m)) && m@ == id,
        Some(v) => if 0 <= w <= v.weight {
            r matches Ok(f) && f@ == v.with_remaining(w)
        } else {
            r matches Err(FilamentError::InvalidData(m)) && m@ == remaining_problem(w)
        },
    }
}

/// Whether an entry is of this material.
pub open spec fn of_material(material: Seq<char>) -> spec_fn(RollView) -> bool {
    |v: RollView| v.material == material
}

/// The entries of this material, in their order.
pub open spec fn with_material(s: Seq<RollView>, material: Seq<char>) -> Seq<RollView> {
    s.filter(of_material(material))
}

/// The entry found under an id carries that id, and is valid where all
/// entries are.
pub proof fn lemma_lookup(s: Seq<RollView>, id: Seq<char>)
    ensures
        lookup(s, id) matches Some(v) ==> v.id == id && (all_valid(s) ==> v.is_valid()),
        lookup(s, id) is Some ==> 0 <= index_of(s, id) < s.len() && s[index_of(s, id)].id == id,
{
}

/// Selecting by material keeps ids unique and keeps only that material.
pub proof fn lemma_with_material(s: Seq<RollView>, material: Seq<char>)
    requires
        ids_unique(s),
    ensures
        ids_unique(with_material(s, material)),
        forall|i: int|
            0 <= i < with_material(s, material).len() ==> (#[trigger] with_material(
                s,
                material,
            )[i]).material == material,
    decreases s.len(),
{
    reveal(Seq::filter);
    let p = of_material(material);
    let out = with_material(s, material);
    assert forall|i: int| 0 <= i < out.len() implies (#[trigger] out[i]).material == material by {
        s.lemma_filter_pred(p, i);
    }
    if s.len() > 0 {
        let rest = s.drop_last();
        assert(ids_unique(rest)) by {
            assert forall|i: int, j: int|
                0 <= i < rest.len() && 0 <= j < rest.len() && #[trigger] rest[i].id
                    == #[trigger] rest[j].id implies i == j by {
                assert(s[i] == rest[i] && s[j] == rest[j]);
            }
        }
        lemma_with_material(rest, material);
        let head = with_material(rest, material);
        if p(s.last()) {
            assert(out == head.push(s.last()));
            assert forall|i: int| 0 <= i < head.len() implies #[trigger] head[i].id != s.last().id by {
                assert(head.contains(head[i]));
                rest.lemma_filter_contains_rev(p, head[i]);
                let j = choose|j: int| 0 <= j < rest.len() && rest[j] == head[i];
                assert(s[j] == rest[j]);
                assert(s[s.len() - 1] == s.last());
            }
            assert forall|i: int, j: int|
                0 <= i < out.len() && 0 <= j < out.len() && #[trigger] out[i].id
                    == #[trigger] out[j].id implies i == j by {
                if i < head.len() && j < head.len() {
                    assert(out[i] == head[i] && out[j] == head[j]);
                } else if i < head.len() {
                    assert(out[i] == head[i]);
                } else if j < head.len() {
                    assert(out[j] == head[j]);
                }
            }
        } else {
            assert(out == head);
        }
    }
}

/// Rolls keyed by id, kept in the order in which each id was first saved.
///
/// The rolls sit in a vector whose ids are unique, and lookups scan it: the
/// contents are then a plain sequence, so every operation, and the order of
/// what it returns, is stated exactly.
pub struct FilamentStore {
    rolls: Vec<FilamentRoll>,
}

impl View for FilamentStore {
    type V = Seq<RollView>;

    closed spec fn view(&self) -> Seq<RollView> {
        views(self.rolls@)
    }
}

impl FilamentStore {
    /// Ids are unique and every roll is valid.
    pub open spec fn wf(&self) -> bool {
        consistent(self@)
    }

    /// An empty store.
    pub fn new() -> (r: Self)
        ensures
            r@ == Seq::<RollView>::empty(),
            r.wf(),
    {
        let r = FilamentStore { rolls: Vec::new() };
        assert(r@ =~= Seq::<RollView>::empty());
        r
    }

    /// The position of the roll with this id.
    fn position(&self, id: &String) -> (r: Option<usize>)
        requires
            self.wf(),
        ensures
            match r {
                Some(i) => i < self@.len() && i == index_of(self@, id@) && self@[i as int].id
                    == id@,
                None => !contains_id(self@, id@),
            },
    {
        let mut i: usize = 0;
        while i < self.rolls.len()
            invariant
                i <= self.rolls.len(),
                self.wf(),
                forall|j: int| 0 <= j < i ==> self@[j].id != id@,
            decreases self.rolls.len() - i,
        {
            if self.rolls[i].has_id(id) {
                proof {
                    assert(self@[i as int].id == id@);
                    let k = index_of(self@, id@);
                    assert(0 <= k < self@.len() && self@[k].id == id@);
                }
                return Some(i);
            }
            i = i + 1;
        }
        None
    }

    /// Inserts the roll, or replaces the stored roll with the same id.
    pub fn save(&mut self, roll: &FilamentRoll)
        requires
            old(self).wf(),
        ensures
            final(self).wf(),
            final(self)@ == after_save(old(self)@, roll@),
    {
        proof {
            use_type_invariant(roll);
        }
        let key = roll.id().to_owned();
        match self.position(&key) {
            Some(i) => {
                self.rolls.set(i, roll.clone());
                assert(self@ =~= after_save(old(self)@, roll@));
            },
            None => {
                self.rolls.push(roll.clone());
                assert(self@ =~= after_save(old(self)@, roll@));
            },
        }
    }

    /// A copy of the roll with this id, or `NotFound` carrying the id.
    pub fn find_by_id(&self, id: &str) -> (r: Result<FilamentRoll, FilamentError>)
        requires
            self.wf(),
        ensures
            find_result(self@, id@, r),
    {
        let key = id.to_owned();
        match self.position(&key) {
            Some(i) => Ok(self.rolls[i].clone()),
            None => Err(FilamentError::NotFound(key)),
        }
    }

    /// Sets the remaining mass of the roll with this id through the roll's
    /// own rule, and returns a copy of the updated roll.
    pub fn update_remaining_weight(&mut self, id: &str, remaining_weight: i64) -> (r: Result<
        FilamentRoll,
        FilamentError,
    >)
        requires
            old(self).wf(),
        ensures
            final(self).wf(),
            final(self)@ == after_update(old(self)@, id@, remaining_weight as int),
            update_result(old(self)@, id@, remaining_weight as int, r),
    {
        let key = id.to_owned();
        match self.position(&key) {
            None => Err(FilamentError::NotFound(key)),
            Some(i) => {
                let mut roll = self.rolls[i].clone();
                match roll.update_remaining_weight(remaining_weight) {
                    Ok(()) => {
                        proof {
                            use_type_invariant(&roll);
                        }
                        let out = roll.clone();
                        self.rolls.set(i, roll);
                        assert(self@ =~= after_update(old(self)@, id@, remaining_weight as int));
                        Ok(out)
                    },
                    Err(e) => Err(e),
                }
            },
        }
    }

    /// Copies of all stored rolls.
    pub fn find_all(&self) -> (r: Vec<FilamentRoll>)
        ensures
            views(r@) == self@,
    {
        let mut out: Vec<FilamentRoll> = Vec::new();
        let mut i: usize = 0;
        while i < self.rolls.len()
            invariant
                i <= self.rolls.len(),
                out@.len() == i,
                views(out@) == self@.subrange(0, i as int),
            decreases self.rolls.len() - i,
        {
            let copy = self.rolls[i].clone();
            let ghost prev = out@;
            out.push(copy);
            proof {
                assert forall|j: int| 0 <= j < i + 1 implies views(out@)[j] == self@[j] by {
                    if j < i {
                        assert(out@[j] == prev[j]);
                        assert(views(prev)[j] == self@.subrange(0, i as int)[j]);
                    }
                }
            }
            i = i + 1;
            assert(views(out@) =~= self@.subrange(0, i as int));
        }
        assert(self@.subrange(0, self@.len() as int) =~= self@);
        out
    }

    /// Copies of the stored rolls of exactly this material.
    pub fn find_by_material(&self, material: &str) -> (r: Vec<FilamentRoll>)
        ensures
            views(r@) == with_material(self@, material@),
    {
        let key = material.to_owned();
        let mut out: Vec<FilamentRoll> = Vec::new();
        let mut i: usize = 0;
        while i < self.rolls.len()
            invariant
                i <= self.rolls.len(),
                key@ == material@,
                views(out@) == with_material(self@.subrange(0, i as int), material@),
            decreases self.rolls.len() - i,
        {
            proof {
                let pre = self@.subrange(0, i as int);
                let next = self@.subrange(0, i + 1);
                assert(next.drop_last() =~= pre);
                assert(next.last() == self@[i as int]);
                reveal(Seq::filter);
            }
            if self.rolls[i].has_material(&key) {
                out.push(self.rolls[i].clone());
            }
            i = i + 1;
            assert(views(out@) =~= with_material(self@.subrange(0, i as int), material@));
        }
        assert(self@.subrange(0, self@.len() as int) =~= self@);
        out
    }
}

} // verus!
