use vstd::prelude::*;

use crate::error::FilamentError;
use crate::filament::{FilamentRoll, RollView};
use crate::store::{
    after_save,
    after_update,
    consistent,
    find_result,
    update_result,
    views,
    with_material,
};

verus! {

/// Storage for rolls, whatever the backend, described by the rolls it holds.
///
/// The contents are consistent (ids unique, every roll valid): every
/// operation asks it and every change keeps it. A backend may fail with
/// `RepositoryError` when its storage mechanism fails; otherwise every
/// operation does exactly what is stated over the contents.
pub trait FilamentRepository {
    /// The stored rolls, one per id.
    spec fn contents(&self) -> Seq<RollView>;

    /// Stores the roll, replacing any stored roll with the same id.
    fn save(&mut self, filament: &FilamentRoll) -> (r: Result<(), FilamentError>)
        requires
            consistent(old(self).contents()),
        ensures
            consistent(final(self).contents()),
            match r {
                Ok(()) => final(self).contents() == after_save(old(self).contents(), filament@),
                Err(e) => e is RepositoryError,
            },
    ;

    /// A copy of the roll with this id, or `NotFound` carrying the id.
    fn find_by_id(&self, id: &str) -> (r: Result<FilamentRoll, FilamentError>)
        requires
            consistent(self.contents()),
        ensures
            (r matches Err(e) && e is RepositoryError) || find_result(self.contents(), id@, r),
    ;

    /// Sets the remaining mass of the roll with this id, in milligrams, and
    /// returns a copy of the updated roll. `NotFound` when no roll has the
    /// id, `InvalidData` when the mass is below zero or above the full roll;
    /// the contents change only when the update is accepted.
    fn update_remaining_weight(&mut self, id: &str, remaining_weight: i64) -> (r: Result<
        FilamentRoll,
        FilamentError,
    >)
        requires
            consistent(old(self).contents()),
        ensures
            consistent(final(self).contents()),
            (r matches Err(e) && e is RepositoryError) || (update_result(
                old(self).contents(),
                id@,
                remaining_weight as int,
                r,
            ) && final(self).contents() == after_update(
                old(self).contents(),
                id@,
                remaining_weight as int,
            )),
    ;

    /// Copies of all stored rolls.
    fn find_all(&self) -> (r: Result<Vec<FilamentRoll>, FilamentError>)
        requires
            consistent(self.contents()),
        ensures
            match r {
                Ok(v) => views(v@) == self.contents(),
                Err(e) => e is RepositoryError,
            },
    ;

    /// Copies of the stored rolls of exactly this material (case matters).
    fn find_by_material(&self, material: &str) -> (r: Result<Vec<FilamentRoll>, FilamentError>)
        requires
            consistent(self.contents()),
        ensures
            match r {
                Ok(v) => views(v@) == with_material(self.contents(), material@),
                Err(e) => e is RepositoryError,
            },
    ;
}

} // verus!
