use vstd::prelude::*;

use crate::error::FilamentError;
use crate::filament::{FilamentRoll, RollView};
use crate::repository::FilamentRepository;
use crate::store::{
    FilamentStore,
    after_save,
    after_update,
    consistent,
    find_result,
    update_result,
    views,
    with_material,
};

verus! {

/// A repository held in memory. Callers
/// receive copies, so changing a returned roll never changes what is
/// stored. To share it between threads, put it behind one lock.
pub struct InMemoryFilamentRepository {
    store: FilamentStore,
}

impl View for InMemoryFilamentRepository {
    type V = Seq<RollView>;

    closed spec fn view(&self) -> Seq<RollView> {
        self.store@
    }
}

impl InMemoryFilamentRepository {
    /// An empty repository.
    pub fn new() -> (r: Self)
        ensures
            r@ == Seq::<RollView>::empty(),
            consistent(r@),
    {
        InMemoryFilamentRepository { store: FilamentStore::new() }
    }
}

impl Default for InMemoryFilamentRepository {
    fn default() -> (r: Self)
        ensures
            r@ == Seq::<RollView>::empty(),
            consistent(r@),
    {
        InMemoryFilamentRepository::new()
    }
}

impl FilamentRepository for InMemoryFilamentRepository {
    open spec fn contents(&self) -> Seq<RollView> {
        self@
    }

    fn save(&mut self, filament: &FilamentRoll) -> (r: Result<(), FilamentError>)
        ensures
            r is Ok,
            final(self)@ == after_save(old(self)@, filament@),
    {
        self.store.save(filament);
        Ok(())
    }

    fn find_by_id(&self, id: &str) -> (r: Result<FilamentRoll, FilamentError>)
        ensures
            find_result(self@, id@, r),
    {
        self.store.find_by_id(id)
    }

    fn update_remaining_weight(&mut self, id: &str, remaining_weight: i64) -> (r: Result<
        FilamentRoll,
        FilamentError,
    >)
        ensures
            update_result(old(self)@, id@, remaining_weight as int, r),
            final(self)@ == after_update(old(self)@, id@, remaining_weight as int),
    {
        self.store.update_remaining_weight(id, remaining_weight)
    }

    fn find_all(&self) -> (r: Result<Vec<FilamentRoll>, FilamentError>)
        ensures
            r matches Ok(v) && views(v@) == self@,
    {
        Ok(self.store.find_all())
    }

    fn find_by_material(&self, material: &str) -> (r: Result<Vec<FilamentRoll>, FilamentError>)
        ensures
            r matches Ok(v) && views(v@) == with_material(self@, material@),
    {
        Ok(self.store.find_by_material(material))
    }
}

} // verus!
