use vstd::prelude::*;

use crate::error::FilamentError;
use crate::filament::{FilamentRoll, RollView};
use crate::repository::FilamentRepository;
use crate::store::{consistent, views};

verus! {

/// A roll counts as low when less than this percentage of it is left.
pub const LOW_INVENTORY_THRESHOLD: u64 = 20;

/// Less than the threshold percentage of the roll is left.
pub open spec fn is_low(v: RollView) -> bool {
    v.percent_left() < LOW_INVENTORY_THRESHOLD
}

/// The low entries, in their order.
pub open spec fn low_entries(s: Seq<RollView>) -> Seq<RollView> {
    s.filter(|v: RollView| is_low(v))
}

/// Copies of the rolls that are running low, in their order.
pub fn low_inventory(rolls: &Vec<FilamentRoll>) -> (r: Vec<FilamentRoll>)
    ensures
        views(r@) == low_entries(views(rolls@)),
{
    let ghost all = views(rolls@);
    let mut out: Vec<FilamentRoll> = Vec::new();
    let mut i: usize = 0;
    while i < rolls.len()
        invariant
            i <= rolls.len(),
            all == views(rolls@),
            views(out@) == low_entries(all.subrange(0, i as int)),
        decreases rolls.len() - i,
    {
        proof {
            let next = all.subrange(0, i + 1);
            assert(next.drop_last() =~= all.subrange(0, i as int));
            assert(next.last() == rolls@[i as int]@);
            reveal(Seq::filter);
        }
        if rolls[i].percentage_remaining() < LOW_INVENTORY_THRESHOLD {
            out.push(rolls[i].clone());
        }
        i = i + 1;
        assert(views(out@) =~= low_entries(all.subrange(0, i as int)));
    }
    assert(all.subrange(0, all.len() as int) =~= all);
    out
}

/// Questions about the inventory as a whole, asked of any repository.
pub struct FilamentService<'a, R: FilamentRepository> {
    repository: &'a R,
}

impl<'a, R: FilamentRepository> FilamentService<'a, R> {
    /// The rolls held by the repository the service asks.
    pub closed spec fn contents(&self) -> Seq<RollView> {
        self.repository.contents()
    }

    pub fn new(repository: &'a R) -> (r: Self)
        ensures
            r.contents() == repository.contents(),
    {
        FilamentService { repository }
    }

    /// The stored rolls that are running low.
    pub fn get_low_inventory(&self) -> (r: Result<Vec<FilamentRoll>, FilamentError>)
        requires
            consistent(self.contents()),
        ensures
            match r {
                Ok(v) => views(v@) == low_entries(self.contents()),
                Err(e) => e is RepositoryError,
            },
    {
        let all = self.repository.find_all()?;
        let low = low_inventory(&all);
        Ok(low)
    }
}

} // verus!
