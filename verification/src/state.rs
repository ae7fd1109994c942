//! The state of the service as one owned value.

use crate::coach::Coach;
use crate::counter::IdCounter;
use crate::fixture::Match;
use crate::model::StateView;
use crate::stable::{regions_get, regions_new};
use crate::stadium::Stadium;
use crate::store::EntityStore;
use crate::team::Team;
use vstd::prelude::*;

verus! {

/// The counter and the four stores. There are no ambient globals: whoever
/// owns a `State` owns the whole service, and two states share nothing.
///
/// The five structures live in five regions of one memory manager, so that
/// in a canister they can share its stable memory.
pub struct State {
    pub(crate) counter: IdCounter,
    pub(crate) teams: EntityStore<Team>,
    pub(crate) coaches: EntityStore<Coach>,
    pub(crate) stadiums: EntityStore<Stadium>,
    pub(crate) matches: EntityStore<Match>,
}

impl View for State {
    type V = StateView;

    open(crate) spec fn view(&self) -> StateView {
        StateView {
            last_id: self.counter@,
            teams: self.teams@,
            coaches: self.coaches@,
            stadiums: self.stadiums@,
            matches: self.matches@,
        }
    }
}

impl State {
    /// Every table holds only rows of its own kind.
    pub open(crate) spec fn stores_wf(&self) -> bool {
        self.teams.wf() && self.coaches.wf() && self.stadiums.wf() && self.matches.wf()
    }

    /// The state is one that the operations can work on. Every state that
    /// this library hands out is, and every operation keeps it so.
    pub open spec fn wf(&self) -> bool {
        self.stores_wf() && self@.wf()
    }

    /// A state without records whose first identifier will be 1.
    pub fn new() -> (state: Self)
        ensures
            state.wf(),
            state@ == StateView::empty(0),
    {
        State::starting_after(0)
    }

    /// A state without records whose first identifier will be `last_id + 1`.
    pub fn starting_after(last_id: u64) -> (state: Self)
        ensures
            state.wf(),
            state@ == StateView::empty(last_id),
    {
        let regions = regions_new();
        let counter = IdCounter::in_region(regions_get(&regions, 0), last_id);
        let teams = EntityStore::in_region(regions_get(&regions, 1));
        let coaches = EntityStore::in_region(regions_get(&regions, 2));
        let stadiums = EntityStore::in_region(regions_get(&regions, 3));
        let matches = EntityStore::in_region(regions_get(&regions, 4));
        State { counter, teams, coaches, stadiums, matches }
    }

    /// The identifier issued last.
    pub fn last_id(&self) -> (id: u64)
        ensures
            id == self@.last_id,
    {
        self.counter.last_id()
    }
}

} // verus!
