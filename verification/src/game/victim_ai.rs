use vstd::prelude::*;
use crate::game::game_state::GameState;
use crate::game::random::random_below;
use crate::game::round::{all_places, on_map, RoundResult, SECTION_COUNT};
use crate::game::section::SUB_SECTION_COUNT;

verus! {

/// An AI version of a victim to be used for testing/single player.
pub struct VictimAI {
    /// List of all unvisited sections and sub-sections.
    unvisited: Vec<(usize, usize)>,
}

impl View for VictimAI {
    type V = Seq<(usize, usize)>;

    /// The places that the victim has not searched yet, in order.
    closed spec fn view(&self) -> Seq<(usize, usize)> {
        self.unvisited@
    }
}

/// The places that lie in `section`.
pub open spec fn in_section(section: usize) -> spec_fn((usize, usize)) -> bool {
    |place: (usize, usize)| place.0 == section
}

impl VictimAI {
    /// Every unvisited place lies on the map.
    pub open spec fn wf(&self) -> bool {
        forall|i: int| 0 <= i < self@.len() ==> on_map(#[trigger] self@[i])
    }

    /// Constructor: the victim starts out with every place of the map
    /// unvisited, sorted by section.
    ///
    /// The only argument is a reference to the game state to play in.
    pub fn new(state: &GameState) -> (r: VictimAI)
        ensures
            r@ == all_places(),
            r.wf(),
    {
        let mut unvisited: Vec<(usize, usize)> = Vec::new();
        let mut i: usize = 0;
        while i < state.sections.len()
            invariant
                i <= SECTION_COUNT,
                state.sections@.len() == SECTION_COUNT,
                unvisited@ == all_places().subrange(0, i * SUB_SECTION_COUNT),
            decreases SECTION_COUNT - i,
        {
            let mut j: usize = 0;
            while j < state.sections[i].sub_sections.len()
                invariant
                    i < SECTION_COUNT,
                    j <= SUB_SECTION_COUNT,
                    state.sections@.len() == SECTION_COUNT,
                    state.sections@[i as int].sub_sections@.len() == SUB_SECTION_COUNT,
                    unvisited@ == all_places().subrange(0, i * SUB_SECTION_COUNT + j),
                decreases SUB_SECTION_COUNT - j,
            {
                unvisited.push((i, j));
                assert(unvisited@ =~= all_places().subrange(0, i * SUB_SECTION_COUNT + j + 1));
                j += 1;
            }
            i += 1;
        }
        assert(unvisited@ =~= all_places());
        VictimAI { unvisited }
    }

    /// The unvisited places that lie in `section`, in order.
    pub fn chase_moves(&self, section: usize) -> (r: Vec<(usize, usize)>)
        ensures
            r@ == self@.filter(in_section(section)),
            forall|k: int|
                0 <= k < r@.len() ==> (#[trigger] r@[k]).0 == section && self@.contains(r@[k]),
    {
        let mut valid_moves: Vec<(usize, usize)> = Vec::new();
        let mut i: usize = 0;
        proof {
            reveal(Seq::filter);
            assert(self.unvisited@.subrange(0, 0) =~= Seq::<(usize, usize)>::empty());
        }
        while i < self.unvisited.len()
            invariant
                i <= self.unvisited@.len(),
                valid_moves@ == self.unvisited@.subrange(0, i as int).filter(in_section(section)),
                forall|k: int|
                    0 <= k < valid_moves@.len() ==> (#[trigger] valid_moves@[k]).0 == section
                        && self.unvisited@.contains(valid_moves@[k]),
            decreases self.unvisited@.len() - i,
        {
            let tup = self.unvisited[i];
            proof {
                reveal(Seq::filter);
                let longer = self.unvisited@.subrange(0, i + 1);
                assert(longer.drop_last() =~= self.unvisited@.subrange(0, i as int));
                assert(longer.last() == tup);
            }
            if tup.0 == section {
                valid_moves.push(tup);
            }
            i += 1;
        }
        assert(self.unvisited@.subrange(0, i as int) =~= self.unvisited@);
        valid_moves
    }

    /// Takes the unvisited place at `index` out of the list.
    pub fn take(&mut self, index: usize) -> (r: (usize, usize))
        requires
            index < old(self)@.len(),
        ensures
            r == old(self)@[index as int],
            final(self)@ == old(self)@.remove(index as int),
            old(self).wf() ==> final(self).wf(),
    {
        self.unvisited.remove(index)
    }

    /// Strikes `place` from the unvisited places, where it is one of them.
    pub fn visit(&mut self, place: (usize, usize))
        ensures
            final(self)@ == old(self)@.remove_value(place),
            old(self).wf() ==> final(self).wf(),
    {
        let mut i: usize = 0;
        while i < self.unvisited.len()
            invariant
                i <= self.unvisited@.len(),
                self.unvisited@ == old(self).unvisited@,
                forall|j: int| 0 <= j < i ==> self.unvisited@[j] != place,
            decreases self.unvisited@.len() - i,
        {
            if self.unvisited[i].0 == place.0 && self.unvisited[i].1 == place.1 {
                proof {
                    assert(self.unvisited@[i as int] == place);
                    assert(self.unvisited@.contains(place));
                    self.unvisited@.index_of_first_ensures(place);
                    let first = self.unvisited@.index_of_first(place);
                    assert(first.unwrap() == i) by {
                        if first.unwrap() < i {
                        } else if first.unwrap() > i {
                        }
                    }
                }
                self.take(i);
                return ;
            }
            i += 1;
        }
        proof {
            self.unvisited@.index_of_first_ensures(place);
            if self.unvisited@.contains(place) {
                let k = self.unvisited@.index_of(place);
                assert(self.unvisited@[k] == place);
            }
        }
    }

    /// Whether the victim has a move after the state's last round: the
    /// match must not be over, and outside a chase a place must be left to
    /// visit.
    pub open spec fn ready(&self, state: &GameState) -> bool {
        &&& !state.last_result.0.terminal()
        &&& !(state.last_result.0 is ChaseBegins) ==> self@.len() > 0
    }

    /// Tests whether the victim has a move after the state's last round.
    pub fn can_play(&self, state: &GameState) -> (r: bool)
        ensures
            r == self.ready(state),
    {
        match state.last_result.0 {
            RoundResult::Caught => false,
            RoundResult::AllPartsFound => false,
            RoundResult::ChaseBegins(_) => true,
            _ => self.unvisited.len() > 0,
        }
    }

    /// Play a round of the game.
    ///
    /// Returns a tuple containing what move the AI decided to take. In an
    /// ordinary round it is an unvisited place drawn at random, which leaves
    /// the list. During a chase it is drawn from the unvisited places of the
    /// chase's section, or, where none is left, from that section's
    /// sub-sections; it leaves the list if it was in it.
    pub fn play(&mut self, state: &mut GameState) -> (r: (usize, usize))
        requires
            old(self).wf(),
            old(state).wf(),
            old(self).ready(old(state)),
        ensures
            *final(state) == *old(state),
            on_map(r),
            final(self).wf(),
            match old(state).last_result.0 {
                RoundResult::ChaseBegins(section) => {
                    &&& r.0 == section
                    &&& old(self)@.filter(in_section(section)).len() > 0 ==> old(self)@.filter(
                        in_section(section),
                    ).contains(r)
                    &&& final(self)@ == old(self)@.remove_value(r)
                },
                _ => exists|i: int|
                    0 <= i < old(self)@.len() && r == old(self)@[i] && final(self)@ == old(
                        self,
                    )@.remove(i),
            },
    {
        match state.last_result.0 {
            RoundResult::ChaseBegins(section) => {
                let mut valid_moves = self.chase_moves(section);
                if valid_moves.len() == 0 {
                    let sub_section = random_below(SUB_SECTION_COUNT);
                    valid_moves.push((section, sub_section));
                }
                let pick = random_below(valid_moves.len());
                let tup = valid_moves[pick];
                proof {
                    if old(self)@.filter(in_section(section)).len() > 0 {
                        assert(old(self)@.filter(in_section(section))[pick as int] == tup);
                        let k = old(self)@.index_of(tup);
                        assert(on_map(old(self)@[k]));
                    }
                }
                self.visit(tup);
                tup
            },
            _ => {
                let tup_ind = random_below(self.unvisited.len());
                let tup = self.take(tup_ind);
                assert(on_map(old(self)@[tup_ind as int]));
                tup
            },
        }
    }

    /// Place a trap in a section drawn at random, and return that section.
    pub fn place_trap(&self, state: &mut GameState) -> (section: usize)
        requires
            old(state).wf(),
        ensures
            section < SECTION_COUNT,
            final(state)@ == old(state)@.with_trap(section as int),
            final(state).same_map(old(state)),
            final(state).wf(),
    {
        let section = random_below(SECTION_COUNT);
        state.place_trap(section);
        section
    }
}

} // verus!
