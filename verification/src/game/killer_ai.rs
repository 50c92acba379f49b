use vstd::prelude::*;
use crate::game::game_state::GameState;
use crate::game::random::random_below;
use crate::game::round::{on_map, RoundResult, SECTION_COUNT};
use crate::game::section::SUB_SECTION_COUNT;

verus! {

/// An AI version of the killer to be used in testing/single player.
pub struct KillerAI {
    /// List of sections to check.
    sections: Vec<usize>,
}

impl View for KillerAI {
    type V = Seq<usize>;

    /// The sections that the killer still searches, in order.
    closed spec fn view(&self) -> Seq<usize> {
        self.sections@
    }
}

/// The killer's move after a round with result `last`, given the sections
/// `list` still searched and two draws: a place drawn from the list in an
/// ordinary round, a sub-section of the chase's section during a chase, and
/// the first place of the map otherwise.
pub open spec fn killer_move(
    list: Seq<usize>,
    last: RoundResult,
    section_draw: usize,
    sub_draw: usize,
) -> (usize, usize) {
    match last {
        RoundResult::Nothing | RoundResult::Evaded | RoundResult::Wounded => (
            list[section_draw as int],
            sub_draw,
        ),
        RoundResult::ChaseBegins(section) => (section, sub_draw),
        _ => (0, 0),
    }
}

/// The results after which the killer draws a section from its list.
pub open spec fn killer_searches(last: RoundResult) -> bool {
    last == RoundResult::Nothing || last == RoundResult::Evaded || last == RoundResult::Wounded
}

impl KillerAI {
    /// Every section in the list lies on the map.
    pub open spec fn wf(&self) -> bool {
        forall|i: int| 0 <= i < self@.len() ==> self@[i] < SECTION_COUNT
    }

    /// Constructor: the killer starts out searching every section of the map.
    ///
    /// Only argument is the game state the killer will be playing in.
    pub fn new(state: &GameState) -> (r: KillerAI)
        ensures
            r@ == Seq::new(SECTION_COUNT as nat, |i: int| i as usize),
            r.wf(),
    {
        let mut sections: Vec<usize> = Vec::new();
        let mut i: usize = 0;
        while i < state.sections.len()
            invariant
                i <= SECTION_COUNT,
                state.sections@.len() == SECTION_COUNT,
                sections@ == Seq::new(i as nat, |k: int| k as usize),
            decreases SECTION_COUNT - i,
        {
            sections.push(i);
            assert(sections@ =~= Seq::new((i + 1) as nat, |k: int| k as usize));
            i += 1;
        }
        KillerAI { sections }
    }

    /// Takes note of the last round: a section in which a part was found is
    /// searched no more.
    pub fn observe(&mut self, state: &GameState)
        ensures
            final(self)@ == old(self)@.remove_value(state.last_result.1),
            old(self).wf() ==> final(self).wf(),
    {
        let part = state.last_result.1;
        let mut i: usize = 0;
        while i < self.sections.len()
            invariant
                i <= self.sections@.len(),
                self.sections@ == old(self).sections@,
                part == state.last_result.1,
                forall|j: int| 0 <= j < i ==> self.sections@[j] != part,
            decreases self.sections@.len() - i,
        {
            if self.sections[i] == part {
                proof {
                    assert(self.sections@[i as int] == part);
                    assert(self.sections@.contains(part));
                    self.sections@.index_of_first_ensures(part);
                    let first = self.sections@.index_of_first(part);
                    assert(first.unwrap() == i) by {
                        if first.unwrap() < i {
                        } else if first.unwrap() > i {
                        }
                    }
                }
                self.sections.remove(i);
                proof {
                    assert forall|k: int| 0 <= k < self@.len() && old(self).wf() implies self@[k]
                        < SECTION_COUNT by {
                        if k < i {
                            assert(self@[k] == old(self)@[k]);
                        } else {
                            assert(self@[k] == old(self)@[k + 1]);
                        }
                    }
                }
                return ;
            }
            i += 1;
        }
        proof {
            self.sections@.index_of_first_ensures(part);
            if self.sections@.contains(part) {
                let k = self.sections@.index_of(part);
                assert(self.sections@[k] == part);
            }
        }
    }

    /// Whether the killer has a move after the state's last round: in an
    /// ordinary round a section must be left to search once the last round
    /// is taken note of.
    pub open spec fn ready(&self, state: &GameState) -> bool {
        killer_searches(state.last_result.0) ==> self@.remove_value(state.last_result.1).len() > 0
    }

    /// Tests whether the killer has a move after the state's last round.
    pub fn can_play(&self, state: &GameState) -> (r: bool)
        ensures
            r == self.ready(state),
    {
        let searches = match state.last_result.0 {
            RoundResult::Nothing | RoundResult::Evaded | RoundResult::Wounded => true,
            _ => false,
        };
        proof {
            self.sections@.index_of_first_ensures(state.last_result.1);
        }
        if !searches {
            true
        } else if self.sections.len() == 0 {
            false
        } else if self.sections.len() == 1 {
            proof {
                if self.sections@[0] == state.last_result.1 {
                    assert(self.sections@.contains(state.last_result.1));
                }
            }
            self.sections[0] != state.last_result.1
        } else {
            true
        }
    }

    /// The move that the two draws select after the state's last round.
    pub fn decide(&self, state: &GameState, section_draw: usize, sub_draw: usize) -> (r: (
        usize,
        usize,
    ))
        requires
            killer_searches(state.last_result.0) ==> section_draw < self@.len(),
        ensures
            r == killer_move(self@, state.last_result.0, section_draw, sub_draw),
    {
        match state.last_result.0 {
            RoundResult::Nothing | RoundResult::Evaded | RoundResult::Wounded => (
                self.sections[section_draw],
                sub_draw,
            ),
            RoundResult::ChaseBegins(section) => (section, sub_draw),
            _ => (0, 0),
        }
    }

    /// Play a round of the game as the killer.
    ///
    /// The killer first strikes the section of the last part found from its
    /// list. In an ordinary round it then searches a section of the list and
    /// a sub-section of it, both drawn at random; during a chase a random
    /// sub-section of the chase's section; after any other result the first
    /// place of the map.
    pub fn play(&mut self, state: &GameState) -> (r: (usize, usize))
        requires
            old(self).wf(),
            state.wf(),
            old(self).ready(state),
        ensures
            final(self)@ == old(self)@.remove_value(state.last_result.1),
            final(self).wf(),
            on_map(r),
            exists|section_draw: usize, sub_draw: usize|
                {
                    &&& killer_searches(state.last_result.0) ==> section_draw < final(self)@.len()
                    &&& sub_draw < SUB_SECTION_COUNT
                    &&& r == killer_move(
                        final(self)@,
                        state.last_result.0,
                        section_draw,
                        sub_draw,
                    )
                },
            state.last_result.0 is ChaseBegins ==> r.0 == state.last_result.0->ChaseBegins_0,
    {
        self.observe(state);
        match state.last_result.0 {
            RoundResult::Nothing | RoundResult::Evaded | RoundResult::Wounded => {
                let section_draw = random_below(self.sections.len());
                let sub_draw = random_below(SUB_SECTION_COUNT);
                assert(self@[section_draw as int] < SECTION_COUNT);
                self.decide(state, section_draw, sub_draw)
            },
            RoundResult::ChaseBegins(_) => {
                let sub_draw = random_below(SUB_SECTION_COUNT);
                self.decide(state, 0, sub_draw)
            },
            _ => self.decide(state, 0, 0),
        }
    }
}

} // verus!
