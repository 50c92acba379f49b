use vstd::prelude::*;
use crate::game::section::SUB_SECTION_COUNT;

verus! {

/// Total number of sections in the game.
pub const SECTION_COUNT: usize = 5;

/// A result of a round in the game.
#[derive(Debug, PartialEq, Eq, Clone, Copy, Structural)]
pub enum RoundResult {
    /// Nothing happens.
    Nothing,
    /// The killer caught the victim.
    Caught,
    /// The killer wounded the victim.
    Wounded,
    /// The victim found all the parts.
    AllPartsFound,
    /// The victim evaded the killer during a chase.
    Evaded,
    /// The victim and killer chose the same section, beginning a chase.
    ///
    /// Includes the index of the section where the chase is going to take place.
    ChaseBegins(usize),
    /// The killer triggered a trap.
    TrapTriggered,
}

impl RoundResult {
    /// A terminal result ends the match: the killer wins with `Caught`, the
    /// victim with `AllPartsFound`.
    pub open spec fn terminal(self) -> bool {
        self == RoundResult::Caught || self == RoundResult::AllPartsFound
    }

    /// Whether the result ends the match.
    pub fn is_terminal(&self) -> (r: bool)
        ensures
            r == self.terminal(),
    {
        match self {
            RoundResult::Caught => true,
            RoundResult::AllPartsFound => true,
            _ => false,
        }
    }
}

/// A move lies on the map when both of its indices do.
pub open spec fn on_map(m: (usize, usize)) -> bool {
    m.0 < SECTION_COUNT && m.1 < SUB_SECTION_COUNT
}

/// Every place of the map, section by section.
pub open spec fn all_places() -> Seq<(usize, usize)> {
    Seq::new(
        (SECTION_COUNT * SUB_SECTION_COUNT) as nat,
        |n: int| ((n / SUB_SECTION_COUNT as int) as usize, (n % SUB_SECTION_COUNT as int) as usize),
    )
}

/// One spot in each section, in the order of the sections.
pub open spec fn one_per_section(spots: Seq<(int, int)>) -> bool {
    &&& spots.len() == SECTION_COUNT
    &&& forall|s: int|
        0 <= s < SECTION_COUNT ==> (#[trigger] spots[s]).0 == s && 0 <= spots[s].1
            < SUB_SECTION_COUNT
}

/// What a match is, apart from the names and letters of its map.
pub struct MatchView {
    /// The (section, sub-section) pairs that hold a part.
    pub parts: Set<(int, int)>,
    /// The sections that are trapped.
    pub traps: Set<int>,
    /// How many parts the victim has yet to find.
    pub remaining: nat,
    /// Whether the victim has been wounded.
    pub wounded: bool,
    /// The result of the last round, and the section in which a part was
    /// found during it (`SECTION_COUNT` if none was).
    pub last_result: (RoundResult, usize),
}

impl MatchView {
    /// Every part lies on the map and is counted, and the last result names
    /// sections of the map.
    pub open spec fn wf(self) -> bool {
        &&& self.parts.finite()
        &&& self.parts.len() <= self.remaining
        &&& forall|p: (int, int)| #[trigger]
            self.parts.contains(p) ==> 0 <= p.0 < SECTION_COUNT && 0 <= p.1 < SUB_SECTION_COUNT
        &&& forall|s: int| #[trigger] self.traps.contains(s) ==> 0 <= s < SECTION_COUNT
        &&& self.last_result.1 <= SECTION_COUNT
        &&& match self.last_result.0 {
            RoundResult::ChaseBegins(s) => s < SECTION_COUNT,
            _ => true,
        }
    }

    /// Whether the last round began a chase.
    pub open spec fn chased(self) -> bool {
        self.last_result.0 is ChaseBegins
    }

    /// During the round after a chase began, both players must stay in the
    /// section of the chase.
    pub open spec fn chase_allows(self, victim: (usize, usize), killer: (usize, usize)) -> bool {
        match self.last_result.0 {
            RoundResult::ChaseBegins(s) => victim.0 == s && killer.0 == s,
            _ => true,
        }
    }

    /// The pairs of moves that a round accepts.
    pub open spec fn legal(self, victim: (usize, usize), killer: (usize, usize)) -> bool {
        on_map(victim) && on_map(killer) && self.chase_allows(victim, killer)
    }

    /// Whether some sub-section of `section` holds a part.
    pub open spec fn holds_part_in(self, section: int) -> bool {
        exists|b: int| 0 <= b < SUB_SECTION_COUNT && self.parts.contains((section, b))
    }

    /// Whether the victim's move uncovers a part.
    pub open spec fn finds_part(self, victim: (usize, usize)) -> bool {
        self.parts.contains((victim.0 as int, victim.1 as int))
    }

    /// The number of parts left once the victim has searched.
    pub open spec fn remaining_after(self, victim: (usize, usize)) -> nat {
        if self.finds_part(victim) && self.remaining > 0 {
            (self.remaining - 1) as nat
        } else {
            self.remaining
        }
    }

    /// The section reported with a round's result: the victim's, if a part
    /// was found there, and `SECTION_COUNT` otherwise.
    pub open spec fn found_section(self, victim: (usize, usize)) -> usize {
        if self.finds_part(victim) {
            victim.0
        } else {
            SECTION_COUNT
        }
    }

    /// The result of a round, by the first rule that applies.
    pub open spec fn outcome(self, victim: (usize, usize), killer: (usize, usize)) -> RoundResult {
        let all_found = self.remaining_after(victim) == 0;
        if self.traps.contains(killer.0 as int) && !all_found {
            RoundResult::TrapTriggered
        } else if victim == killer && self.wounded {
            RoundResult::Caught
        } else if all_found {
            RoundResult::AllPartsFound
        } else if victim == killer {
            RoundResult::Wounded
        } else if self.chased() {
            RoundResult::Evaded
        } else if victim.0 == killer.0 {
            RoundResult::ChaseBegins(victim.0)
        } else {
            RoundResult::Nothing
        }
    }

    /// The match after a round with a legal pair of moves.
    pub open spec fn after(self, victim: (usize, usize), killer: (usize, usize)) -> MatchView {
        let result = self.outcome(victim, killer);
        MatchView {
            parts: self.parts.remove((victim.0 as int, victim.1 as int)),
            traps: if result == RoundResult::TrapTriggered {
                self.traps.remove(killer.0 as int)
            } else {
                self.traps
            },
            remaining: self.remaining_after(victim),
            wounded: self.wounded || result == RoundResult::Wounded,
            last_result: (result, self.found_section(victim)),
        }
    }

    /// The match with one more part hidden at (`section`, `sub_section`).
    pub open spec fn with_part(self, section: int, sub_section: int) -> MatchView {
        MatchView {
            parts: self.parts.insert((section, sub_section)),
            remaining: self.remaining + 1,
            ..self
        }
    }

    /// The match with a trap placed in `section`.
    pub open spec fn with_trap(self, section: int) -> MatchView {
        MatchView { traps: self.traps.insert(section), ..self }
    }

    /// The match with a part hidden at each of `spots` in turn.
    pub open spec fn with_parts(self, spots: Seq<(int, int)>) -> MatchView
        decreases spots.len(),
    {
        if spots.len() == 0 {
            self
        } else {
            self.with_parts(spots.drop_last()).with_part(spots.last().0, spots.last().1)
        }
    }
}

impl MatchView {
    /// Hiding parts at `spots` adds exactly those places to the parts,
    /// raises the number of parts left by the number of spots, and changes
    /// nothing else.
    pub proof fn lemma_with_parts(self, spots: Seq<(int, int)>)
        ensures
            forall|p: (int, int)|
                #![trigger self.with_parts(spots).parts.contains(p)]
                self.with_parts(spots).parts.contains(p) <==> self.parts.contains(p)
                    || spots.contains(p),
            self.with_parts(spots).remaining == self.remaining + spots.len(),
            self.with_parts(spots).traps == self.traps,
            self.with_parts(spots).wounded == self.wounded,
            self.with_parts(spots).last_result == self.last_result,
        decreases spots.len(),
    {
        if spots.len() > 0 {
            let front = spots.drop_last();
            self.lemma_with_parts(front);
            assert forall|p: (int, int)|
                #![trigger self.with_parts(spots).parts.contains(p)]
                self.with_parts(spots).parts.contains(p) <==> self.parts.contains(p)
                    || spots.contains(p) by {
                assert(self.with_parts(front).parts.contains(p) <==> self.parts.contains(p)
                    || front.contains(p));
                if front.contains(p) {
                    let k = front.index_of(p);
                    assert(spots[k] == p);
                }
                if spots.contains(p) {
                    let k = spots.index_of(p);
                    if k < front.len() {
                        assert(front[k] == p);
                    } else {
                        assert(p == spots.last());
                    }
                }
                assert(spots.contains(spots.last())) by {
                    assert(spots[spots.len() - 1] == spots.last());
                }
            }
        } else {
            assert forall|p: (int, int)|
                #![trigger self.with_parts(spots).parts.contains(p)]
                self.with_parts(spots).parts.contains(p) <==> self.parts.contains(p)
                    || spots.contains(p) by {
                if spots.contains(p) {
                    let k = spots.index_of(p);
                    assert(0 <= k < spots.len());
                }
            }
        }
    }

    /// A match set up on an empty map with one spot per section holds
    /// exactly one part in each section, and counts exactly the parts that
    /// it holds: as many as there are sections.
    pub proof fn lemma_fresh_match(self, spots: Seq<(int, int)>)
        requires
            self.wf(),
            self.parts == Set::<(int, int)>::empty(),
            self.remaining == 0,
            one_per_section(spots),
        ensures
            self.with_parts(spots).wf(),
            self.with_parts(spots).remaining == SECTION_COUNT,
            self.with_parts(spots).parts.len() == SECTION_COUNT,
            forall|s: int, b: int|
                #![trigger self.with_parts(spots).parts.contains((s, b))]
                self.with_parts(spots).parts.contains((s, b)) <==> 0 <= s < SECTION_COUNT && b
                    == spots[s].1,
    {
        let m = self.with_parts(spots);
        self.lemma_with_parts(spots);
        assert forall|s: int, b: int|
            #![trigger m.parts.contains((s, b))]
            m.parts.contains((s, b)) <==> 0 <= s < SECTION_COUNT && b == spots[s].1 by {
            if spots.contains((s, b)) {
                let k = spots.index_of((s, b));
                assert(spots[k].0 == k);
            }
            if 0 <= s < SECTION_COUNT && b == spots[s].1 {
                assert(spots[s] == (s, b));
                assert(spots.contains((s, b)));
            }
        }
        let s1 = Set::<(int, int)>::empty().insert(spots[0]);
        let s2 = s1.insert(spots[1]);
        let s3 = s2.insert(spots[2]);
        let s4 = s3.insert(spots[3]);
        let s5 = s4.insert(spots[4]);
        assert(s1.len() == 1);
        assert(s2.len() == 2);
        assert(s3.len() == 3);
        assert(s4.len() == 4);
        assert(s5.len() == 5);
        assert(m.parts =~= s5) by {
            assert forall|p: (int, int)| m.parts.contains(p) implies s5.contains(p) by {
                assert(m.parts.contains((p.0, p.1)));
            }
            assert forall|p: (int, int)| s5.contains(p) implies m.parts.contains(p) by {
                assert(spots.contains(spots[0]) && spots.contains(spots[1]) && spots.contains(
                    spots[2],
                ) && spots.contains(spots[3]) && spots.contains(spots[4]));
            }
        }
    }

    /// A round keeps the match well formed, never adds a part or a trap, and
    /// never raises the number of parts left.
    pub proof fn lemma_round_preserves(self, victim: (usize, usize), killer: (usize, usize))
        requires
            self.wf(),
            self.legal(victim, killer),
        ensures
            self.after(victim, killer).wf(),
            self.after(victim, killer).remaining <= self.remaining,
            self.after(victim, killer).parts.subset_of(self.parts),
            self.after(victim, killer).traps.subset_of(self.traps),
            self.wounded ==> self.after(victim, killer).wounded,
    {
        let spot = (victim.0 as int, victim.1 as int);
        if self.parts.contains(spot) {
            assert(self.parts.len() > 0);
        }
    }

    /// While no trap lies in the killer's section and a part is still left
    /// after the victim's search, a round ends in exactly one of `Nothing`,
    /// `Wounded`, `Caught`, `Evaded` and `ChaseBegins`; the victim does not
    /// win, and the match ends only where a wounded victim is met.
    pub proof fn lemma_outcome_without_trap(self, victim: (usize, usize), killer: (usize, usize))
        requires
            self.wf(),
            self.legal(victim, killer),
            !self.traps.contains(killer.0 as int),
            self.remaining_after(victim) > 0,
        ensures
            ({
                let result = self.outcome(victim, killer);
                &&& result == RoundResult::Nothing || result == RoundResult::Wounded || result
                    == RoundResult::Caught || result == RoundResult::Evaded || result
                    == RoundResult::ChaseBegins(victim.0)
                &&& result != RoundResult::AllPartsFound
                &&& result != RoundResult::TrapTriggered
                &&& result.terminal() <==> victim == killer && self.wounded
                &&& result == RoundResult::Wounded <==> victim == killer && !self.wounded
                &&& result == RoundResult::Evaded <==> victim != killer && self.chased()
                &&& result == RoundResult::ChaseBegins(victim.0) <==> victim != killer
                    && !self.chased() && victim.0 == killer.0
                &&& result == RoundResult::Nothing <==> victim.0 != killer.0 && !self.chased()
            }),
    {
    }

    /// After a chase began in a section, a pair of moves of which either
    /// leaves that section is not legal.
    pub proof fn lemma_chase_lock(self, section: usize, victim: (usize, usize), killer: (usize, usize))
        requires
            self.last_result.0 == RoundResult::ChaseBegins(section),
            victim.0 != section || killer.0 != section,
        ensures
            !self.legal(victim, killer),
    {
    }

    /// A chase confines the players for one round only: the round after a
    /// chase began does not begin another, so that the round after it
    /// accepts every pair of moves on the map.
    pub proof fn lemma_chase_lasts_one_round(
        self,
        victim: (usize, usize),
        killer: (usize, usize),
        next_victim: (usize, usize),
        next_killer: (usize, usize),
    )
        requires
            self.wf(),
            self.chased(),
            self.legal(victim, killer),
            on_map(next_victim),
            on_map(next_killer),
        ensures
            !self.after(victim, killer).chased(),
            self.after(victim, killer).legal(next_victim, next_killer),
    {
    }

    /// A trap in the killer's section is triggered whenever a part is still
    /// left after the victim's search, wherever the two players stand: the
    /// result is `TrapTriggered`, that trap is gone, every other trap stays,
    /// and the victim is not wounded by the round.
    pub proof fn lemma_trap_precedence(self, victim: (usize, usize), killer: (usize, usize))
        requires
            self.wf(),
            self.legal(victim, killer),
            self.traps.contains(killer.0 as int),
            self.remaining_after(victim) > 0,
        ensures
            self.outcome(victim, killer) == RoundResult::TrapTriggered,
            !self.after(victim, killer).traps.contains(killer.0 as int),
            forall|s: int|
                s != killer.0 ==> self.after(victim, killer).traps.contains(s)
                    == self.traps.contains(s),
            self.after(victim, killer).wounded == self.wounded,
    {
    }

    /// Once no part is left after the victim's search, the result is
    /// `AllPartsFound`, also where the killer's section is trapped or the
    /// killer stands where the victim does, unless the victim met there was
    /// wounded before; no trap is spent by such a round.
    pub proof fn lemma_win_precedence(self, victim: (usize, usize), killer: (usize, usize))
        requires
            self.wf(),
            self.legal(victim, killer),
            self.remaining_after(victim) == 0,
            !(victim == killer && self.wounded),
        ensures
            self.outcome(victim, killer) == RoundResult::AllPartsFound,
            self.after(victim, killer).traps == self.traps,
            self.after(victim, killer).wounded == self.wounded,
    {
    }

    /// A wounded victim met by the killer is caught, whatever else holds of
    /// the round, unless a trap is triggered.
    pub proof fn lemma_caught(self, place: (usize, usize))
        requires
            self.wf(),
            self.legal(place, place),
            self.wounded,
            !self.traps.contains(place.0 as int) || self.remaining_after(place) == 0,
        ensures
            self.outcome(place, place) == RoundResult::Caught,
    {
    }

    /// Two rounds in a row in which both players choose the same place, in
    /// a section without a trap, with an unwounded victim and a part still
    /// left, end in `Wounded` and then in `Caught`.
    pub proof fn lemma_wound_then_catch(self, place: (usize, usize))
        requires
            self.wf(),
            self.legal(place, place),
            !self.traps.contains(place.0 as int),
            !self.wounded,
            self.remaining_after(place) > 0,
        ensures
            self.outcome(place, place) == RoundResult::Wounded,
            self.after(place, place).legal(place, place),
            self.after(place, place).outcome(place, place) == RoundResult::Caught,
    {
    }
}

} // verus!
