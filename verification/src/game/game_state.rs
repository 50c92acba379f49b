use vstd::prelude::*;
use crate::game::identifier::{ascii_capital, letters_match, same_letter};
use crate::game::random::random_below;
use crate::game::round::{one_per_section, MatchView, RoundResult, SECTION_COUNT};
use crate::game::section::{distinct_letters, Section, SUB_SECTION_COUNT};
use crate::game::sub_section::SubSection;

verus! {

/// Structure describing the current state of the game.
pub struct GameState {
    /// Sections within the game.
    pub sections: [Section; SECTION_COUNT],
    /// Result of the last round played. Also contains the index
    /// of the section the car part was found at. If no part was
    /// found, it will be equal to `SECTION_COUNT`.
    pub last_result: (RoundResult, usize),
    /// Total number of hidden parts.
    pub part_count: usize,
    /// Flag indicating the victim is wounded.
    pub victim_is_wounded: bool,
}

/// Types of errors to occur during play.
#[derive(Debug, PartialEq, Eq, Clone, Copy, Structural)]
pub enum PlayError {
    /// A move names a place off the map, or leaves the section of a chase.
    OutOfBounds,
}

/// Result type of playing a round of the game.
///
/// Contains the round result and the index of the section containing the car part if found.
///
/// If a car part was not found, the index will equal `SECTION_COUNT`.
pub type PlayResult = Result<(RoundResult, usize), PlayError>;

impl View for GameState {
    type V = MatchView;

    open spec fn view(&self) -> MatchView {
        MatchView {
            parts: Set::new(
                |p: (int, int)|
                    0 <= p.0 < SECTION_COUNT && 0 <= p.1 < SUB_SECTION_COUNT
                        && self.sections@[p.0].sub_sections@[p.1].part,
            ),
            traps: Set::new(|s: int| 0 <= s < SECTION_COUNT && self.sections@[s].trapped),
            remaining: self.part_count as nat,
            wounded: self.victim_is_wounded,
            last_result: self.last_result,
        }
    }
}

/// Whether the letter at `i` is the first of `letters` that is the same
/// identifier as `id`.
pub open spec fn first_match(letters: Seq<char>, id: char, i: int) -> bool {
    &&& 0 <= i < letters.len()
    &&& same_letter(letters[i], id)
    &&& forall|t: int| 0 <= t < i ==> !same_letter(letters[t], id)
}

/// Whether none of `letters` is the same identifier as `id`.
pub open spec fn no_match(letters: Seq<char>, id: char) -> bool {
    forall|t: int| 0 <= t < letters.len() ==> !same_letter(letters[t], id)
}

/// The letters of the sections of the map, in order.
pub open spec fn section_letters() -> Seq<char> {
    seq!['C', 'L', 'A', 'B', 'O']
}

/// The letters of the sub-sections of each section of the map, in order.
pub open spec fn sub_section_letters() -> Seq<Seq<char>> {
    seq![
        seq!['B', 'K', 'T', 'C', 'A'],
        seq!['D', 'B', 'E', 'W', 'S'],
        seq!['M', 'D', 'B', 'K', 'F'],
        seq!['S', 'C', 'L', 'T', 'B'],
        seq!['P', 'C', 'S', 'F', 'H'],
    ]
}

/// The names of the sections of the map, in order.
pub open spec fn section_names() -> Seq<Seq<char>> {
    seq![
        "(C)abin"@,
        "(L)ake Misty"@,
        "(A)bandoned manor"@,
        "(B)onfire"@,
        "(O)ld forest"@,
    ]
}

/// The names of the sub-sections of each section of the map, in order.
pub open spec fn sub_section_names() -> Seq<Seq<Seq<char>>> {
    seq![
        seq!["(B)edroom"@, "(K)itchen"@, "(T)oilet"@, "(C)loset"@, "(A)ttic"@],
        seq!["(D)ock"@, "(B)oat"@, "(E)ast shore"@, "(W)est shore"@, "(S)outh shore"@],
        seq![
            "(M)aster bedroom"@,
            "(D)ining hall"@,
            "(B)asement"@,
            "(K)itchen"@,
            "(F)ourier"@,
        ],
        seq!["(S)hrubs"@, "(C)ouch"@, "(L)ogs"@, "(T)rees"@, "(B)lankets"@],
        seq!["(P)ond"@, "(C)ave"@, "(S)hrine"@, "(F)airy circle"@, "(H)ollow log"@],
    ]
}

/// A sub-section of the map, without a part.
fn spot(name: &str, letter: char) -> (r: SubSection)
    requires
        ascii_capital(letter),
    ensures
        r.name@ == name@,
        r.letter == letter,
        !r.part,
{
    SubSection::try_new(name.to_owned(), letter, false).unwrap()
}

/// A section of the map, without a trap.
fn area(name: &str, letter: char, spots: [SubSection; SUB_SECTION_COUNT]) -> (r: Section)
    requires
        ascii_capital(letter),
        distinct_letters(spots@),
    ensures
        r.name@ == name@,
        r.letter == letter,
        r.sub_sections == spots,
        !r.trapped,
{
    Section::try_new(name.to_owned(), letter, spots).unwrap()
}

impl GameState {
    /// The state keeps count of every hidden part, and its last result names
    /// sections of the map.
    pub open spec fn wf(&self) -> bool {
        self@.wf()
    }

    /// Tests whether the state is well formed.
    pub fn is_wf(&self) -> (r: bool)
        ensures
            r == self.wf(),
    {
        let mut count: usize = 0;
        let ghost mut seen: Set<(int, int)> = Set::empty();
        let mut n: usize = 0;
        while n < SECTION_COUNT * SUB_SECTION_COUNT
            invariant
                n <= SECTION_COUNT * SUB_SECTION_COUNT,
                count <= n,
                seen.finite(),
                seen.len() == count,
                forall|p: (int, int)|
                    seen.contains(p) <==> self@.parts.contains(p) && p.0 * SUB_SECTION_COUNT + p.1
                        < n,
            decreases SECTION_COUNT * SUB_SECTION_COUNT - n,
        {
            let i = n / SUB_SECTION_COUNT;
            let j = n % SUB_SECTION_COUNT;
            if self.sections[i].sub_sections[j].part {
                proof {
                    assert(self@.parts.contains((i as int, j as int)));
                    seen = seen.insert((i as int, j as int));
                }
                count += 1;
            }
            n += 1;
        }
        assert(seen =~= self@.parts);
        let chase_on_map = match self.last_result.0 {
            RoundResult::ChaseBegins(section) => section < SECTION_COUNT,
            _ => true,
        };
        count <= self.part_count && self.last_result.1 <= SECTION_COUNT && chase_on_map
    }

    /// Both states have the same names and letters at every place of the map.
    pub open spec fn same_map(&self, other: &GameState) -> bool {
        forall|s: int|
            0 <= s < SECTION_COUNT ==> {
                &&& (#[trigger] self.sections@[s]).name == other.sections@[s].name
                &&& self.sections@[s].letter == other.sections@[s].letter
                &&& forall|b: int|
                    0 <= b < SUB_SECTION_COUNT ==> {
                        &&& (#[trigger] self.sections@[s].sub_sections@[b]).name
                            == other.sections@[s].sub_sections@[b].name
                        &&& self.sections@[s].sub_sections@[b].letter
                            == other.sections@[s].sub_sections@[b].letter
                    }
            }
    }

    /// Constructor: the map of the camp, with no part hidden, no trap set and
    /// no round played.
    pub fn new() -> (r: GameState)
        ensures
            r.wf(),
            r@.parts == Set::<(int, int)>::empty(),
            r@.traps == Set::<int>::empty(),
            r@.remaining == 0,
            !r@.wounded,
            r@.last_result == (RoundResult::Nothing, SECTION_COUNT),
            forall|s: int|
                0 <= s < SECTION_COUNT ==> (#[trigger] r.sections@[s]).letter == section_letters()[s],
            forall|s: int, b: int|
                0 <= s < SECTION_COUNT && 0 <= b < SUB_SECTION_COUNT ==> (
                #[trigger] r.sections@[s].sub_sections@[b]).letter == sub_section_letters()[s][b],
            forall|s: int|
                0 <= s < SECTION_COUNT ==> (#[trigger] r.sections@[s]).name@ == section_names()[s],
            forall|s: int, b: int|
                0 <= s < SECTION_COUNT && 0 <= b < SUB_SECTION_COUNT ==> (
                #[trigger] r.sections@[s].sub_sections@[b]).name@ == sub_section_names()[s][b],
            forall|s: int|
                0 <= s < SECTION_COUNT ==> distinct_letters(
                    (#[trigger] r.sections@[s]).sub_sections@,
                ),
            forall|s: int, t: int|
                0 <= s < t < SECTION_COUNT ==> !same_letter(
                    r.sections@[s].letter,
                    r.sections@[t].letter,
                ),
    {
        let cabin = area(
            "(C)abin",
            'C',
            [
                spot("(B)edroom", 'B'),
                spot("(K)itchen", 'K'),
                spot("(T)oilet", 'T'),
                spot("(C)loset", 'C'),
                spot("(A)ttic", 'A'),
            ],
        );
        let lake_misty = area(
            "(L)ake Misty",
            'L',
            [
                spot("(D)ock", 'D'),
                spot("(B)oat", 'B'),
                spot("(E)ast shore", 'E'),
                spot("(W)est shore", 'W'),
                spot("(S)outh shore", 'S'),
            ],
        );
        let abandoned_manor = area(
            "(A)bandoned manor",
            'A',
            [
                spot("(M)aster bedroom", 'M'),
                spot("(D)ining hall", 'D'),
                spot("(B)asement", 'B'),
                spot("(K)itchen", 'K'),
                spot("(F)ourier", 'F'),
            ],
        );
        let bonfire = area(
            "(B)onfire",
            'B',
            [
                spot("(S)hrubs", 'S'),
                spot("(C)ouch", 'C'),
                spot("(L)ogs", 'L'),
                spot("(T)rees", 'T'),
                spot("(B)lankets", 'B'),
            ],
        );
        let old_forest = area(
            "(O)ld forest",
            'O',
            [
                spot("(P)ond", 'P'),
                spot("(C)ave", 'C'),
                spot("(S)hrine", 'S'),
                spot("(F)airy circle", 'F'),
                spot("(H)ollow log", 'H'),
            ],
        );
        let state = GameState {
            sections: [cabin, lake_misty, abandoned_manor, bonfire, old_forest],
            last_result: (RoundResult::Nothing, SECTION_COUNT),
            part_count: 0,
            victim_is_wounded: false,
        };
        proof {
            assert(state@.parts =~= Set::<(int, int)>::empty());
            assert(state@.traps =~= Set::<int>::empty());
        }
        state
    }

    /// Generate random game state: one more part in each section, in a
    /// sub-section drawn at random.
    pub fn gen_state(&mut self)
        requires
            old(self).wf(),
            old(self).part_count <= usize::MAX - SECTION_COUNT,
        ensures
            exists|spots: Seq<(int, int)>|
                one_per_section(spots) && final(self)@ == old(self)@.with_parts(spots),
            final(self).part_count == old(self).part_count + SECTION_COUNT,
            forall|s: int| 0 <= s < SECTION_COUNT ==> #[trigger] final(self)@.holds_part_in(s),
            old(self)@.parts.subset_of(final(self)@.parts),
            final(self)@.traps == old(self)@.traps,
            final(self).victim_is_wounded == old(self).victim_is_wounded,
            final(self).last_result == old(self).last_result,
            final(self).same_map(old(self)),
            final(self).wf(),
    {
        let ghost mut spots: Seq<(int, int)> = Seq::empty();
        let mut i: usize = 0;
        while i < SECTION_COUNT
            invariant
                i <= SECTION_COUNT,
                spots.len() == i,
                forall|s: int|
                    0 <= s < i ==> (#[trigger] spots[s]).0 == s && 0 <= spots[s].1
                        < SUB_SECTION_COUNT,
                self@ == old(self)@.with_parts(spots),
                self.part_count == old(self).part_count + i,
                old(self).part_count <= usize::MAX - SECTION_COUNT,
                self.same_map(old(self)),
                self.wf(),
            decreases SECTION_COUNT - i,
        {
            let rand_ind = random_below(SUB_SECTION_COUNT);
            self.hide_part(i, rand_ind);
            proof {
                let longer = spots.push((i as int, rand_ind as int));
                assert(longer.drop_last() =~= spots);
                spots = longer;
            }
            i += 1;
        }
        assert(one_per_section(spots) && self@ == old(self)@.with_parts(spots));
        proof {
            old(self)@.lemma_with_parts(spots);
            assert forall|p: (int, int)| old(self)@.parts.contains(p) implies self@.parts.contains(
                p,
            ) by {
                assert(old(self)@.with_parts(spots).parts.contains(p));
            }
            assert forall|s: int| 0 <= s < SECTION_COUNT implies #[trigger] self@.holds_part_in(
                s,
            ) by {
                assert(spots.contains(spots[s]));
                assert(old(self)@.with_parts(spots).parts.contains(spots[s]));
                assert(self@.parts.contains((s, spots[s].1)));
            }
        }
    }

    /// Hide a car part in a sub-section by index, and count it.
    pub fn hide_part(&mut self, section: usize, sub_section: usize)
        requires
            old(self).wf(),
            section < SECTION_COUNT,
            sub_section < SUB_SECTION_COUNT,
            old(self).part_count < usize::MAX,
        ensures
            final(self)@ == old(self)@.with_part(section as int, sub_section as int),
            final(self).same_map(old(self)),
            final(self).wf(),
    {
        self.sections[section].sub_sections[sub_section].part = true;
        self.part_count += 1;
        proof {
            assert(self@.parts =~= old(self)@.parts.insert((section as int, sub_section as int)));
            assert(self@.traps =~= old(self)@.traps);
        }
    }

    /// Place a trap in a section.
    pub fn place_trap(&mut self, section: usize)
        requires
            old(self).wf(),
            section < SECTION_COUNT,
        ensures
            final(self)@ == old(self)@.with_trap(section as int),
            final(self).same_map(old(self)),
            final(self).wf(),
    {
        self.sections[section].trapped = true;
        proof {
            assert(self@.parts =~= old(self)@.parts);
            assert(self@.traps =~= old(self)@.traps.insert(section as int));
        }
    }

    /// Determine if any section of the map is trapped.
    pub fn trap_exists(&self) -> (r: bool)
        ensures
            r == exists|s: int| self@.traps.contains(s),
    {
        let mut i: usize = 0;
        while i < SECTION_COUNT
            invariant
                i <= SECTION_COUNT,
                forall|s: int| 0 <= s < i ==> !self@.traps.contains(s),
            decreases SECTION_COUNT - i,
        {
            if self.sections[i].trapped {
                assert(self@.traps.contains(i as int));
                return true;
            }
            i += 1;
        }
        false
    }

    /// The section to which a chase begun in the last round confines both
    /// players, if there is one.
    pub fn chase_section(&self) -> (r: Option<usize>)
        ensures
            r == match self.last_result.0 {
                RoundResult::ChaseBegins(section) => Some(section),
                _ => None::<usize>,
            },
    {
        match self.last_result.0 {
            RoundResult::ChaseBegins(section) => Some(section),
            _ => None,
        }
    }

    /// The letters of the sections, in order: the choices that a player has
    /// when asked for a section.
    pub fn section_choices(&self) -> (r: Vec<char>)
        ensures
            r@ == self.letters(),
    {
        let mut letters: Vec<char> = Vec::new();
        let mut i: usize = 0;
        while i < SECTION_COUNT
            invariant
                i <= SECTION_COUNT,
                letters@ == Seq::new(i as nat, |s: int| self.sections@[s].letter),
            decreases SECTION_COUNT - i,
        {
            letters.push(self.sections[i].letter);
            assert(letters@ =~= Seq::new((i + 1) as nat, |s: int| self.sections@[s].letter));
            i += 1;
        }
        letters
    }

    /// The letters of the sub-sections of a section, in order: the choices
    /// that a player has when asked for a sub-section of it.
    pub fn sub_section_choices(&self, section: usize) -> (r: Vec<char>)
        requires
            section < SECTION_COUNT,
        ensures
            r@ == self.sub_letters(section as int),
    {
        let mut letters: Vec<char> = Vec::new();
        let mut j: usize = 0;
        while j < SUB_SECTION_COUNT
            invariant
                section < SECTION_COUNT,
                j <= SUB_SECTION_COUNT,
                letters@ == Seq::new(
                    j as nat,
                    |b: int| self.sections@[section as int].sub_sections@[b].letter,
                ),
            decreases SUB_SECTION_COUNT - j,
        {
            letters.push(self.sections[section].sub_sections[j].letter);
            assert(letters@ =~= Seq::new(
                (j + 1) as nat,
                |b: int| self.sections@[section as int].sub_sections@[b].letter,
            ));
            j += 1;
        }
        letters
    }

    /// The letters of the sections, in order.
    pub open spec fn letters(&self) -> Seq<char> {
        Seq::new(SECTION_COUNT as nat, |s: int| self.sections@[s].letter)
    }

    /// The letters of the sub-sections of a section, in order.
    pub open spec fn sub_letters(&self, section: int) -> Seq<char> {
        Seq::new(SUB_SECTION_COUNT as nat, |b: int| self.sections@[section].sub_sections@[b].letter)
    }

    /// Get the index of a section by its letter identifier: the first
    /// section whose letter is `id`, without regard to ASCII case.
    pub fn get_section_by_letter(&self, id: char) -> (r: Option<usize>)
        ensures
            match r {
                Some(i) => first_match(self.letters(), id, i as int),
                None => no_match(self.letters(), id),
            },
    {
        let mut i: usize = 0;
        while i < SECTION_COUNT
            invariant
                i <= SECTION_COUNT,
                forall|t: int| 0 <= t < i ==> !same_letter(self.letters()[t], id),
            decreases SECTION_COUNT - i,
        {
            if letters_match(self.sections[i].letter, id) {
                return Some(i);
            }
            i += 1;
        }
        None
    }

    /// Get the index of a sub-section by its letter identifier: the first
    /// sub-section of the section whose letter is `id`, without regard to
    /// ASCII case.
    ///
    /// The first argument is the index of the section to check and the second
    /// argument is the letter of the sub-section. A section off the map has
    /// no sub-sections.
    pub fn get_sub_section_by_letter(&self, section: usize, id: char) -> (r: Option<usize>)
        ensures
            match r {
                Some(j) => section < SECTION_COUNT && first_match(
                    self.sub_letters(section as int),
                    id,
                    j as int,
                ),
                None => section >= SECTION_COUNT || no_match(self.sub_letters(section as int), id),
            },
    {
        if section >= SECTION_COUNT {
            return None;
        }
        let mut j: usize = 0;
        while j < SUB_SECTION_COUNT
            invariant
                section < SECTION_COUNT,
                j <= SUB_SECTION_COUNT,
                forall|t: int| 0 <= t < j ==> !same_letter(self.sub_letters(section as int)[t], id),
            decreases SUB_SECTION_COUNT - j,
        {
            if letters_match(self.sections[section].sub_sections[j].letter, id) {
                return Some(j);
            }
            j += 1;
        }
        None
    }

    /// Get a tuple containing the index of a section and sub-section respectively by letter identifier.
    ///
    /// The section is the first that carries `section_char`, and the
    /// sub-section the first within it that carries `sub_section_char`. If
    /// either is missing, the result is `None`.
    pub fn get_inds_by_letter(&self, section_char: char, sub_section_char: char) -> (r: Option<
        (usize, usize),
    >)
        ensures
            match r {
                Some((i, j)) => {
                    &&& first_match(self.letters(), section_char, i as int)
                    &&& first_match(self.sub_letters(i as int), sub_section_char, j as int)
                },
                None => forall|i: int|
                    first_match(self.letters(), section_char, i) ==> no_match(
                        #[trigger] self.sub_letters(i),
                        sub_section_char,
                    ),
            },
    {
        if let Some(i) = self.get_section_by_letter(section_char) {
            if let Some(j) = self.get_sub_section_by_letter(i, sub_section_char) {
                return Some((i, j));
            }
            proof {
                assert forall|k: int| first_match(self.letters(), section_char, k) implies k
                    == i by {
                    if k < i {
                    } else if i < k {
                    }
                }
            }
        }
        None
    }

    /// Perform a round of the game.
    ///
    /// `victim` is a tuple containing the indices of the section and sub-section the victim is checking.
    ///
    /// `killer` is a tuple containing the indices of the section and sub-section the killer is checking.
    ///
    /// A pair of moves that is off the map, or that leaves the section of a
    /// chase begun in the last round, is refused and changes nothing.
    pub fn play(&mut self, victim: (usize, usize), killer: (usize, usize)) -> (r: PlayResult)
        requires
            old(self).wf(),
        ensures
            old(self)@.legal(victim, killer) ==> {
                &&& r == Ok::<(RoundResult, usize), PlayError>(
                    (old(self)@.outcome(victim, killer), old(self)@.found_section(victim)),
                )
                &&& final(self)@ == old(self)@.after(victim, killer)
            },
            !old(self)@.legal(victim, killer) ==> {
                &&& r == Err::<(RoundResult, usize), PlayError>(PlayError::OutOfBounds)
                &&& *final(self) == *old(self)
            },
            final(self).same_map(old(self)),
            final(self).wf(),
    {
        if victim.0 >= SECTION_COUNT || victim.1 >= SUB_SECTION_COUNT || killer.0 >= SECTION_COUNT
            || killer.1 >= SUB_SECTION_COUNT {
            return Err(PlayError::OutOfBounds);
        }
        if let RoundResult::ChaseBegins(section) = self.last_result.0 {
            if victim.0 != section || killer.0 != section {
                return Err(PlayError::OutOfBounds);
            }
        }
        let chased = matches!(self.last_result.0, RoundResult::ChaseBegins(_));
        let car_part = self.sections[victim.0].sub_sections[victim.1].part;
        if car_part {
            assert(old(self)@.parts.contains((victim.0 as int, victim.1 as int)));
            self.sections[victim.0].sub_sections[victim.1].part = false;
            self.part_count -= 1;
        }
        let all_found = self.part_count == 0;
        let same_place = victim.0 == killer.0 && victim.1 == killer.1;
        let round_result = if self.sections[killer.0].trapped && !all_found {
            self.sections[killer.0].trapped = false;
            RoundResult::TrapTriggered
        } else if same_place && self.victim_is_wounded {
            RoundResult::Caught
        } else if all_found {
            RoundResult::AllPartsFound
        } else if same_place {
            self.victim_is_wounded = true;
            RoundResult::Wounded
        } else if chased {
            RoundResult::Evaded
        } else if victim.0 == killer.0 {
            RoundResult::ChaseBegins(victim.0)
        } else {
            RoundResult::Nothing
        };
        let found = if car_part {
            victim.0
        } else {
            SECTION_COUNT
        };
        self.last_result = (round_result, found);
        proof {
            let before = old(self)@;
            let expected = before.after(victim, killer);
            assert(self@.parts =~= expected.parts);
            assert(self@.traps =~= expected.traps);
            assert(round_result == before.outcome(victim, killer));
        }
        Ok((round_result, found))
    }
}

impl Default for GameState {
    fn default() -> (r: GameState)
        ensures
            r.wf(),
            r@.parts == Set::<(int, int)>::empty(),
            r@.traps == Set::<int>::empty(),
            r@.remaining == 0,
            !r@.wounded,
            r@.last_result == (RoundResult::Nothing, SECTION_COUNT),
    {
        GameState::new()
    }
}

} // verus!
