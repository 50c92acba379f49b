use vstd::prelude::*;
use crate::game::game_state::{GameState, PlayError};
use crate::game::random::random_below;
use crate::game::round::{all_places, MatchView, SECTION_COUNT};
use crate::game::section::SUB_SECTION_COUNT;

verus! {

/// An enum used to identify a type of player (either a victim or killer).
#[derive(PartialEq, Eq, Clone, Copy, Debug, Structural)]
pub enum PlayerType {
    /// Killer player.
    Killer,
    /// Victim player.
    Victim,
}

impl PlayerType {
    /// The role of the other peer.
    pub open spec fn other(self) -> PlayerType {
        match self {
            PlayerType::Killer => PlayerType::Victim,
            PlayerType::Victim => PlayerType::Killer,
        }
    }

    /// The role that a peer takes when the match's initiator announces this one.
    pub fn opposite(self) -> (r: PlayerType)
        ensures
            r == self.other(),
    {
        match self {
            PlayerType::Killer => PlayerType::Victim,
            PlayerType::Victim => PlayerType::Killer,
        }
    }
}

/// The role that the answer to the question of roles stands for: `K` for
/// the killer, `V` for the victim, and `R` for whichever the draw gives,
/// the killer on 0.
pub open spec fn role_for(answer: char, draw: usize) -> PlayerType {
    if answer == 'K' {
        PlayerType::Killer
    } else if answer == 'V' {
        PlayerType::Victim
    } else if draw == 0 {
        PlayerType::Killer
    } else {
        PlayerType::Victim
    }
}

/// The answers to the question of roles.
pub open spec fn role_answer(answer: char) -> bool {
    answer == 'K' || answer == 'V' || answer == 'R'
}

/// The role for an answer and a draw.
pub fn role_of(answer: char, draw: usize) -> (r: PlayerType)
    requires
        role_answer(answer),
    ensures
        r == role_for(answer, draw),
{
    if answer == 'K' {
        PlayerType::Killer
    } else if answer == 'V' {
        PlayerType::Victim
    } else if draw == 0 {
        PlayerType::Killer
    } else {
        PlayerType::Victim
    }
}

/// The role for an answer, drawn at random where the answer leaves it open.
pub fn choose_role(answer: char) -> (r: PlayerType)
    requires
        role_answer(answer),
    ensures
        exists|draw: usize| draw < 2 && r == #[trigger] role_for(answer, draw),
        answer == 'K' ==> r == PlayerType::Killer,
        answer == 'V' ==> r == PlayerType::Victim,
{
    let draw = if answer == 'R' {
        random_below(2)
    } else {
        0
    };
    let r = role_of(answer, draw);
    assert(draw < 2 && r == role_for(answer, draw));
    r
}

/// A structure used to describe the state of the game to a client.
#[derive(Clone, Copy, Debug)]
pub struct GameStatePacket {
    /// List of the spots the car parts are hidden in.
    pub hidden_parts: [(u32, u32); SECTION_COUNT],
}

/// A structure used to communicate the move made during the game.
#[derive(PartialEq, Eq, Clone, Copy, Debug, Structural)]
pub struct MovePacket(pub u32, pub u32);

/// A trap used to communicate where the victim has placed a trap.
pub type TrapPacket = u32;

/// The places that hold a part in `m`.
pub open spec fn holds_part(m: MatchView) -> spec_fn((usize, usize)) -> bool {
    |place: (usize, usize)| m.parts.contains((place.0 as int, place.1 as int))
}

/// The places that hold a part in `m`, section by section.
pub open spec fn part_places(m: MatchView) -> Seq<(usize, usize)> {
    all_places().filter(holds_part(m))
}

impl GameStatePacket {
    /// The packet's entries are `places` in order, and name the first place
    /// of the map after them.
    pub open spec fn lists(&self, places: Seq<(usize, usize)>) -> bool {
        &&& places.len() <= SECTION_COUNT
        &&& forall|k: int|
            0 <= k < SECTION_COUNT ==> #[trigger] self.hidden_parts@[k] == if k < places.len() {
                (places[k].0 as u32, places[k].1 as u32)
            } else {
                (0u32, 0u32)
            }
    }

    /// The places that the packet names, in order.
    pub open spec fn spots(&self) -> Seq<(int, int)> {
        Seq::new(
            SECTION_COUNT as nat,
            |k: int| (self.hidden_parts@[k].0 as int, self.hidden_parts@[k].1 as int),
        )
    }

    /// Every place that the packet names lies on the map.
    pub open spec fn fits_map(&self) -> bool {
        forall|k: int|
            0 <= k < SECTION_COUNT ==> (#[trigger] self.hidden_parts@[k]).0 < SECTION_COUNT
                && self.hidden_parts@[k].1 < SUB_SECTION_COUNT
    }

    /// Constructor: every entry names the first place of the map.
    pub fn new() -> (r: GameStatePacket)
        ensures
            r.lists(Seq::empty()),
    {
        GameStatePacket { hidden_parts: [(0, 0), (0, 0), (0, 0), (0, 0), (0, 0)] }
    }

    /// Describes where the parts of `state` are hidden, section by section.
    /// A packet has room for one part per section: a state that hides more
    /// has no packet.
    pub fn from_state(state: &GameState) -> (r: Option<GameStatePacket>)
        ensures
            match r {
                Some(packet) => packet.lists(part_places(state@)),
                None => part_places(state@).len() > SECTION_COUNT,
            },
    {
        let mut packet = GameStatePacket::new();
        let mut ind: usize = 0;
        let mut n: usize = 0;
        let ghost all = all_places();
        let ghost pred = holds_part(state@);
        proof {
            reveal(Seq::filter);
            assert(all.subrange(0, 0) =~= Seq::<(usize, usize)>::empty());
        }
        while n < SECTION_COUNT * SUB_SECTION_COUNT
            invariant
                n <= SECTION_COUNT * SUB_SECTION_COUNT,
                all == all_places(),
                pred == holds_part(state@),
                ind == all.subrange(0, n as int).filter(pred).len(),
                packet.lists(all.subrange(0, n as int).filter(pred)),
            decreases SECTION_COUNT * SUB_SECTION_COUNT - n,
        {
            let i = n / SUB_SECTION_COUNT;
            let j = n % SUB_SECTION_COUNT;
            proof {
                reveal(Seq::filter);
                let longer = all.subrange(0, n + 1);
                assert(longer.drop_last() =~= all.subrange(0, n as int));
                assert(longer.last() == (i, j));
                assert(pred((i, j)) == state.sections@[i as int].sub_sections@[j as int].part);
            }
            if state.sections[i].sub_sections[j].part {
                if ind == SECTION_COUNT {
                    proof {
                        let longer = all.subrange(0, n + 1);
                        let rest = all.subrange(n + 1, all.len() as int);
                        assert(all =~= longer + rest);
                        Seq::filter_distributes_over_add(longer, rest, pred);
                    }
                    return None;
                }
                packet.hidden_parts[ind] = (i as u32, j as u32);
                ind += 1;
            }
            n += 1;
        }
        assert(all.subrange(0, n as int) =~= all);
        Some(packet)
    }

    /// Hides a part at each place that the packet names, in order. A packet
    /// that names a place off the map is refused and changes nothing.
    pub fn load_into(&self, state: &mut GameState) -> (r: Result<(), PlayError>)
        requires
            old(state).wf(),
            old(state).part_count <= usize::MAX - SECTION_COUNT,
        ensures
            self.fits_map() ==> r.is_ok() && final(state)@ == old(state)@.with_parts(self.spots()),
            !self.fits_map() ==> r == Err::<(), PlayError>(PlayError::OutOfBounds) && *final(state)
                == *old(state),
            final(state).same_map(old(state)),
            final(state).wf(),
    {
        let mut k: usize = 0;
        while k < SECTION_COUNT
            invariant
                k <= SECTION_COUNT,
                *state == *old(state),
                state.wf(),
                forall|t: int|
                    0 <= t < k ==> (#[trigger] self.hidden_parts@[t]).0 < SECTION_COUNT
                        && self.hidden_parts@[t].1 < SUB_SECTION_COUNT,
            decreases SECTION_COUNT - k,
        {
            let part = self.hidden_parts[k];
            if part.0 as usize >= SECTION_COUNT || part.1 as usize >= SUB_SECTION_COUNT {
                return Err(PlayError::OutOfBounds);
            }
            k += 1;
        }
        let mut k: usize = 0;
        while k < SECTION_COUNT
            invariant
                k <= SECTION_COUNT,
                self.fits_map(),
                state@ == old(state)@.with_parts(self.spots().subrange(0, k as int)),
                state.part_count == old(state).part_count + k,
                old(state).part_count <= usize::MAX - SECTION_COUNT,
                state.same_map(old(state)),
                state.wf(),
            decreases SECTION_COUNT - k,
        {
            let part = self.hidden_parts[k];
            state.hide_part(part.0 as usize, part.1 as usize);
            proof {
                let longer = self.spots().subrange(0, k + 1);
                assert(longer.drop_last() =~= self.spots().subrange(0, k as int));
            }
            k += 1;
        }
        assert(self.spots().subrange(0, k as int) =~= self.spots());
        Ok(())
    }
}

impl MovePacket {
    /// The packet that announces a move.
    pub fn from_move(m: (usize, usize)) -> (r: MovePacket)
        requires
            m.0 <= u32::MAX,
            m.1 <= u32::MAX,
        ensures
            r.0 == m.0,
            r.1 == m.1,
    {
        MovePacket(m.0 as u32, m.1 as u32)
    }

    /// The move that a packet announces.
    pub fn to_move(&self) -> (r: (usize, usize))
        ensures
            r.0 == self.0,
            r.1 == self.1,
    {
        (self.0 as usize, self.1 as usize)
    }
}

} // verus!
