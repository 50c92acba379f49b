use vstd::prelude::*;
use crate::game::game_state::{GameState, PlayError};
use crate::game::round::{MatchView, RoundResult, SECTION_COUNT};
use crate::multiplayer::packets::{MovePacket, PlayerType, TrapPacket};

verus! {

/// What a peer has to do once a round is resolved.
#[derive(PartialEq, Eq, Clone, Copy, Debug, Structural)]
pub enum NextStep {
    /// Exchange the moves of the next round.
    NextRound,
    /// Choose a section for a trap, place it and announce it to the other peer.
    AnnounceTrap,
    /// Wait for the other peer to announce a trap, and place it.
    AwaitTrap,
    /// The match is over; `won` tells whether this peer has won it.
    Finished { won: bool },
}

/// A resolved round, as one peer sees it.
#[derive(PartialEq, Eq, Clone, Copy, Debug, Structural)]
pub struct Resolution {
    /// Result of the round.
    pub result: RoundResult,
    /// Index of the section in which a part was found, `SECTION_COUNT` if none was.
    pub part_section: usize,
    /// What this peer does next.
    pub next: NextStep,
}

/// The victim's move of a round, for a peer that plays `player_type`,
/// has chosen `ours` and was sent `theirs`.
pub open spec fn victim_move(player_type: PlayerType, ours: (usize, usize), theirs: MovePacket) -> (
    usize,
    usize,
) {
    match player_type {
        PlayerType::Victim => ours,
        PlayerType::Killer => (theirs.0 as usize, theirs.1 as usize),
    }
}

/// The killer's move of a round, for a peer that plays `player_type`,
/// has chosen `ours` and was sent `theirs`.
pub open spec fn killer_move(player_type: PlayerType, ours: (usize, usize), theirs: MovePacket) -> (
    usize,
    usize,
) {
    match player_type {
        PlayerType::Killer => ours,
        PlayerType::Victim => (theirs.0 as usize, theirs.1 as usize),
    }
}

/// What a peer that plays `player_type` does after a round with `result`:
/// after an evasion the victim announces a trap and the killer awaits it;
/// a terminal result ends the match, won by the killer if the victim was
/// caught and by the victim if all parts were found; otherwise the next
/// round follows.
pub open spec fn step_after(player_type: PlayerType, result: RoundResult) -> NextStep {
    match result {
        RoundResult::Evaded => match player_type {
            PlayerType::Victim => NextStep::AnnounceTrap,
            PlayerType::Killer => NextStep::AwaitTrap,
        },
        RoundResult::Caught => NextStep::Finished { won: player_type == PlayerType::Killer },
        RoundResult::AllPartsFound => NextStep::Finished { won: player_type == PlayerType::Victim },
        _ => NextStep::NextRound,
    }
}

/// Computes what a peer does after a round with `result`.
pub fn next_step(player_type: PlayerType, result: RoundResult) -> (r: NextStep)
    ensures
        r == step_after(player_type, result),
{
    match result {
        RoundResult::Evaded => match player_type {
            PlayerType::Victim => NextStep::AnnounceTrap,
            PlayerType::Killer => NextStep::AwaitTrap,
        },
        RoundResult::Caught => NextStep::Finished { won: player_type == PlayerType::Killer },
        RoundResult::AllPartsFound => NextStep::Finished { won: player_type == PlayerType::Victim },
        _ => NextStep::NextRound,
    }
}

/// Resolves a round on this peer's copy of the state, once both moves are
/// known: `our_move` is the move this peer chose, `other_player_move` the
/// one the other peer sent.
///
/// The moves are handed to the round by role, whichever peer runs it. A pair
/// of moves that the round refuses changes nothing.
pub fn resolve_exchange(
    player_type: PlayerType,
    state: &mut GameState,
    our_move: (usize, usize),
    other_player_move: &MovePacket,
) -> (r: Result<Resolution, PlayError>)
    requires
        old(state).wf(),
    ensures
        ({
            let victim = victim_move(player_type, our_move, *other_player_move);
            let killer = killer_move(player_type, our_move, *other_player_move);
            let before = old(state)@;
            &&& before.legal(victim, killer) ==> {
                &&& r == Ok::<Resolution, PlayError>(
                    Resolution {
                        result: before.outcome(victim, killer),
                        part_section: before.found_section(victim),
                        next: step_after(player_type, before.outcome(victim, killer)),
                    },
                )
                &&& final(state)@ == before.after(victim, killer)
            }
            &&& !before.legal(victim, killer) ==> {
                &&& r == Err::<Resolution, PlayError>(PlayError::OutOfBounds)
                &&& *final(state) == *old(state)
            }
        }),
        final(state).same_map(old(state)),
        final(state).wf(),
{
    let other = other_player_move.to_move();
    let played = match player_type {
        PlayerType::Killer => state.play(other, our_move),
        PlayerType::Victim => state.play(our_move, other),
    };
    match played {
        Ok((result, part_section)) => Ok(
            Resolution { result, part_section, next: next_step(player_type, result) },
        ),
        Err(e) => Err(e),
    }
}

/// Places the trap that this peer, as the victim, has chosen, and gives the
/// packet that announces it. A section off the map is refused and changes
/// nothing.
pub fn announce_trap(state: &mut GameState, section: usize) -> (r: Result<TrapPacket, PlayError>)
    requires
        old(state).wf(),
    ensures
        section < SECTION_COUNT ==> {
            &&& r == Ok::<TrapPacket, PlayError>(section as u32)
            &&& final(state)@ == old(state)@.with_trap(section as int)
        },
        section >= SECTION_COUNT ==> r == Err::<TrapPacket, PlayError>(PlayError::OutOfBounds)
            && *final(state) == *old(state),
        final(state).same_map(old(state)),
        final(state).wf(),
{
    if section >= SECTION_COUNT {
        return Err(PlayError::OutOfBounds);
    }
    state.place_trap(section);
    Ok(section as u32)
}

/// Places the trap that the other peer has announced. A section off the map
/// is refused and changes nothing.
pub fn receive_trap(state: &mut GameState, trap: TrapPacket) -> (r: Result<(), PlayError>)
    requires
        old(state).wf(),
    ensures
        trap < SECTION_COUNT ==> r.is_ok() && final(state)@ == old(state)@.with_trap(trap as int),
        trap >= SECTION_COUNT ==> r == Err::<(), PlayError>(PlayError::OutOfBounds) && *final(state)
            == *old(state),
        final(state).same_map(old(state)),
        final(state).wf(),
{
    if trap as usize >= SECTION_COUNT {
        return Err(PlayError::OutOfBounds);
    }
    state.place_trap(trap as usize);
    Ok(())
}

/// Two peers of opposite roles that exchange their moves hand the same pair
/// of moves to the round, so that on equal matches both find the same
/// result and equal matches stay equal; and what they do next fits
/// together: one announces a trap exactly when the other awaits it, both go
/// on or both finish, and exactly one of them wins.
pub proof fn lemma_peers_agree(
    m: MatchView,
    victim: (usize, usize),
    killer: (usize, usize),
    result: RoundResult,
)
    requires
        victim.0 <= u32::MAX,
        victim.1 <= u32::MAX,
        killer.0 <= u32::MAX,
        killer.1 <= u32::MAX,
    ensures
        ({
            let sent_by_victim = MovePacket(victim.0 as u32, victim.1 as u32);
            let sent_by_killer = MovePacket(killer.0 as u32, killer.1 as u32);
            &&& victim_move(PlayerType::Victim, victim, sent_by_killer) == victim
            &&& victim_move(PlayerType::Killer, killer, sent_by_victim) == victim
            &&& killer_move(PlayerType::Victim, victim, sent_by_killer) == killer
            &&& killer_move(PlayerType::Killer, killer, sent_by_victim) == killer
            &&& m.outcome(
                victim_move(PlayerType::Victim, victim, sent_by_killer),
                killer_move(PlayerType::Victim, victim, sent_by_killer),
            ) == m.outcome(
                victim_move(PlayerType::Killer, killer, sent_by_victim),
                killer_move(PlayerType::Killer, killer, sent_by_victim),
            )
            &&& m.after(
                victim_move(PlayerType::Victim, victim, sent_by_killer),
                killer_move(PlayerType::Victim, victim, sent_by_killer),
            ) == m.after(
                victim_move(PlayerType::Killer, killer, sent_by_victim),
                killer_move(PlayerType::Killer, killer, sent_by_victim),
            )
        }),
        step_after(PlayerType::Victim, result) == NextStep::AnnounceTrap <==> step_after(
            PlayerType::Killer,
            result,
        ) == NextStep::AwaitTrap,
        step_after(PlayerType::Victim, result) == NextStep::NextRound <==> step_after(
            PlayerType::Killer,
            result,
        ) == NextStep::NextRound,
        result.terminal() <==> step_after(PlayerType::Victim, result) is Finished,
        step_after(PlayerType::Victim, result) == (NextStep::Finished { won: true }) <==> step_after(
            PlayerType::Killer,
            result,
        ) == (NextStep::Finished { won: false }),
        step_after(PlayerType::Victim, result) == (NextStep::Finished { won: false })
            <==> step_after(PlayerType::Killer, result) == (NextStep::Finished { won: true }),
{
}

} // verus!
