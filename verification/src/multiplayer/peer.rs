use vstd::prelude::*;
use crate::game::game_state::{GameState, PlayError};
use crate::game::round::{RoundResult, SECTION_COUNT};
use crate::multiplayer::net_play::{
    announce_trap, killer_move, receive_trap, resolve_exchange, step_after, victim_move, NextStep,
    Resolution,
};
use crate::multiplayer::packets::{MovePacket, PlayerType, TrapPacket};

verus! {

/// What a peer waits for.
#[derive(PartialEq, Eq, Clone, Copy, Debug, Structural)]
pub enum Phase {
    /// The two moves of the next round.
    Moves,
    /// The trap that the victim places after an evasion.
    Trap,
    /// Nothing: the match is over.
    Over,
}

/// Why a peer refuses an event.
#[derive(PartialEq, Eq, Clone, Copy, Debug, Structural)]
pub enum ExchangeError {
    /// The round or the map refuses what the event holds.
    Refused(PlayError),
    /// The event is not the one that the peer waits for.
    OutOfTurn,
}

/// One side of a match between two peers: its role, its own copy of the
/// state, and what it waits for.
pub struct Peer {
    /// The role of this peer.
    pub player_type: PlayerType,
    /// This peer's copy of the state of the match.
    pub state: GameState,
    /// What this peer waits for.
    pub phase: Phase,
}

/// What both peers wait for after a round with `result`: the victim's trap
/// after an evasion, nothing after a terminal result, and otherwise the
/// moves of the next round.
pub open spec fn phase_after(result: RoundResult) -> Phase {
    match result {
        RoundResult::Evaded => Phase::Trap,
        RoundResult::Caught => Phase::Over,
        RoundResult::AllPartsFound => Phase::Over,
        _ => Phase::Moves,
    }
}

impl Peer {
    /// The state is well formed, a trap is awaited only after an evasion, and
    /// the match is over exactly when the last result is terminal.
    pub open spec fn wf(&self) -> bool {
        &&& self.state.wf()
        &&& self.phase == Phase::Trap ==> self.state.last_result.0 == RoundResult::Evaded
        &&& self.phase == Phase::Over <==> self.state.last_result.0.terminal()
    }

    /// A peer that plays `player_type` on `state` and waits for the moves of
    /// the next round, or for nothing where the state's last result is terminal.
    pub fn new(player_type: PlayerType, state: GameState) -> (r: Peer)
        requires
            state.wf(),
        ensures
            r.wf(),
            r.player_type == player_type,
            r.state == state,
            r.phase == if state.last_result.0.terminal() {
                Phase::Over
            } else {
                Phase::Moves
            },
    {
        let phase = if state.last_result.0.is_terminal() {
            Phase::Over
        } else {
            Phase::Moves
        };
        Peer { player_type, state, phase }
    }

    /// Resolves a round once both moves are known: `our_move` is the move
    /// this peer chose, `other_player_move` the one the other peer sent.
    ///
    /// The peer must be waiting for moves, and the round must accept them;
    /// otherwise nothing changes. After the round the peer waits for what
    /// the result calls for.
    pub fn exchange(&mut self, our_move: (usize, usize), other_player_move: &MovePacket) -> (r:
        Result<Resolution, ExchangeError>)
        requires
            old(self).wf(),
        ensures
            ({
                let role = old(self).player_type;
                let victim = victim_move(role, our_move, *other_player_move);
                let killer = killer_move(role, our_move, *other_player_move);
                let before = old(self).state@;
                let result = before.outcome(victim, killer);
                &&& old(self).phase != Phase::Moves ==> {
                    &&& r == Err::<Resolution, ExchangeError>(ExchangeError::OutOfTurn)
                    &&& *final(self) == *old(self)
                }
                &&& old(self).phase == Phase::Moves && !before.legal(victim, killer) ==> {
                    &&& r == Err::<Resolution, ExchangeError>(
                        ExchangeError::Refused(PlayError::OutOfBounds),
                    )
                    &&& *final(self) == *old(self)
                }
                &&& old(self).phase == Phase::Moves && before.legal(victim, killer) ==> {
                    &&& r == Ok::<Resolution, ExchangeError>(
                        Resolution {
                            result,
                            part_section: before.found_section(victim),
                            next: step_after(role, result),
                        },
                    )
                    &&& final(self).state@ == before.after(victim, killer)
                    &&& final(self).phase == phase_after(result)
                }
            }),
            final(self).player_type == old(self).player_type,
            final(self).state.same_map(&old(self).state),
            final(self).wf(),
    {
        if self.phase != Phase::Moves {
            return Err(ExchangeError::OutOfTurn);
        }
        match resolve_exchange(self.player_type, &mut self.state, our_move, other_player_move) {
            Ok(resolution) => {
                self.phase =
                match resolution.result {
                    RoundResult::Evaded => Phase::Trap,
                    RoundResult::Caught => Phase::Over,
                    RoundResult::AllPartsFound => Phase::Over,
                    _ => Phase::Moves,
                };
                Ok(resolution)
            },
            Err(e) => Err(ExchangeError::Refused(e)),
        }
    }

    /// Places the trap that this peer, as the victim, has chosen after an
    /// evasion, and gives the packet that announces it; the peer then waits
    /// for moves again. A peer that is not the victim or awaits no trap is
    /// out of turn, and a section off the map is refused; neither changes
    /// anything.
    pub fn trap_chosen(&mut self, section: usize) -> (r: Result<TrapPacket, ExchangeError>)
        requires
            old(self).wf(),
        ensures
            ({
                let in_turn = old(self).phase == Phase::Trap && old(self).player_type
                    == PlayerType::Victim;
                &&& !in_turn ==> {
                    &&& r == Err::<TrapPacket, ExchangeError>(ExchangeError::OutOfTurn)
                    &&& *final(self) == *old(self)
                }
                &&& in_turn && section >= SECTION_COUNT ==> {
                    &&& r == Err::<TrapPacket, ExchangeError>(
                        ExchangeError::Refused(PlayError::OutOfBounds),
                    )
                    &&& *final(self) == *old(self)
                }
                &&& in_turn && section < SECTION_COUNT ==> {
                    &&& r == Ok::<TrapPacket, ExchangeError>(section as u32)
                    &&& final(self).state@ == old(self).state@.with_trap(section as int)
                    &&& final(self).phase == Phase::Moves
                }
            }),
            final(self).player_type == old(self).player_type,
            final(self).state.same_map(&old(self).state),
            final(self).wf(),
    {
        if self.phase != Phase::Trap || self.player_type != PlayerType::Victim {
            return Err(ExchangeError::OutOfTurn);
        }
        match announce_trap(&mut self.state, section) {
            Ok(packet) => {
                self.phase = Phase::Moves;
                Ok(packet)
            },
            Err(e) => Err(ExchangeError::Refused(e)),
        }
    }

    /// Places the trap that the other peer, the victim, has announced after
    /// an evasion; the peer then waits for moves again. A peer that is not
    /// the killer or awaits no trap is out of turn, and a section off the
    /// map is refused; neither changes anything.
    pub fn trap_received(&mut self, trap: TrapPacket) -> (r: Result<(), ExchangeError>)
        requires
            old(self).wf(),
        ensures
            ({
                let in_turn = old(self).phase == Phase::Trap && old(self).player_type
                    == PlayerType::Killer;
                &&& !in_turn ==> {
                    &&& r == Err::<(), ExchangeError>(ExchangeError::OutOfTurn)
                    &&& *final(self) == *old(self)
                }
                &&& in_turn && trap >= SECTION_COUNT ==> {
                    &&& r == Err::<(), ExchangeError>(
                        ExchangeError::Refused(PlayError::OutOfBounds),
                    )
                    &&& *final(self) == *old(self)
                }
                &&& in_turn && trap < SECTION_COUNT ==> {
                    &&& r.is_ok()
                    &&& final(self).state@ == old(self).state@.with_trap(trap as int)
                    &&& final(self).phase == Phase::Moves
                }
            }),
            final(self).player_type == old(self).player_type,
            final(self).state.same_map(&old(self).state),
            final(self).wf(),
    {
        if self.phase != Phase::Trap || self.player_type != PlayerType::Killer {
            return Err(ExchangeError::OutOfTurn);
        }
        match receive_trap(&mut self.state, trap) {
            Ok(()) => {
                self.phase = Phase::Moves;
                Ok(())
            },
            Err(e) => Err(ExchangeError::Refused(e)),
        }
    }
}

/// The phase that follows a round and the step that a peer takes after it
/// fit together: a peer announces or awaits a trap exactly in phase `Trap`,
/// finishes exactly in phase `Over`, and goes on to the next round exactly
/// in phase `Moves`.
pub proof fn lemma_phase_matches_step(player_type: PlayerType, result: RoundResult)
    ensures
        phase_after(result) == Phase::Trap <==> result == RoundResult::Evaded,
        phase_after(result) == Phase::Over <==> result.terminal(),
        phase_after(result) == Phase::Trap <==> step_after(player_type, result)
            == NextStep::AnnounceTrap || step_after(player_type, result) == NextStep::AwaitTrap,
        phase_after(result) == Phase::Over <==> step_after(player_type, result) is Finished,
        phase_after(result) == Phase::Moves <==> step_after(player_type, result)
            == NextStep::NextRound,
{
}

} // verus!
