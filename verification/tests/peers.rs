use camp_misty::game::game_state::{GameState, PlayError};
use camp_misty::game::killer_ai::KillerAI;
use camp_misty::game::round::{RoundResult, SECTION_COUNT};
use camp_misty::game::victim_ai::VictimAI;
use camp_misty::multiplayer::net_play::NextStep;
use camp_misty::multiplayer::packets::{MovePacket, PlayerType};
use camp_misty::multiplayer::peer::{ExchangeError, Peer, Phase};

fn peer(player_type: PlayerType) -> Peer {
    let mut state = GameState::new();
    for s in 0..SECTION_COUNT {
        state.hide_part(s, 1);
    }
    Peer::new(player_type, state)
}

#[test]
fn new_peer_waits_for_moves() {
    let p = peer(PlayerType::Victim);
    assert!(p.phase == Phase::Moves);
    assert!(p.player_type == PlayerType::Victim);
    assert_eq!(p.state.part_count, 5);
    let mut over = GameState::new();
    over.last_result = (RoundResult::Caught, SECTION_COUNT);
    assert!(Peer::new(PlayerType::Killer, over).phase == Phase::Over);
}

#[test]
fn trap_is_exchanged_after_an_evasion_only() {
    let mut victim = peer(PlayerType::Victim);
    let mut killer = peer(PlayerType::Killer);
    assert!(victim.trap_chosen(1) == Err(ExchangeError::OutOfTurn));
    assert!(killer.trap_received(1) == Err(ExchangeError::OutOfTurn));

    let r = victim.exchange((1, 0), &MovePacket(1, 3)).unwrap();
    assert_eq!(r.result, RoundResult::ChaseBegins(1));
    assert!(r.next == NextStep::NextRound && victim.phase == Phase::Moves);
    killer.exchange((1, 3), &MovePacket(1, 0)).unwrap();

    let r = victim.exchange((1, 2), &MovePacket(1, 4)).unwrap();
    assert_eq!(r.result, RoundResult::Evaded);
    assert!(r.next == NextStep::AnnounceTrap && victim.phase == Phase::Trap);
    let r = killer.exchange((1, 4), &MovePacket(1, 2)).unwrap();
    assert!(r.next == NextStep::AwaitTrap && killer.phase == Phase::Trap);

    // no round while the trap is awaited
    assert!(victim.exchange((0, 0), &MovePacket(2, 2)) == Err(ExchangeError::OutOfTurn));
    assert!(killer.exchange((2, 2), &MovePacket(0, 0)) == Err(ExchangeError::OutOfTurn));
    assert_eq!(victim.state.last_result.0, RoundResult::Evaded);
    // each role has its own side of the trap
    assert!(victim.trap_received(2) == Err(ExchangeError::OutOfTurn));
    assert!(killer.trap_chosen(2) == Err(ExchangeError::OutOfTurn));
    // a trap off the map is refused and still awaited
    assert!(victim.trap_chosen(5) == Err(ExchangeError::Refused(PlayError::OutOfBounds)));
    assert!(killer.trap_received(9) == Err(ExchangeError::Refused(PlayError::OutOfBounds)));
    assert!(victim.phase == Phase::Trap && killer.phase == Phase::Trap);
    assert!(!victim.state.trap_exists() && !killer.state.trap_exists());

    let packet = victim.trap_chosen(2).unwrap();
    assert_eq!(packet, 2);
    killer.trap_received(packet).unwrap();
    assert!(victim.phase == Phase::Moves && killer.phase == Phase::Moves);
    assert!(victim.state.sections[2].trapped && killer.state.sections[2].trapped);

    let r = killer.exchange((2, 1), &MovePacket(2, 1)).unwrap();
    assert_eq!((r.result, r.part_section), (RoundResult::TrapTriggered, 2));
    let r = victim.exchange((2, 1), &MovePacket(2, 1)).unwrap();
    assert_eq!((r.result, r.part_section), (RoundResult::TrapTriggered, 2));
    assert!(!victim.state.trap_exists() && !killer.state.trap_exists());
}

#[test]
fn refused_moves_leave_the_peer_waiting() {
    let mut victim = peer(PlayerType::Victim);
    let r = victim.exchange((0, 0), &MovePacket(5, 0));
    assert!(r == Err(ExchangeError::Refused(PlayError::OutOfBounds)));
    assert!(victim.phase == Phase::Moves);
    assert_eq!(victim.state.last_result, (RoundResult::Nothing, SECTION_COUNT));
    assert!(victim.exchange((0, 0), &MovePacket(4, 0)).is_ok());
}

#[test]
fn finished_match_takes_no_more_rounds() {
    let mut state = GameState::new();
    state.hide_part(0, 0);
    let mut victim = Peer::new(PlayerType::Victim, state);
    let r = victim.exchange((0, 0), &MovePacket(3, 3)).unwrap();
    assert_eq!(r.result, RoundResult::AllPartsFound);
    assert!(r.next == NextStep::Finished { won: true });
    assert!(victim.phase == Phase::Over);
    assert!(victim.exchange((0, 1), &MovePacket(3, 3)) == Err(ExchangeError::OutOfTurn));
    assert!(victim.trap_chosen(0) == Err(ExchangeError::OutOfTurn));
    assert_eq!(victim.state.last_result, (RoundResult::AllPartsFound, 0));
}

#[test]
fn well_formed_states() {
    let mut state = GameState::new();
    assert!(state.is_wf());
    state.gen_state();
    assert!(state.is_wf());
    state.play((0, 0), (0, 1)).unwrap();
    assert!(state.is_wf());
    // a part that is not counted
    let mut bad = GameState::new();
    bad.sections[1].sub_sections[1].part = true;
    assert!(!bad.is_wf());
    bad.part_count = 1;
    assert!(bad.is_wf());
    // a chase off the map
    bad.last_result = (RoundResult::ChaseBegins(5), SECTION_COUNT);
    assert!(!bad.is_wf());
    bad.last_result = (RoundResult::ChaseBegins(4), SECTION_COUNT + 1);
    assert!(!bad.is_wf());
    bad.last_result = (RoundResult::ChaseBegins(4), 0);
    assert!(bad.is_wf());
}

#[test]
fn players_know_when_they_can_move() {
    let mut state = GameState::new();
    let mut killer = KillerAI::new(&state);
    let mut victim = VictimAI::new(&state);
    assert!(killer.can_play(&state) && victim.can_play(&state));
    state.last_result = (RoundResult::Caught, SECTION_COUNT);
    assert!(killer.can_play(&state) && !victim.can_play(&state));
    state.last_result = (RoundResult::AllPartsFound, 0);
    assert!(!victim.can_play(&state));
    // the killer strikes a section per part found, until none is left
    for s in 0..SECTION_COUNT {
        state.last_result = (RoundResult::Nothing, s);
        assert_eq!(killer.can_play(&state), s < SECTION_COUNT - 1);
        killer.observe(&state);
    }
    state.last_result = (RoundResult::Wounded, SECTION_COUNT);
    assert!(!killer.can_play(&state));
    state.last_result = (RoundResult::ChaseBegins(1), SECTION_COUNT);
    assert!(killer.can_play(&state));
    // the victim runs out of places outside a chase only
    for _ in 0..25 {
        victim.take(0);
    }
    assert!(victim.can_play(&state));
    state.last_result = (RoundResult::Nothing, SECTION_COUNT);
    assert!(!victim.can_play(&state));
}
