use camp_misty::game::game_state::{GameState, PlayError};
use camp_misty::game::round::{RoundResult, SECTION_COUNT};

/// A fresh state with one part in sub-section 1 of every section.
fn one_part_each() -> GameState {
    let mut state = GameState::new();
    for s in 0..SECTION_COUNT {
        state.hide_part(s, 1);
    }
    state
}

fn traps(state: &GameState) -> Vec<bool> {
    state.sections.iter().map(|s| s.trapped).collect()
}

fn parts(state: &GameState) -> Vec<(usize, usize)> {
    let mut found = Vec::new();
    for (i, section) in state.sections.iter().enumerate() {
        for (j, sub) in section.sub_sections.iter().enumerate() {
            if sub.part {
                found.push((i, j));
            }
        }
    }
    found
}

#[test]
fn first_round_of_the_example() {
    let mut state = one_part_each();
    assert_eq!(state.part_count, 5);
    let res = state.play((2, 1), (0, 0));
    assert_eq!(res.unwrap(), (RoundResult::Nothing, 2));
    assert_eq!(state.part_count, 4);
    assert_eq!(state.last_result, (RoundResult::Nothing, 2));
    assert!(!state.sections[2].sub_sections[1].part);
    assert_eq!(parts(&state), vec![(0, 1), (1, 1), (3, 1), (4, 1)]);
}

#[test]
fn last_part_wins_whatever_the_killer_does() {
    for killer in [(0, 0), (3, 0), (3, 1), (4, 4)] {
        let mut state = GameState::new();
        state.hide_part(3, 1);
        assert_eq!(state.part_count, 1);
        let res = state.play((3, 1), killer);
        assert_eq!(res.unwrap(), (RoundResult::AllPartsFound, 3));
        assert_eq!(state.part_count, 0);
        assert!(!state.victim_is_wounded);
    }
}

#[test]
fn last_part_wins_in_a_trapped_section() {
    let mut state = GameState::new();
    state.hide_part(3, 1);
    state.place_trap(3);
    let res = state.play((3, 1), (3, 1));
    assert_eq!(res.unwrap(), (RoundResult::AllPartsFound, 3));
    assert!(state.sections[3].trapped);
    assert!(!state.victim_is_wounded);
}

#[test]
fn wounded_victim_is_caught_even_with_the_last_part() {
    let mut state = GameState::new();
    state.hide_part(3, 1);
    state.victim_is_wounded = true;
    let res = state.play((3, 1), (3, 1));
    assert_eq!(res.unwrap(), (RoundResult::Caught, 3));
    assert_eq!(state.part_count, 0);
}

#[test]
fn nothing_found_reports_no_section() {
    let mut state = one_part_each();
    let res = state.play((2, 0), (0, 0));
    assert_eq!(res.unwrap(), (RoundResult::Nothing, SECTION_COUNT));
    assert_eq!(state.part_count, 5);
}

#[test]
fn outcomes_without_trap_and_with_parts_left() {
    let mut state = one_part_each();
    assert_eq!(state.play((0, 0), (1, 0)).unwrap().0, RoundResult::Nothing);
    assert_eq!(state.play((2, 0), (2, 3)).unwrap().0, RoundResult::ChaseBegins(2));
    assert_eq!(state.play((2, 2), (2, 4)).unwrap().0, RoundResult::Evaded);
    assert_eq!(state.play((4, 0), (4, 0)).unwrap().0, RoundResult::Wounded);
    assert!(state.victim_is_wounded);
    assert_eq!(state.play((4, 2), (4, 2)).unwrap().0, RoundResult::Caught);
    assert_eq!(state.part_count, 5);
}

#[test]
fn chase_round_with_same_place_wounds() {
    let mut state = one_part_each();
    assert_eq!(state.play((2, 0), (2, 3)).unwrap().0, RoundResult::ChaseBegins(2));
    assert_eq!(state.play((2, 2), (2, 2)).unwrap().0, RoundResult::Wounded);
    // the chase is over: the next round is not confined
    assert_eq!(state.play((0, 0), (4, 0)).unwrap().0, RoundResult::Nothing);
}

#[test]
fn out_of_bounds_moves_change_nothing() {
    for (victim, killer) in [
        ((5, 0), (0, 0)),
        ((0, 5), (0, 0)),
        ((0, 0), (5, 0)),
        ((0, 0), (0, 5)),
        ((usize::MAX, usize::MAX), (usize::MAX, usize::MAX)),
    ] {
        let mut state = one_part_each();
        state.place_trap(1);
        state.play((0, 0), (0, 0)).unwrap();
        let before = (
            state.part_count,
            state.victim_is_wounded,
            traps(&state),
            state.last_result,
            parts(&state),
        );
        let res = state.play(victim, killer);
        assert!(matches!(res, Err(PlayError::OutOfBounds)));
        let after = (
            state.part_count,
            state.victim_is_wounded,
            traps(&state),
            state.last_result,
            parts(&state),
        );
        assert_eq!(before, after);
    }
}

#[test]
fn chase_lock_refuses_moves_outside_the_section() {
    for (victim, killer) in [((1, 1), (2, 0)), ((2, 1), (3, 0)), ((0, 1), (4, 0))] {
        let mut state = one_part_each();
        state.place_trap(4);
        assert_eq!(state.play((2, 0), (2, 3)).unwrap().0, RoundResult::ChaseBegins(2));
        let res = state.play(victim, killer);
        assert!(matches!(res, Err(PlayError::OutOfBounds)));
        assert_eq!(state.part_count, 5);
        assert!(!state.victim_is_wounded);
        assert_eq!(traps(&state), vec![false, false, false, false, true]);
        assert_eq!(state.last_result, (RoundResult::ChaseBegins(2), SECTION_COUNT));
        assert_eq!(parts(&state).len(), 5);
        // a move inside the section is still accepted afterwards
        assert_eq!(state.play((2, 4), (2, 0)).unwrap().0, RoundResult::Evaded);
    }
}

#[test]
fn trap_takes_precedence_over_combat() {
    // same place
    let mut state = one_part_each();
    state.place_trap(3);
    assert_eq!(state.play((3, 0), (3, 0)).unwrap(), (RoundResult::TrapTriggered, SECTION_COUNT));
    assert!(!state.sections[3].trapped);
    assert!(!state.victim_is_wounded);
    // same section, other place: no chase begins
    let mut state = one_part_each();
    state.place_trap(3);
    assert_eq!(state.play((3, 1), (3, 0)).unwrap(), (RoundResult::TrapTriggered, 3));
    assert!(!state.sections[3].trapped);
    assert_eq!(state.part_count, 4);
    // the trap is spent: the same moves now begin a chase
    assert_eq!(state.play((3, 1), (3, 0)).unwrap().0, RoundResult::ChaseBegins(3));
}

#[test]
fn trap_in_another_section_stays() {
    let mut state = one_part_each();
    state.place_trap(3);
    assert!(state.trap_exists());
    assert_eq!(state.play((0, 0), (1, 0)).unwrap().0, RoundResult::Nothing);
    assert!(state.sections[3].trapped);
    assert!(state.trap_exists());
    assert_eq!(state.play((0, 0), (3, 0)).unwrap().0, RoundResult::TrapTriggered);
    assert!(!state.trap_exists());
}

#[test]
fn trap_saves_a_wounded_victim() {
    let mut state = one_part_each();
    state.victim_is_wounded = true;
    state.place_trap(0);
    assert_eq!(state.play((0, 0), (0, 0)).unwrap().0, RoundResult::TrapTriggered);
    assert_eq!(state.play((0, 0), (0, 0)).unwrap().0, RoundResult::Caught);
}

#[test]
fn wound_then_catch() {
    for place in [(0, 0), (2, 1), (4, 4)] {
        let mut state = one_part_each();
        assert_eq!(state.play(place, place).unwrap().0, RoundResult::Wounded);
        assert!(state.victim_is_wounded);
        assert_eq!(state.play(place, place).unwrap().0, RoundResult::Caught);
    }
}

#[test]
fn empty_map_is_won_at_once() {
    let mut state = GameState::new();
    assert_eq!(state.part_count, 0);
    assert_eq!(state.play((0, 0), (1, 1)).unwrap(), (RoundResult::AllPartsFound, SECTION_COUNT));
}

#[test]
fn terminal_results() {
    assert!(RoundResult::Caught.is_terminal());
    assert!(RoundResult::AllPartsFound.is_terminal());
    assert!(!RoundResult::Nothing.is_terminal());
    assert!(!RoundResult::Wounded.is_terminal());
    assert!(!RoundResult::Evaded.is_terminal());
    assert!(!RoundResult::ChaseBegins(1).is_terminal());
    assert!(!RoundResult::TrapTriggered.is_terminal());
}

#[test]
fn default_state_is_the_new_state() {
    let state = GameState::default();
    assert_eq!(state.part_count, 0);
    assert!(!state.victim_is_wounded);
    assert_eq!(state.last_result, (RoundResult::Nothing, SECTION_COUNT));
    assert!(!state.trap_exists());
    assert!(parts(&state).is_empty());
}
