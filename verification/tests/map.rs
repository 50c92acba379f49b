use camp_misty::errors::Error;
use camp_misty::game::game_state::GameState;
use camp_misty::game::identifier::{is_valid_letter, letters_match, to_upper};
use camp_misty::game::round::{RoundResult, SECTION_COUNT};
use camp_misty::game::section::{has_distinct_letters, Section, SUB_SECTION_COUNT};
use camp_misty::game::sub_section::SubSection;

fn subs(letters: [char; 5]) -> [SubSection; SUB_SECTION_COUNT] {
    letters.map(|c| SubSection::new(format!("({})", c), c, false))
}

#[test]
fn new_state_has_the_map() {
    let state = GameState::new();
    let letters: Vec<char> = state.sections.iter().map(|s| s.letter).collect();
    assert_eq!(letters, vec!['C', 'L', 'A', 'B', 'O']);
    let cabin: Vec<char> = state.sections[0].sub_sections.iter().map(|s| s.letter).collect();
    assert_eq!(cabin, vec!['B', 'K', 'T', 'C', 'A']);
    let forest: Vec<char> = state.sections[4].sub_sections.iter().map(|s| s.letter).collect();
    assert_eq!(forest, vec!['P', 'C', 'S', 'F', 'H']);
    assert_eq!(state.sections[1].name, "(L)ake Misty");
    assert_eq!(state.sections[2].sub_sections[4].name, "(F)ourier");
    assert_eq!(state.part_count, 0);
    assert_eq!(state.last_result, (RoundResult::Nothing, SECTION_COUNT));
    for section in state.sections.iter() {
        assert!(!section.trapped);
        assert!(has_distinct_letters(&section.sub_sections));
        for sub in section.sub_sections.iter() {
            assert!(!sub.part);
        }
    }
}

#[test]
fn section_lookup() {
    let state = GameState::new();
    assert_eq!(state.get_section_by_letter('C'), Some(0));
    assert_eq!(state.get_section_by_letter('L'), Some(1));
    assert_eq!(state.get_section_by_letter('A'), Some(2));
    assert_eq!(state.get_section_by_letter('B'), Some(3));
    assert_eq!(state.get_section_by_letter('O'), Some(4));
    assert_eq!(state.get_section_by_letter('Z'), None);
    assert_eq!(state.get_section_by_letter('3'), None);
}

#[test]
fn lookups_ignore_ascii_case() {
    let state = GameState::new();
    assert_eq!(state.get_section_by_letter('c'), Some(0));
    assert_eq!(state.get_section_by_letter('o'), Some(4));
    assert_eq!(state.get_section_by_letter('z'), None);
    assert_eq!(state.get_sub_section_by_letter(0, 'a'), Some(4));
    assert_eq!(state.get_sub_section_by_letter(1, 'k'), None);
    assert_eq!(state.get_inds_by_letter('a', 'k'), Some((2, 3)));
    assert_eq!(state.get_inds_by_letter('A', 'k'), Some((2, 3)));
    // '[' and '{' differ by as much as a capital and its small letter
    assert_eq!(to_upper('{'), '{');
    assert_eq!(to_upper('a'), 'A');
    assert_eq!(to_upper('z'), 'Z');
    assert_eq!(to_upper('Q'), 'Q');
    assert_eq!(to_upper('\u{e9}'), '\u{e9}');
    assert!(letters_match('q', 'Q') && letters_match('Q', 'q') && !letters_match('q', 'R'));
}

#[test]
fn sub_section_lookup() {
    let state = GameState::new();
    assert_eq!(state.get_sub_section_by_letter(0, 'B'), Some(0));
    assert_eq!(state.get_sub_section_by_letter(0, 'A'), Some(4));
    assert_eq!(state.get_sub_section_by_letter(1, 'B'), Some(1));
    assert_eq!(state.get_sub_section_by_letter(1, 'K'), None);
    assert_eq!(state.get_sub_section_by_letter(SECTION_COUNT, 'B'), None);
    assert_eq!(state.get_sub_section_by_letter(usize::MAX, 'B'), None);
}

#[test]
fn pair_lookup() {
    let state = GameState::new();
    assert_eq!(state.get_inds_by_letter('A', 'K'), Some((2, 3)));
    assert_eq!(state.get_inds_by_letter('O', 'H'), Some((4, 4)));
    assert_eq!(state.get_inds_by_letter('O', 'Z'), None);
    assert_eq!(state.get_inds_by_letter('Z', 'B'), None);
}

#[test]
fn lookup_finds_the_first_of_equal_letters() {
    let mut state = GameState::new();
    state.sections[3].letter = 'L';
    state.sections[1].sub_sections[4].letter = 'D';
    assert_eq!(state.get_section_by_letter('L'), Some(1));
    assert_eq!(state.get_sub_section_by_letter(1, 'D'), Some(0));
    assert_eq!(state.get_inds_by_letter('L', 'D'), Some((1, 0)));
    // the pair is looked for in the first section with the letter only
    assert_eq!(state.get_inds_by_letter('L', 'S'), None);
}

#[test]
fn choices_and_chase_section() {
    let mut state = GameState::new();
    assert_eq!(state.section_choices(), vec!['C', 'L', 'A', 'B', 'O']);
    assert_eq!(state.sub_section_choices(3), vec!['S', 'C', 'L', 'T', 'B']);
    assert_eq!(state.chase_section(), None);
    state.hide_part(0, 0);
    state.play((2, 0), (2, 1)).unwrap();
    assert_eq!(state.chase_section(), Some(2));
}

#[test]
fn hide_part_counts_every_call() {
    let mut state = GameState::new();
    state.hide_part(1, 2);
    assert!(state.sections[1].sub_sections[2].part);
    assert_eq!(state.part_count, 1);
    state.hide_part(1, 2);
    assert!(state.sections[1].sub_sections[2].part);
    assert_eq!(state.part_count, 2);
    assert_eq!(state.sections[1].name, "(L)ake Misty");
}

#[test]
fn place_trap_sets_the_flag() {
    let mut state = GameState::new();
    assert!(!state.trap_exists());
    state.place_trap(4);
    assert!(state.sections[4].trapped);
    assert!(state.trap_exists());
    assert!(!state.sections[0].trapped);
    assert_eq!(state.part_count, 0);
}

#[test]
fn gen_state_hides_one_part_per_section() {
    for _ in 0..200 {
        let mut state = GameState::new();
        state.gen_state();
        assert_eq!(state.part_count, SECTION_COUNT);
        for section in state.sections.iter() {
            assert_eq!(section.sub_sections.iter().filter(|s| s.part).count(), 1);
            assert!(!section.trapped);
        }
    }
}

#[test]
fn letters_must_be_uppercase_letters() {
    assert!(is_valid_letter('A'));
    assert!(is_valid_letter('Z'));
    assert!(is_valid_letter('\u{c9}'));
    assert!(!is_valid_letter('a'));
    assert!(!is_valid_letter('z'));
    assert!(!is_valid_letter('1'));
    assert!(!is_valid_letter(' '));
    assert!(!is_valid_letter('\u{e9}'));
}

#[test]
fn sub_section_construction() {
    let s = SubSection::new(String::from("(D)ock"), 'D', true);
    assert_eq!(s.name, "(D)ock");
    assert_eq!(s.letter, 'D');
    assert!(s.part);
    assert!(SubSection::try_new(String::from("(D)ock"), 'D', false).is_some());
    assert!(SubSection::try_new(String::from("(d)ock"), 'd', false).is_none());
    assert!(SubSection::try_new(String::from("(7)"), '7', false).is_none());
}

#[test]
fn section_construction() {
    let s = Section::new(String::from("(L)ake"), 'L', subs(['A', 'B', 'C', 'D', 'E']));
    assert_eq!(s.name, "(L)ake");
    assert_eq!(s.letter, 'L');
    assert!(!s.trapped);
    assert_eq!(s.sub_sections[3].letter, 'D');
    assert!(Section::try_new(String::from("x"), 'L', subs(['A', 'B', 'C', 'D', 'E'])).is_some());
    assert!(Section::try_new(String::from("x"), 'l', subs(['A', 'B', 'C', 'D', 'E'])).is_none());
    assert!(Section::try_new(String::from("x"), 'L', subs(['A', 'B', 'C', 'D', 'A'])).is_none());
    assert!(Section::try_new(String::from("x"), 'L', subs(['A', 'B', 'B', 'D', 'E'])).is_none());
    assert!(!has_distinct_letters(&subs(['A', 'A', 'C', 'D', 'E'])));
    let mut mixed = subs(['A', 'B', 'C', 'D', 'E']);
    mixed[4].letter = 'b';
    assert!(!has_distinct_letters(&mixed));
}

#[test]
fn error_kinds_differ() {
    assert_ne!(Error::OutOfBounds, Error::NotFound);
    assert_eq!(format!("{:?}", Error::NotFound), "NotFound");
}
