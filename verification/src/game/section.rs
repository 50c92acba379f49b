use vstd::prelude::*;
use crate::game::identifier::{
    ascii_capital, is_valid_letter, letters_match, same_letter, valid_letter,
};
use crate::game::sub_section::SubSection;

verus! {

/// Total number of sub-sections contained within a section.
pub const SUB_SECTION_COUNT: usize = 5;

/// A section which contains `SUB_SECTION_COUNT` sub-sections the victim and killer might search.
pub struct Section {
    /// Name of the section.
    pub name: String,
    /// Letter identifying the section.
    pub letter: char,
    /// Sub-sections.
    pub sub_sections: [SubSection; SUB_SECTION_COUNT],
    /// A flag indicating if the section is trapped or not.
    pub trapped: bool,
}

/// No two of the sub-sections carry the same letter, without regard to
/// ASCII case.
pub open spec fn distinct_letters(subs: Seq<SubSection>) -> bool {
    forall|i: int, j: int|
        0 <= i < j < subs.len() ==> !same_letter(#[trigger] subs[i].letter, #[trigger] subs[j].letter)
}

/// Tests whether no two of the sub-sections carry the same letter.
pub fn has_distinct_letters(subs: &[SubSection; SUB_SECTION_COUNT]) -> (r: bool)
    ensures
        r == distinct_letters(subs@),
{
    let mut j: usize = 1;
    while j < SUB_SECTION_COUNT
        invariant
            1 <= j <= SUB_SECTION_COUNT,
            forall|a: int, b: int|
                0 <= a < b < j ==> !same_letter(
                    #[trigger] subs@[a].letter,
                    #[trigger] subs@[b].letter,
                ),
        decreases SUB_SECTION_COUNT - j,
    {
        let mut i: usize = 0;
        while i < j
            invariant
                i <= j < SUB_SECTION_COUNT,
                forall|a: int|
                    0 <= a < i ==> !same_letter(#[trigger] subs@[a].letter, subs@[j as int].letter),
            decreases j - i,
        {
            if letters_match(subs[i].letter, subs[j].letter) {
                return false;
            }
            i += 1;
        }
        j += 1;
    }
    true
}

impl Section {
    /// Constructs an untrapped section given a `name`, a `letter` and its `sub_sections`.
    ///
    /// `letter` must be an uppercase letter, and the sub-sections' letters
    /// must differ from each other.
    pub fn new(name: String, letter: char, sub_sections: [SubSection; SUB_SECTION_COUNT]) -> (r:
        Section)
        requires
            valid_letter(letter),
            distinct_letters(sub_sections@),
        ensures
            r.name == name,
            r.letter == letter,
            r.sub_sections == sub_sections,
            !r.trapped,
    {
        Section { name, letter, sub_sections, trapped: false }
    }

    /// Constructs a section if `letter` is an uppercase letter and no two
    /// sub-sections share a letter, and gives `None` otherwise.
    pub fn try_new(name: String, letter: char, sub_sections: [SubSection; SUB_SECTION_COUNT]) -> (r:
        Option<Section>)
        ensures
            r.is_some() == (valid_letter(letter) && distinct_letters(sub_sections@)),
            ascii_capital(letter) && distinct_letters(sub_sections@) ==> r.is_some(),
            r.is_some() ==> r.unwrap().name == name && r.unwrap().letter == letter
                && r.unwrap().sub_sections == sub_sections && !r.unwrap().trapped,
    {
        if is_valid_letter(letter) && has_distinct_letters(&sub_sections) {
            Some(Section::new(name, letter, sub_sections))
        } else {
            None
        }
    }
}

} // verus!
