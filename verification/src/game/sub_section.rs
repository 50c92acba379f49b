use vstd::prelude::*;
use crate::game::identifier::{ascii_capital, is_valid_letter, valid_letter};

verus! {

/// A sub-section contained within a section.
pub struct SubSection {
    /// Name of the sub-section.
    pub name: String,
    /// Letter identifying the sub-section within its section.
    pub letter: char,
    /// Whether a part is hidden in the sub-section.
    pub part: bool,
}

impl SubSection {
    /// Constructs a sub-section given a `name`, a `letter` and whether it holds a `part`.
    ///
    /// `letter` must be an uppercase letter.
    pub fn new(name: String, letter: char, part: bool) -> (r: SubSection)
        requires
            valid_letter(letter),
        ensures
            r.name == name,
            r.letter == letter,
            r.part == part,
    {
        SubSection { name, letter, part }
    }

    /// Constructs a sub-section if `letter` is an uppercase letter, and gives
    /// `None` otherwise.
    pub fn try_new(name: String, letter: char, part: bool) -> (r: Option<SubSection>)
        ensures
            r.is_some() == valid_letter(letter),
            ascii_capital(letter) ==> r.is_some(),
            r.is_some() ==> r.unwrap().name == name && r.unwrap().letter == letter
                && r.unwrap().part == part,
    {
        if is_valid_letter(letter) {
            Some(SubSection::new(name, letter, part))
        } else {
            None
        }
    }
}

} // verus!
