//! The profile of a user.

use vstd::prelude::*;

verus! {

/// The sex that a profile records.
#[derive(Clone, Copy, Debug, PartialEq, Eq, Structural)]
pub enum Sex {
    Male,
    Female,
}

impl Sex {
    /// The name of the variant, as the profile shows it.
    pub fn to_string(&self) -> (text: String)
        ensures
            text@ == (match *self {
                Sex::Female => "Female"@,
                Sex::Male => "Male"@,
            }),
    {
        match self {
            Sex::Female => "Female".to_owned(),
            Sex::Male => "Male".to_owned(),
        }
    }
}

} // verus!
