use vstd::prelude::*;
use vstd::string::StringExecFns;

verus! {

/// The two ways a rating update or prediction can reject its input.
/// Both are detected before any numeric work starts.
#[derive(Debug, Clone, Copy, PartialEq, Eq)]
pub enum OpenSkillError {
    /// A team in the input has no members (reported by the rating update).
    EmptyTeams,
    /// The team list as a whole is unusable; carries a human-readable
    /// reason (reported with "0" for an empty list handed to the rating
    /// update, and with a longer message by the predictions).
    InvalidTeamCount(&'static str),
}

impl OpenSkillError {
    /// Human-readable description of the error.
    pub fn message(&self) -> (s: String)
        ensures
            self matches OpenSkillError::EmptyTeams ==> s@ == "Empty teams"@,
            self matches OpenSkillError::InvalidTeamCount(m) ==> s@ == "Invalid team count "@ + m@,
    {
        match self {
            OpenSkillError::EmptyTeams => "Empty teams".to_owned(),
            OpenSkillError::InvalidTeamCount(m) => {
                let mut s = "Invalid team count ".to_owned();
                s.append(m);
                s
            },
        }
    }
}

} // verus!
