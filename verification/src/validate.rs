use crate::error::OpenSkillError;
use vstd::prelude::*;

verus! {

/// Holds when every team in the list has at least one member.
pub open spec fn all_teams_filled<T>(teams: Seq<Vec<T>>) -> bool {
    forall|i: int| 0 <= i < teams.len() ==> (#[trigger] teams[i])@.len() > 0
}

/// Rejects a team list in which some team has no members.  The member
/// type is immaterial: only the shape of the input is read.
pub fn validate_team<T>(teams: &Vec<Vec<T>>) -> (r: Result<(), OpenSkillError>)
    ensures
        match r {
            Ok(()) => all_teams_filled(teams@),
            Err(OpenSkillError::InvalidTeamCount(m)) => !all_teams_filled(teams@)
                && m@ == "team must contain atleast 1 player"@,
            Err(OpenSkillError::EmptyTeams) => false,
        },
{
    let n = teams.len();
    let mut i: usize = 0;
    while i < n
        invariant
            n == teams@.len(),
            i <= n,
            forall|j: int| 0 <= j < i ==> (#[trigger] teams@[j])@.len() > 0,
        decreases n - i,
    {
        if teams[i].len() < 1 {
            return Err(OpenSkillError::InvalidTeamCount("team must contain atleast 1 player"));
        }
        i = i + 1;
    }
    Ok(())
}

/// What the rating update should do with a team list, decided before
/// any numeric work.
#[derive(Debug, Clone, Copy, PartialEq, Eq, Structural)]
pub enum RateDecision {
    /// A single team: no comparison is possible, the input is returned
    /// unchanged.
    Unchanged,
    /// At least two teams, all with members: run the configured rule.
    Update,
}

/// Decides, before any numeric work, what the rating update does with
/// its input: an empty team list is rejected, a single team is a no-op
/// returned unchanged, and a team without members is rejected once a
/// real update would have to read it.
pub fn rate_decision<T>(teams: &Vec<Vec<T>>) -> (r: Result<RateDecision, OpenSkillError>)
    ensures
        match r {
            Ok(RateDecision::Unchanged) => teams@.len() == 1,
            Ok(RateDecision::Update) => teams@.len() >= 2 && all_teams_filled(teams@),
            Err(OpenSkillError::InvalidTeamCount(m)) => teams@.len() == 0 && m@ == "0"@,
            Err(OpenSkillError::EmptyTeams) => teams@.len() >= 2 && !all_teams_filled(teams@),
        },
{
    let n = teams.len();
    if n == 0 {
        return Err(OpenSkillError::InvalidTeamCount("0"));
    }
    if n < 2 {
        return Ok(RateDecision::Unchanged);
    }
    let mut i: usize = 0;
    while i < n
        invariant
            n == teams@.len(),
            2 <= n,
            i <= n,
            forall|j: int| 0 <= j < i ==> (#[trigger] teams@[j])@.len() > 0,
        decreases n - i,
    {
        if teams[i].len() == 0 {
            proof {
                assert(teams@[i as int]@.len() == 0);
            }
            return Err(OpenSkillError::EmptyTeams);
        }
        i = i + 1;
    }
    Ok(RateDecision::Update)
}

/// What the draw prediction should do with a team list, decided before
/// any numeric work.
#[derive(Debug, Clone, Copy, PartialEq, Eq, Structural)]
pub enum DrawDecision {
    /// A single team can only draw with itself: the probability is one.
    Certain,
    /// Two or more well-formed teams: estimate from the aggregates.
    Estimate,
}

/// Decides, before any numeric work, what the draw prediction does
/// with its input: a team without members is rejected first, then an
/// empty team list, and a single team is a certain draw.
pub fn predict_draw_decision<T>(teams: &Vec<Vec<T>>) -> (r: Result<DrawDecision, OpenSkillError>)
    ensures
        match r {
            Ok(DrawDecision::Certain) => teams@.len() == 1 && all_teams_filled(teams@),
            Ok(DrawDecision::Estimate) => teams@.len() >= 2 && all_teams_filled(teams@),
            Err(OpenSkillError::InvalidTeamCount(m)) => (teams@.len() == 0 || !all_teams_filled(
                teams@,
            )) && m@ == "team must contain atleast 1 player"@,
            Err(OpenSkillError::EmptyTeams) => false,
        },
{
    match validate_team(teams) {
        Err(e) => Err(e),
        Ok(()) => {
            if teams.len() == 0 {
                Err(OpenSkillError::InvalidTeamCount("team must contain atleast 1 player"))
            } else if teams.len() == 1 {
                Ok(DrawDecision::Certain)
            } else {
                Ok(DrawDecision::Estimate)
            }
        },
    }
}

} // verus!
