use openskill::error::OpenSkillError;
use openskill::model_kind::ModelKind;

#[test]
fn empty_teams_message() {
    assert_eq!(OpenSkillError::EmptyTeams.message(), "Empty teams");
}

#[test]
fn invalid_team_count_message_carries_the_reason() {
    assert_eq!(
        OpenSkillError::InvalidTeamCount("0").message(),
        "Invalid team count 0"
    );
}

#[test]
fn error_values_compare_by_contents() {
    assert_eq!(
        OpenSkillError::InvalidTeamCount("0"),
        OpenSkillError::InvalidTeamCount("0")
    );
    assert_ne!(
        OpenSkillError::EmptyTeams,
        OpenSkillError::InvalidTeamCount("0")
    );
}

#[test]
fn default_model_kind_is_plackett_luce() {
    assert_eq!(ModelKind::default(), ModelKind::PlackettLuce);
}
