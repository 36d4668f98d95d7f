//! Structural core of a team-based skill rating system.
//!
//! A match is a list of teams, each a non-empty list of member ratings,
//! together with a finish rank per team (lower is better, ties share a
//! value).  Updating the Gaussian beliefs and predicting outcomes is
//! floating-point work that lives outside this crate; everything the
//! update rules and predictions decide *structurally* — which inputs are
//! rejected, which degenerate inputs are returned unchanged, which pairs
//! of teams are compared under each rule, how ranks order and tie — is
//! defined and verified here.

pub mod error;
pub mod model_kind;
pub mod pairing;
pub mod ranks;
pub mod utils;
pub mod validate;
