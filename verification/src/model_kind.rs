use vstd::prelude::*;

verus! {

/// The five interchangeable update rules.  Each consumes the same
/// team aggregates and finish ranks and produces new member ratings;
/// they differ in which teams are compared (all others, or only the
/// ladder-adjacent ones) and in the influence functions they apply.
#[derive(Debug, Clone, Copy, PartialEq, Eq, Default)]
pub enum ModelKind {
    #[default]
    PlackettLuce,
    BradleyTerryPart,
    BradleyTerryFull,
    ThurstoneMostellerPart,
    ThurstoneMostellerFull,
}

} // verus!
