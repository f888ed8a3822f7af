use vstd::prelude::*;

verus! {

/// Every way in which an operation of this library can reject its input.
#[derive(Debug, Clone, Copy, PartialEq, Eq, Structural)]
pub enum DemonlistError {
    InvalidRequirement,
    InvalidLevelId,
    InvalidPosition { maximal: i16 },
    InvalidProgress { requirement: i16 },
    InvalidEnjoyment,
    MalformedRawUrl,
    PlayerBanned,
    SubmitLegacy,
    Non100Extended,
    RawRequired,
    InvalidDifficulty,
}

} // verus!
