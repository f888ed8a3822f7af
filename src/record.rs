use vstd::prelude::*;

use crate::demon::MinimalDemon;
use crate::player::DatabasePlayer;

verus! {

/// Where a record stands on its way to acceptance.
#[derive(Debug, Clone, Copy, PartialEq, Eq, Hash, Structural)]
pub enum RecordStatus {
    /// The state of every openly submitted record.
    Submitted,
    Approved,
    Rejected,
    UnderConsideration,
}

/// A record as it appears inside a demon: without the demon.
#[derive(Debug, Clone, PartialEq, Eq, Hash)]
pub struct MinimalRecordP {
    pub id: i32,
    pub progress: i16,
    pub video: Option<String>,
    pub status: RecordStatus,
    pub player: DatabasePlayer,
}

/// The account that submitted a record.
#[derive(Debug, Clone, Copy, PartialEq, Eq, Hash, Structural)]
pub struct Submitter {
    pub id: i32,
}

/// A stored record with everything it refers to.
#[derive(Debug, Clone, PartialEq, Eq, Hash)]
pub struct FullRecord {
    pub id: i32,
    pub progress: i16,
    pub video: Option<String>,
    pub raw_footage: Option<String>,
    pub status: RecordStatus,
    pub enjoyment: Option<i16>,
    pub player: DatabasePlayer,
    pub demon: MinimalDemon,
    /// Absent for records entered directly by a list moderator.
    pub submitter: Option<Submitter>,
}

} // verus!
