use vstd::prelude::*;

use crate::config::ListConfig;
use crate::demon::MinimalDemon;
use crate::error::DemonlistError;
use crate::player::DatabasePlayer;
use crate::record::{FullRecord, RecordStatus, Submitter};

verus! {

/// Whether a string parses as an absolute URL.
pub uninterp spec fn parses_as_url(s: Seq<char>) -> bool;

/// Relies on `url::Url::parse`: whether it returns `Ok` depends on the input's characters alone.
#[verifier::external_body]
fn is_absolute_url(s: &str) -> (r: bool)
    ensures
        r == parses_as_url(s@),
{
    url::Url::parse(s).is_ok()
}

/// What std's `str::trim` leaves of a string.
pub uninterp spec fn trimmed_of(s: Seq<char>) -> Seq<char>;

/// Relies on std's `str::trim`: the result depends on the characters alone.
#[verifier::external_body]
fn trim(s: &str) -> (r: &str)
    ensures
        r@ == trimmed_of(s@),
{
    s.trim()
}

/// A record as submitted: untrusted, with the player given by name and the demon by id.
#[derive(Debug, Clone)]
pub struct Submission {
    pub progress: i16,
    pub player: String,
    pub demon: i32,
    pub video: Option<String>,
    pub raw_footage: Option<String>,
    pub status: RecordStatus,
    pub enjoyment: Option<i16>,
    /// An initial note provided by the submitter.
    pub note: Option<String>,
}

/// A submission whose player and demon have been resolved, and whose video has been checked.
#[derive(Debug, Clone)]
pub struct NormalizedSubmission {
    pub progress: i16,
    pub player: DatabasePlayer,
    pub demon: MinimalDemon,
    pub status: RecordStatus,
    pub enjoyment: Option<i16>,
    pub video: Option<String>,
    pub raw_footage: Option<String>,
    pub note: Option<String>,
}

/// A submission that passed every rule; only such a submission can become a record.
#[derive(Debug)]
pub struct ValidatedSubmission {
    progress: i16,
    video: Option<String>,
    raw_footage: Option<String>,
    status: RecordStatus,
    player: DatabasePlayer,
    demon: MinimalDemon,
    note: Option<String>,
    enjoyment: Option<i16>,
}

/// The rules that a normalized submission must pass, in the order in which they are checked.
/// `raw_parses` tells whether the raw footage, if any, parses as a URL.
pub open spec fn verdict(
    s: NormalizedSubmission,
    config: ListConfig,
    requirement: i16,
    raw_parses: bool,
) -> Result<(), DemonlistError> {
    let open_submission = s.status == RecordStatus::Submitted;
    if s.player.banned {
        Err(DemonlistError::PlayerBanned)
    } else if s.demon.position > config.extended_list_size && open_submission {
        Err(DemonlistError::SubmitLegacy)
    } else if s.demon.position > config.list_size && s.progress != 100 && open_submission {
        Err(DemonlistError::Non100Extended)
    } else if s.progress > 100 || s.progress < requirement {
        Err(DemonlistError::InvalidProgress { requirement })
    } else if s.enjoyment matches Some(e) && (e < 0 || e > 10) {
        Err(DemonlistError::InvalidEnjoyment)
    } else if s.raw_footage is Some && !raw_parses {
        Err(DemonlistError::MalformedRawUrl)
    } else if s.raw_footage is None && open_submission {
        Err(DemonlistError::RawRequired)
    } else {
        Ok(())
    }
}

/// Whether the raw footage of `s`, if there is any, parses as a URL.
pub open spec fn raw_footage_parses(s: NormalizedSubmission) -> bool {
    match s.raw_footage {
        Some(raw) => parses_as_url(raw@),
        None => true,
    }
}

impl Submission {
    pub fn has_video(&self) -> (r: bool)
        ensures
            r == self.video is Some,
    {
        self.video.is_some()
    }

    pub fn status(&self) -> (r: RecordStatus)
        ensures
            r == self.status,
    {
        self.status
    }

    /// Replaces the submitted names and ids by the entities they were resolved to, and the video by
    /// its checked form.
    pub fn normalize(self, video: Option<String>, player: DatabasePlayer, demon: MinimalDemon) -> (r:
        NormalizedSubmission)
        requires
            video is Some <==> self.video is Some,
            demon.id == self.demon,
        ensures
            r == (NormalizedSubmission {
                progress: self.progress,
                player,
                demon,
                status: self.status,
                enjoyment: self.enjoyment,
                video,
                raw_footage: self.raw_footage,
                note: self.note,
            }),
    {
        NormalizedSubmission {
            progress: self.progress,
            player,
            demon,
            status: self.status,
            enjoyment: self.enjoyment,
            video,
            raw_footage: self.raw_footage,
            note: self.note,
        }
    }
}

impl NormalizedSubmission {
    /// Applies the rules in order, given the demon's requirement and whether the raw footage parses
    /// as a URL; the first rule that fails gives the error.
    pub fn check_rules(&self, config: &ListConfig, requirement: i16, raw_parses: bool) -> (r: Result<
        (),
        DemonlistError,
    >)
        ensures
            r == verdict(*self, *config, requirement, raw_parses),
            self.player.banned ==> r == Err::<(), DemonlistError>(DemonlistError::PlayerBanned),
            !self.player.banned && self.demon.position > config.extended_list_size && self.status
                == RecordStatus::Submitted ==> r == Err::<(), DemonlistError>(
                DemonlistError::SubmitLegacy,
            ),
            !self.player.banned && config.list_size < self.demon.position
                <= config.extended_list_size && self.progress != 100 && self.status
                == RecordStatus::Submitted ==> r == Err::<(), DemonlistError>(
                DemonlistError::Non100Extended,
            ),
            self.progress == 100 ==> r != Err::<(), DemonlistError>(DemonlistError::Non100Extended),
            self.raw_footage is None && self.status == RecordStatus::Submitted ==> r is Err,
            self.status != RecordStatus::Submitted ==> r != Err::<(), DemonlistError>(
                DemonlistError::RawRequired,
            ),
    {
        let open_submission = self.status == RecordStatus::Submitted;
        if self.player.banned {
            return Err(DemonlistError::PlayerBanned);
        }
        if self.demon.position > config.extended_list_size && open_submission {
            return Err(DemonlistError::SubmitLegacy);
        }
        if self.demon.position > config.list_size && self.progress != 100 && open_submission {
            return Err(DemonlistError::Non100Extended);
        }
        if self.progress > 100 || self.progress < requirement {
            return Err(DemonlistError::InvalidProgress { requirement });
        }
        if let Some(enjoyment) = self.enjoyment {
            if enjoyment < 0 || enjoyment > 10 {
                return Err(DemonlistError::InvalidEnjoyment);
            }
        }
        match &self.raw_footage {
            Some(_) => {
                if !raw_parses {
                    return Err(DemonlistError::MalformedRawUrl);
                }
            },
            None => {
                if open_submission {
                    return Err(DemonlistError::RawRequired);
                }
            },
        }
        Ok(())
    }

    /// Checks the submission against the list's rules, given the thresholds and the demon's
    /// current requirement.
    pub fn validate(self, config: &ListConfig, requirement: i16) -> (r: Result<
        ValidatedSubmission,
        DemonlistError,
    >)
        ensures
            r is Ok <==> verdict(self, *config, requirement, raw_footage_parses(self)) is Ok,
            r matches Err(e) ==> verdict(self, *config, requirement, raw_footage_parses(self))
                == Err::<(), DemonlistError>(e),
            r matches Ok(v) ==> v.submission() == self,
            self.player.banned ==> (r matches Err(e) && e == DemonlistError::PlayerBanned),
            !self.player.banned && self.demon.position > config.extended_list_size && self.status
                == RecordStatus::Submitted ==> (r matches Err(e) && e
                == DemonlistError::SubmitLegacy),
            self.raw_footage is None && self.status == RecordStatus::Submitted ==> r is Err,
    {
        let raw_parses = match &self.raw_footage {
            Some(raw) => is_absolute_url(raw.as_str()),
            None => true,
        };
        match self.check_rules(config, requirement, raw_parses) {
            Err(e) => Err(e),
            Ok(()) => Ok(
                ValidatedSubmission {
                    progress: self.progress,
                    video: self.video,
                    raw_footage: self.raw_footage,
                    status: self.status,
                    player: self.player,
                    demon: self.demon,
                    note: self.note,
                    enjoyment: self.enjoyment,
                },
            ),
        }
    }
}

/// A record ready to be stored, together with what storing it entails.
#[derive(Debug)]
pub struct RecordCreation {
    /// The record, already carrying its requested status.
    pub record: FullRecord,
    /// Whether the status routine must run, because the status is not the open-submission one.
    pub apply_status: bool,
    /// The note to attach, if a non-blank one was given.
    pub note: Option<String>,
    /// Whether the player's score must be recomputed.
    pub recompute_score: bool,
}

impl ValidatedSubmission {
    /// The normalized submission this one was validated from.
    pub closed spec fn submission(self) -> NormalizedSubmission {
        NormalizedSubmission {
            progress: self.progress,
            player: self.player,
            demon: self.demon,
            status: self.status,
            enjoyment: self.enjoyment,
            video: self.video,
            raw_footage: self.raw_footage,
            note: self.note,
        }
    }

    pub fn progress(&self) -> (r: i16)
        ensures
            r == self.submission().progress,
    {
        self.progress
    }

    pub fn status(&self) -> (r: RecordStatus)
        ensures
            r == self.submission().status,
    {
        self.status
    }

    /// Builds the record stored under `id`, given whether the note (if any) is blank once trimmed.
    pub fn plan_creation(self, id: i32, submitter: Submitter, note_is_blank: bool) -> (r:
        RecordCreation)
        ensures
            r.record == (FullRecord {
                id,
                progress: self.submission().progress,
                video: self.submission().video,
                raw_footage: self.submission().raw_footage,
                status: self.submission().status,
                enjoyment: self.submission().enjoyment,
                player: self.submission().player,
                demon: self.submission().demon,
                submitter: Some(submitter),
            }),
            r.apply_status == (self.submission().status != RecordStatus::Submitted),
            r.recompute_score == (self.submission().status != RecordStatus::Submitted),
            r.note == (if note_is_blank {
                None
            } else {
                self.submission().note
            }),
    {
        let changed = self.status != RecordStatus::Submitted;
        let note = if note_is_blank {
            None
        } else {
            self.note
        };
        RecordCreation {
            record: FullRecord {
                id,
                progress: self.progress,
                video: self.video,
                raw_footage: self.raw_footage,
                status: self.status,
                enjoyment: self.enjoyment,
                player: self.player,
                demon: self.demon,
                submitter: Some(submitter),
            },
            apply_status: changed,
            note,
            recompute_score: changed,
        }
    }

    /// Builds the record stored under `id`; a note that is blank once trimmed is dropped.
    pub fn create(self, id: i32, submitter: Submitter) -> (r: RecordCreation)
        ensures
            r.record == (FullRecord {
                id,
                progress: self.submission().progress,
                video: self.submission().video,
                raw_footage: self.submission().raw_footage,
                status: self.submission().status,
                enjoyment: self.submission().enjoyment,
                player: self.submission().player,
                demon: self.submission().demon,
                submitter: Some(submitter),
            }),
            r.apply_status == (self.submission().status != RecordStatus::Submitted),
            r.recompute_score == r.apply_status,
            r.note == (match self.submission().note {
                Some(n) => if trimmed_of(n@).len() == 0 {
                    None
                } else {
                    Some(n)
                },
                None => None,
            }),
    {
        let blank = match &self.note {
            Some(n) => trim(n.as_str()).is_empty(),
            None => true,
        };
        self.plan_creation(id, submitter, blank)
    }
}

} // verus!
