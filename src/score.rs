use vstd::prelude::*;

use crate::demon::Demon;

verus! {

/// The position ranges of the list, each scored by a formula of its own.
#[derive(Debug, Clone, Copy, PartialEq, Eq, Hash, Structural)]
pub enum ScoreSegment {
    /// Positions 1 to 3: a linear formula.
    Top,
    /// Positions 4 to 20.
    Upper,
    /// Positions 21 to 35.
    Middle,
    /// Positions 36 to 55.
    Lower,
    /// Positions 56 to 150.
    Tail,
    /// Every other position: worth nothing.
    Unscored,
}

/// The segment whose formula scores `position`.
pub open spec fn segment_of(position: int) -> ScoreSegment {
    if 1 <= position <= 3 {
        ScoreSegment::Top
    } else if 4 <= position <= 20 {
        ScoreSegment::Upper
    } else if 21 <= position <= 35 {
        ScoreSegment::Middle
    } else if 36 <= position <= 55 {
        ScoreSegment::Lower
    } else if 56 <= position <= 150 {
        ScoreSegment::Tail
    } else {
        ScoreSegment::Unscored
    }
}

/// How a record's score is made up from its demon's position and its progress.
#[derive(Debug, Clone, Copy, PartialEq, Eq, Hash, Structural)]
pub enum ScoreTerms {
    /// The record is below the requirement and scores nothing.
    Zero,
    /// A full clear: the segment's score for the position.
    Full { segment: ScoreSegment, position: i16 },
    /// A partial record: the full score times `5^(gained / span) / 10`.
    Partial { segment: ScoreSegment, position: i16, gained: i32, span: i32 },
}

/// The terms of the score that `progress` earns on a demon at `position` with `requirement`.
pub open spec fn score_terms_of(position: i16, requirement: i16, progress: i16) -> ScoreTerms {
    if progress < requirement {
        ScoreTerms::Zero
    } else if progress == 100 {
        ScoreTerms::Full { segment: segment_of(position as int), position }
    } else {
        ScoreTerms::Partial {
            segment: segment_of(position as int),
            position,
            gained: (progress - requirement) as i32,
            span: (100 - requirement) as i32,
        }
    }
}

/// The segment whose formula scores `position`.
pub fn score_segment(position: i16) -> (r: ScoreSegment)
    ensures
        r == segment_of(position as int),
{
    if 1 <= position && position <= 3 {
        ScoreSegment::Top
    } else if 4 <= position && position <= 20 {
        ScoreSegment::Upper
    } else if 21 <= position && position <= 35 {
        ScoreSegment::Middle
    } else if 36 <= position && position <= 55 {
        ScoreSegment::Lower
    } else if 56 <= position && position <= 150 {
        ScoreSegment::Tail
    } else {
        ScoreSegment::Unscored
    }
}

impl Demon {
    /// The terms of the score that a record with `progress` earns on this demon.
    pub fn score_terms(&self, progress: i16) -> (r: ScoreTerms)
        ensures
            r == score_terms_of(self.base.position, self.requirement, progress),
            progress < self.requirement ==> r == ScoreTerms::Zero,
            progress == 100 && self.requirement <= 100 ==> r is Full,
            progress <= 100 ==> (r matches ScoreTerms::Partial { gained, span, .. } ==> 0 <= gained
                < span),
    {
        let position = self.base.position;
        if progress < self.requirement {
            ScoreTerms::Zero
        } else if progress == 100 {
            ScoreTerms::Full { segment: score_segment(position), position }
        } else {
            ScoreTerms::Partial {
                segment: score_segment(position),
                position,
                gained: progress as i32 - self.requirement as i32,
                span: 100 - self.requirement as i32,
            }
        }
    }
}

} // verus!
