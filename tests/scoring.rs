use demonlist::demon::{Demon, MinimalDemon};
use demonlist::difficulty::Difficulty;
use demonlist::player::DatabasePlayer;
use demonlist::score::{score_segment, ScoreSegment, ScoreTerms};

fn demon(position: i16, requirement: i16) -> Demon {
    let p = DatabasePlayer { id: 1, name: "a".to_string(), banned: false };
    Demon {
        base: MinimalDemon { id: 1, position, name: "x".to_string() },
        requirement,
        video: None,
        thumbnail: String::new(),
        publisher: p.clone(),
        verifier: p,
        level_id: None,
        difficulty: Difficulty::Insane,
    }
}

#[test]
fn segments_at_boundaries() {
    assert_eq!(score_segment(0), ScoreSegment::Unscored);
    assert_eq!(score_segment(1), ScoreSegment::Top);
    assert_eq!(score_segment(3), ScoreSegment::Top);
    assert_eq!(score_segment(4), ScoreSegment::Upper);
    assert_eq!(score_segment(20), ScoreSegment::Upper);
    assert_eq!(score_segment(21), ScoreSegment::Middle);
    assert_eq!(score_segment(35), ScoreSegment::Middle);
    assert_eq!(score_segment(36), ScoreSegment::Lower);
    assert_eq!(score_segment(55), ScoreSegment::Lower);
    assert_eq!(score_segment(56), ScoreSegment::Tail);
    assert_eq!(score_segment(150), ScoreSegment::Tail);
    assert_eq!(score_segment(151), ScoreSegment::Unscored);
}

#[test]
fn below_requirement_scores_nothing() {
    assert_eq!(demon(10, 60).score_terms(59), ScoreTerms::Zero);
    assert_eq!(demon(10, 100).score_terms(99), ScoreTerms::Zero);
}

#[test]
fn full_clear_and_partial_terms() {
    assert_eq!(demon(10, 60).score_terms(100), ScoreTerms::Full { segment: ScoreSegment::Upper, position: 10 });
    assert_eq!(
        demon(40, 60).score_terms(80),
        ScoreTerms::Partial { segment: ScoreSegment::Lower, position: 40, gained: 20, span: 40 }
    );
}
