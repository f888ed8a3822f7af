use vstd::prelude::*;

use crate::error::DemonlistError;
use crate::text::str_eq;

verus! {

/// The difficulty tiers a level can be in.
#[derive(Debug, Clone, Copy, PartialEq, Eq, Hash, Structural)]
pub enum Difficulty {
    Silent,
    Legendary,
    Extreme,
    Mythical,
    Insane,
    Hard,
    Medium,
    Easy,
    Beginner,
}

/// The lowercase token under which a difficulty is stored and shown.
pub open spec fn token(d: Difficulty) -> Seq<char> {
    match d {
        Difficulty::Silent => "silent"@,
        Difficulty::Legendary => "legendary"@,
        Difficulty::Extreme => "extreme"@,
        Difficulty::Mythical => "mythical"@,
        Difficulty::Insane => "insane"@,
        Difficulty::Hard => "hard"@,
        Difficulty::Medium => "medium"@,
        Difficulty::Easy => "easy"@,
        Difficulty::Beginner => "beginner"@,
    }
}

/// Whether `s` is the token of some difficulty.
pub open spec fn is_token(s: Seq<char>) -> bool {
    exists|d: Difficulty| token(d) == s
}

/// The lowercase form of a string, as std's `str::to_lowercase` computes it.
pub uninterp spec fn lowercase_of(s: Seq<char>) -> Seq<char>;

/// Relies on std's `str::to_lowercase`: the result depends on the characters alone.
#[verifier::external_body]
fn to_lowercase(s: &str) -> (r: String)
    ensures
        r@ == lowercase_of(s@),
{
    s.to_lowercase()
}

impl Difficulty {
    /// The token under which this difficulty is stored.
    pub fn to_sql(self) -> (r: String)
        ensures
            r@ == token(self),
    {
        match self {
            Difficulty::Silent => "silent".to_owned(),
            Difficulty::Legendary => "legendary".to_owned(),
            Difficulty::Extreme => "extreme".to_owned(),
            Difficulty::Mythical => "mythical".to_owned(),
            Difficulty::Insane => "insane".to_owned(),
            Difficulty::Hard => "hard".to_owned(),
            Difficulty::Medium => "medium".to_owned(),
            Difficulty::Easy => "easy".to_owned(),
            Difficulty::Beginner => "beginner".to_owned(),
        }
    }

    /// The difficulty whose token is exactly `s`, if there is one.
    pub fn from_token_exact(s: &str) -> (r: Option<Difficulty>)
        ensures
            r matches Some(d) ==> token(d) == s@,
            r is None <==> !is_token(s@),
    {
        let r = if str_eq(s, "silent") {
            Some(Difficulty::Silent)
        } else if str_eq(s, "legendary") {
            Some(Difficulty::Legendary)
        } else if str_eq(s, "extreme") {
            Some(Difficulty::Extreme)
        } else if str_eq(s, "mythical") {
            Some(Difficulty::Mythical)
        } else if str_eq(s, "insane") {
            Some(Difficulty::Insane)
        } else if str_eq(s, "hard") {
            Some(Difficulty::Hard)
        } else if str_eq(s, "medium") {
            Some(Difficulty::Medium)
        } else if str_eq(s, "easy") {
            Some(Difficulty::Easy)
        } else if str_eq(s, "beginner") {
            Some(Difficulty::Beginner)
        } else {
            None
        };
        proof {
            if let Some(d) = r {
                assert(token(d) == s@);
            }
            if r is None {
                assert forall|d: Difficulty| token(d) != s@ by {
                    match d {
                        Difficulty::Silent => {},
                        Difficulty::Legendary => {},
                        Difficulty::Extreme => {},
                        Difficulty::Mythical => {},
                        Difficulty::Insane => {},
                        Difficulty::Hard => {},
                        Difficulty::Medium => {},
                        Difficulty::Easy => {},
                        Difficulty::Beginner => {},
                    }
                }
            }
        }
        r
    }

    /// Reads a stored token back; the store only ever holds valid tokens.
    pub fn from_sql(sql: &str) -> (r: Difficulty)
        requires
            is_token(sql@),
        ensures
            token(r) == sql@,
    {
        match Difficulty::from_token_exact(sql) {
            Some(d) => d,
            None => Difficulty::Silent,
        }
    }

    /// Reads a difficulty from user input, ignoring letter case.
    pub fn from_token(s: &str) -> (r: Result<Difficulty, DemonlistError>)
        ensures
            r matches Ok(d) ==> token(d) == lowercase_of(s@),
            r is Err <==> !is_token(lowercase_of(s@)),
            r matches Err(e) ==> e == DemonlistError::InvalidDifficulty,
    {
        let lower = to_lowercase(s);
        match Difficulty::from_token_exact(lower.as_str()) {
            Some(d) => Ok(d),
            None => Err(DemonlistError::InvalidDifficulty),
        }
    }
}

} // verus!
