use vstd::prelude::*;

use crate::difficulty::Difficulty;
use crate::error::DemonlistError;
use crate::player::DatabasePlayer;
use crate::record::MinimalRecordP;

verus! {

/// Absolutely minimal representation of a demon, used where a demon is part of another object.
#[derive(Debug, Clone, PartialEq, Eq, Hash)]
pub struct MinimalDemon {
    /// The demon's unique internal id.
    pub id: i32,
    /// The demon's position on the list; positions of all demons are consecutive positive integers.
    pub position: i16,
    /// The level's name, which need not be unique.
    pub name: String,
}

/// A demon on the list.
#[derive(Debug, Clone, PartialEq, Eq, Hash)]
pub struct Demon {
    pub base: MinimalDemon,
    /// The minimal progress a player must achieve for a record to be accepted.
    pub requirement: i16,
    pub video: Option<String>,
    pub thumbnail: String,
    pub publisher: DatabasePlayer,
    pub verifier: DatabasePlayer,
    /// The level's id in the game, if known.
    pub level_id: Option<u64>,
    pub difficulty: Difficulty,
}

/// A demon together with its creators and its accepted records.
#[derive(Debug, Clone, PartialEq, Eq, Hash)]
pub struct FullDemon {
    pub demon: Demon,
    pub creators: Vec<DatabasePlayer>,
    pub records: Vec<MinimalRecordP>,
}

/// A demon as it is now, together with the position it held at some earlier time.
#[derive(Debug, Clone, PartialEq, Eq, Hash)]
pub struct TimeShiftedDemon {
    pub current_demon: Demon,
    pub position_now: i16,
}

impl FullDemon {
    pub fn position(&self) -> (r: i16)
        ensures
            r == self.demon.base.position,
    {
        self.demon.base.position
    }

    pub fn name(&self) -> (r: &str)
        ensures
            r@ == self.demon.base.name@,
    {
        self.demon.base.name.as_str()
    }
}

impl Demon {
    /// Accepts a requirement in `[0, 100]`.
    pub fn validate_requirement(requirement: i16) -> (r: Result<(), DemonlistError>)
        ensures
            r is Ok <==> 0 <= requirement <= 100,
            r matches Err(e) ==> e == DemonlistError::InvalidRequirement,
    {
        if requirement < 0 || requirement > 100 {
            return Err(DemonlistError::InvalidRequirement);
        }
        Ok(())
    }

    /// Accepts a positive level id and gives it in unsigned form.
    pub fn validate_level_id(level_id: i64) -> (r: Result<u64, DemonlistError>)
        ensures
            r is Ok <==> level_id >= 1,
            r matches Ok(v) ==> v as int == level_id as int,
            r matches Err(e) ==> e == DemonlistError::InvalidLevelId,
    {
        if level_id < 1 {
            return Err(DemonlistError::InvalidLevelId);
        }
        Ok(level_id as u64)
    }
}


/// The largest number of demons a list can hold: every position, and the position one past the
/// last, must fit in an `i16`.
pub const MAX_DEMONS: usize = 32766;

/// `d` after every position from `starting_at` on has moved down by one.
pub open spec fn shifted(d: MinimalDemon, starting_at: int) -> MinimalDemon {
    if d.position >= starting_at {
        MinimalDemon { position: (d.position + 1) as i16, ..d }
    } else {
        d
    }
}

/// Some demon of `s` is at position `p`.
pub open spec fn held(s: Seq<MinimalDemon>, p: int) -> bool {
    exists|i: int| 0 <= i < s.len() && s[i].position == p
}

/// The set of positions held by the demons of `s`.
pub open spec fn position_set(s: Seq<MinimalDemon>) -> Set<int> {
    Set::new(|p: int| held(s, p))
}

/// No two demons of `s` share a position.
pub open spec fn positions_distinct(s: Seq<MinimalDemon>) -> bool {
    forall|i: int, j: int|
        0 <= i < s.len() && 0 <= j < s.len() && i != j ==> s[i].position != s[j].position
}

/// The positions of `s` are exactly `1, ..., s.len()`, each held once.
pub open spec fn contiguous(s: Seq<MinimalDemon>) -> bool {
    &&& positions_distinct(s)
    &&& position_set(s) == Set::new(|p: int| 1 <= p <= s.len())
}

/// Every position lies in `[1, s.len()]`.
pub open spec fn positions_in_range(s: Seq<MinimalDemon>) -> bool {
    forall|i: int| 0 <= i < s.len() ==> 1 <= #[trigger] s[i].position <= s.len()
}

/// Every position of `[1, s.len()]` is held.
pub open spec fn positions_covered(s: Seq<MinimalDemon>) -> bool {
    forall|p: int| 1 <= p <= s.len() ==> #[trigger] held(s, p)
}

/// The three facts that the list maintains make its positions contiguous.
pub proof fn lemma_contiguous(s: Seq<MinimalDemon>)
    requires
        positions_distinct(s),
        positions_in_range(s),
        positions_covered(s),
    ensures
        contiguous(s),
{
    assert forall|p: int| position_set(s).contains(p) <==> 1 <= p <= s.len() by {
        if position_set(s).contains(p) {
            let i = choose|i: int| 0 <= i < s.len() && s[i].position == p;
            assert(1 <= s[i].position <= s.len());
        }
    }
    assert(position_set(s) =~= Set::new(|p: int| 1 <= p <= s.len()));
}

/// The demons of the list, each with a position; positions form the run `1, ..., N`.
pub struct DemonList {
    demons: Vec<MinimalDemon>,
}

impl View for DemonList {
    type V = Seq<MinimalDemon>;

    closed spec fn view(&self) -> Seq<MinimalDemon> {
        self.demons@
    }
}

impl DemonList {
    /// The list is no longer than `MAX_DEMONS` and its positions are `1, ..., N`.
    pub open spec fn wf(&self) -> bool {
        &&& self@.len() <= MAX_DEMONS
        &&& positions_distinct(self@)
        &&& positions_in_range(self@)
        &&& positions_covered(self@)
    }

    /// The empty list.
    pub fn new() -> (r: DemonList)
        ensures
            r.wf(),
            r@.len() == 0,
    {
        DemonList { demons: Vec::new() }
    }

    /// The demons, in the order in which they were added.
    pub fn demons(&self) -> (r: &Vec<MinimalDemon>)
        ensures
            r@ == self@,
    {
        &self.demons
    }

    /// Adds a demon at its position, moving every demon at or below that position down by one.
    /// The position must lie in `[1, N + 1]`.
    pub fn insert(&mut self, demon: MinimalDemon) -> (r: Result<(), DemonlistError>)
        requires
            old(self).wf(),
            old(self)@.len() < MAX_DEMONS,
        ensures
            final(self).wf(),
            contiguous(final(self)@),
            r is Ok <==> 1 <= demon.position <= old(self)@.len() + 1,
            r matches Err(e) ==> e == (DemonlistError::InvalidPosition {
                maximal: (old(self)@.len() + 1) as i16,
            }) && final(self)@ == old(self)@,
            r is Ok ==> final(self)@ == old(self)@.map_values(
                |d: MinimalDemon| shifted(d, demon.position as int),
            ).push(demon),
    {
        let v = Demon::validate_position(demon.position, self);
        if v.is_err() {
            proof {
                lemma_contiguous(self@);
            }
            return v;
        }
        let ghost before = self@;
        let ghost t = demon.position as int;
        Demon::shift_down(demon.position, self);
        self.demons.push(demon);
        proof {
            let s = self@;
            let n = before.len();
            assert(s.len() == n + 1);
            assert forall|i: int| 0 <= i < s.len() implies 1 <= #[trigger] s[i].position <= s.len() by {
                if i < n {
                    assert(s[i] == shifted(before[i], t));
                }
            }
            assert forall|i: int, j: int|
                0 <= i < s.len() && 0 <= j < s.len() && i != j implies s[i].position
                != s[j].position by {
                if i < n {
                    assert(s[i] == shifted(before[i], t));
                }
                if j < n {
                    assert(s[j] == shifted(before[j], t));
                }
            }
            assert forall|p: int| 1 <= p <= s.len() implies #[trigger] held(s, p) by {
                if p < t {
                    assert(held(before, p));
                    let k = choose|k: int| 0 <= k < n && before[k].position == p;
                    assert(s[k] == shifted(before[k], t));
                    assert(s[k].position == p);
                } else if p == t {
                    assert(s[n as int].position == p);
                } else {
                    assert(held(before, p - 1));
                    let k = choose|k: int| 0 <= k < n && before[k].position == p - 1;
                    assert(s[k] == shifted(before[k], t));
                    assert(s[k].position == p);
                }
            }
            assert(s =~= before.map_values(|d: MinimalDemon| shifted(d, t)).push(demon));
            lemma_contiguous(s);
        }
        Ok(())
    }
}

impl Demon {
    /// The highest position a demon holds, or `0` where the list is empty.
    pub fn max_position(list: &DemonList) -> (r: i16)
        requires
            list.wf(),
        ensures
            r as int == list@.len(),
            forall|i: int| 0 <= i < list@.len() ==> list@[i].position <= r,
    {
        let mut m: i16 = 0;
        let mut i: usize = 0;
        while i < list.demons.len()
            invariant
                list.wf(),
                i <= list@.len(),
                0 <= m <= list@.len(),
                forall|k: int| 0 <= k < i ==> list@[k].position <= m,
                m == 0 || exists|k: int| 0 <= k < i && list@[k].position == m,
            decreases list@.len() - i,
        {
            let p = list.demons[i].position;
            if p > m {
                m = p;
            }
            i = i + 1;
        }
        proof {
            let n = list@.len() as int;
            if n > 0 {
                assert(held(list@, n));
                let k = choose|k: int| 0 <= k < n && list@[k].position == n;
                assert(list@[k].position <= m);
            }
        }
        m
    }

    /// Accepts a position in `[1, N + 1]`, where `N` is the highest position held.
    pub fn validate_position(position: i16, list: &DemonList) -> (r: Result<(), DemonlistError>)
        requires
            list.wf(),
        ensures
            r is Ok <==> 1 <= position <= list@.len() + 1,
            r matches Err(e) ==> e == (DemonlistError::InvalidPosition {
                maximal: (list@.len() + 1) as i16,
            }),
    {
        let maximal_position = Demon::max_position(list) + 1;
        if position > maximal_position || position < 1 {
            return Err(DemonlistError::InvalidPosition { maximal: maximal_position });
        }
        Ok(())
    }

    /// Moves every demon at `starting_at` or below down by one position.
    fn shift_down(starting_at: i16, list: &mut DemonList)
        requires
            old(list).wf(),
        ensures
            final(list)@ == old(list)@.map_values(|d: MinimalDemon| shifted(d, starting_at as int)),
    {
        let ghost before = list@;
        let mut i: usize = 0;
        while i < list.demons.len()
            invariant
                list@.len() == before.len(),
                before.len() <= MAX_DEMONS,
                positions_in_range(before),
                i <= list@.len(),
                forall|k: int| 0 <= k < i ==> list@[k] == shifted(before[k], starting_at as int),
                forall|k: int| i <= k < list@.len() ==> list@[k] == before[k],
            decreases list@.len() - i,
        {
            let d = &list.demons[i];
            if d.position >= starting_at {
                assert(1 <= before[i as int].position <= before.len());
                let moved = MinimalDemon { id: d.id, position: d.position + 1, name: d.name.clone() };
                list.demons.set(i, moved);
            }
            i = i + 1;
        }
        assert(list@ =~= before.map_values(|d: MinimalDemon| shifted(d, starting_at as int)));
    }
}

} // verus!
