use vstd::prelude::*;

use crate::text::str_eq;

verus! {

/// A player as stored: the identifying key, the name and whether the player is banned.
#[derive(Debug, Clone, PartialEq, Eq, Hash)]
pub struct DatabasePlayer {
    pub id: i32,
    pub name: String,
    pub banned: bool,
}

/// The player at index `i` of `s` is called `name`.
pub open spec fn named(s: Seq<DatabasePlayer>, name: Seq<char>, i: int) -> bool {
    0 <= i < s.len() && s[i].name@ == name
}

/// `i` is the first index of `s` whose player is called `name`.
pub open spec fn first_named(s: Seq<DatabasePlayer>, name: Seq<char>, i: int) -> bool {
    named(s, name, i) && forall|k: int| 0 <= k < i ==> !#[trigger] named(s, name, k)
}

/// Some player of `s` is called `name`.
pub open spec fn known(s: Seq<DatabasePlayer>, name: Seq<char>) -> bool {
    exists|i: int| #[trigger] named(s, name, i)
}

/// Resolving `name` against the players `before` gives the player `r` and leaves the players
/// `after`: the first player of that name if there is one, with nothing changed; else a new,
/// unbanned player of that name, added at the end under the next id.
pub open spec fn resolves(
    before: Seq<DatabasePlayer>,
    name: Seq<char>,
    after: Seq<DatabasePlayer>,
    r: DatabasePlayer,
) -> bool {
    if known(before, name) {
        after == before && exists|i: int| #[trigger] first_named(before, name, i) && r == before[i]
    } else {
        &&& after == before.push(r)
        &&& r.name@ == name
        &&& r.id == before.len() + 1
        &&& !r.banned
    }
}

/// Resolving a name twice gives the same player the second time, and the second resolution
/// changes nothing.
pub proof fn lemma_resolution_idempotent(
    s0: Seq<DatabasePlayer>,
    name: Seq<char>,
    s1: Seq<DatabasePlayer>,
    r1: DatabasePlayer,
    s2: Seq<DatabasePlayer>,
    r2: DatabasePlayer,
)
    requires
        resolves(s0, name, s1, r1),
        resolves(s1, name, s2, r2),
    ensures
        r2 == r1,
        s2 == s1,
{
    if known(s0, name) {
        let i = choose|i: int| #[trigger] first_named(s0, name, i) && r1 == s0[i];
        let j = choose|j: int| #[trigger] first_named(s1, name, j) && r2 == s1[j];
        if i < j {
            assert(!named(s1, name, i));
        } else if j < i {
            assert(!named(s0, name, j));
        }
    } else {
        let n = s0.len() as int;
        assert(named(s1, name, n));
        assert(known(s1, name));
        let j = choose|j: int| #[trigger] first_named(s1, name, j) && r2 == s1[j];
        if j < n {
            assert(s1[j] == s0[j]);
            assert(named(s0, name, j));
        } else if j > n {
            assert(!named(s1, name, n));
        }
    }
}

/// The players known by name.
pub struct PlayerRegistry {
    players: Vec<DatabasePlayer>,
}

impl View for PlayerRegistry {
    type V = Seq<DatabasePlayer>;

    closed spec fn view(&self) -> Seq<DatabasePlayer> {
        self.players@
    }
}

impl PlayerRegistry {
    /// The registry with no players.
    pub fn new() -> (r: PlayerRegistry)
        ensures
            r@.len() == 0,
    {
        PlayerRegistry { players: Vec::new() }
    }

    /// The players, in the order in which they were created.
    pub fn players(&self) -> (r: &Vec<DatabasePlayer>)
        ensures
            r@ == self@,
    {
        &self.players
    }

    /// The player called `name`, created unbanned under the next id if there is none yet.
    pub fn by_name_or_create(&mut self, name: &str) -> (r: DatabasePlayer)
        requires
            old(self)@.len() < i32::MAX,
        ensures
            resolves(old(self)@, name@, final(self)@, r),
    {
        let mut i: usize = 0;
        while i < self.players.len()
            invariant
                i <= self@.len(),
                forall|k: int| 0 <= k < i ==> !#[trigger] named(self@, name@, k),
            decreases self@.len() - i,
        {
            let p = &self.players[i];
            if str_eq(p.name.as_str(), name) {
                let found = DatabasePlayer { id: p.id, name: p.name.clone(), banned: p.banned };
                proof {
                    assert(first_named(self@, name@, i as int));
                }
                return found;
            }
            i = i + 1;
        }
        proof {
            assert forall|k: int| !#[trigger] named(self@, name@, k) by {
                if 0 <= k < self@.len() {
                }
            }
        }
        let created = DatabasePlayer {
            id: self.players.len() as i32 + 1,
            name: name.to_owned(),
            banned: false,
        };
        let stored = DatabasePlayer {
            id: created.id,
            name: created.name.clone(),
            banned: created.banned,
        };
        self.players.push(stored);
        created
    }
}

} // verus!
