use vstd::prelude::*;

use crate::error::{GameError, InputIssue};

verus! {

/// The number of players at the table.
pub const NUM_PLAYERS: usize = 4;

/// A player's position in the registry, assigned when the player is added.
#[derive(Debug, Clone, Copy, PartialEq, Eq, Structural)]
pub struct PlayerId(pub usize);

impl PlayerId {
    pub fn new(id: usize) -> (r: PlayerId)
        ensures
            r.0 == id,
    {
        PlayerId(id)
    }
}

#[derive(Debug, Clone)]
pub struct Player {
    pub id: PlayerId,
    pub name: String,
    pub score: i64,
}

/// The names of a sequence of players, in order.
pub open spec fn names_of(ps: Seq<Player>) -> Seq<Seq<char>> {
    ps.map_values(|p: Player| p.name@)
}

/// Whether some player of `ps` is called `name`.
pub open spec fn has_name(ps: Seq<Player>, name: Seq<char>) -> bool {
    exists|i: int| 0 <= i < ps.len() && ps[i].name@ == name
}

/// The id of the player of `ps` called `name`, if there is one.
pub open spec fn id_of(ps: Seq<Player>, name: Seq<char>) -> Option<PlayerId> {
    if has_name(ps, name) {
        Some(PlayerId((choose|i: int| 0 <= i < ps.len() && ps[i].name@ == name) as usize))
    } else {
        None
    }
}

/// An id found by name lies within the registry.
pub proof fn lemma_id_of_in_range(ps: Seq<Player>, name: Seq<char>)
    requires
        ps.len() <= NUM_PLAYERS,
    ensures
        id_of(ps, name) matches Some(id) ==> id.0 < ps.len() && ps[id.0 as int].name@ == name,
{
}

/// What adding a player called `name` to `ps` returns.
pub open spec fn add_outcome(ps: Seq<Player>, name: Seq<char>) -> Result<usize, GameError> {
    if has_name(ps, name) {
        Err(GameError::DuplicateName)
    } else if ps.len() >= NUM_PLAYERS {
        Err(GameError::RegistryFull)
    } else if name.len() == 0 {
        Err(GameError::InvalidInput(InputIssue::EmptyName))
    } else {
        Ok((ps.len() + 1) as usize)
    }
}

/// The players after adding one called `name` to `ps`: appended with the
/// next id and no points if the addition succeeds, unchanged otherwise.
pub open spec fn after_add(ps: Seq<Player>, name: String) -> Seq<Player> {
    if add_outcome(ps, name@) is Ok {
        ps.push(Player { id: PlayerId(ps.len() as usize), name, score: 0 })
    } else {
        ps
    }
}

/// The registry of at most four players, in the order they were added.
#[derive(Debug, Clone)]
pub struct Players {
    list: Vec<Player>,
}

impl View for Players {
    type V = Seq<Player>;

    closed spec fn view(&self) -> Seq<Player> {
        self.list@
    }
}

impl Players {
    /// At most four players, each id equal to its position, names non-empty
    /// and pairwise distinct.
    pub open spec fn wf(&self) -> bool {
        &&& self@.len() <= NUM_PLAYERS
        &&& forall|i: int|
            0 <= i < self@.len() ==> (#[trigger] self@[i]).id.0 == i && self@[i].name@.len() > 0
        &&& forall|i: int, j: int|
            0 <= i < j < self@.len() ==> (#[trigger] self@[i]).name@ != (#[trigger] self@[j]).name@
    }

    /// Whether no further player can be added.
    pub open spec fn spec_is_full(&self) -> bool {
        self@.len() == NUM_PLAYERS
    }

    pub fn new() -> (r: Players)
        ensures
            r.wf(),
            r@ == Seq::<Player>::empty(),
    {
        Players { list: Vec::new() }
    }

    pub fn len(&self) -> (r: usize)
        ensures
            r == self@.len(),
    {
        self.list.len()
    }

    pub fn is_full(&self) -> (r: bool)
        ensures
            r == self.spec_is_full(),
    {
        self.list.len() == NUM_PLAYERS
    }

    /// The players, in registry order.
    pub fn list(&self) -> (r: &Vec<Player>)
        ensures
            r@ == self@,
    {
        &self.list
    }

    /// Adds a player under the next id and returns the new number of players.
    /// A name already present is refused first, then a full registry, then an
    /// empty name; a refused call changes nothing.
    pub fn add_player(&mut self, name: String) -> (r: Result<usize, GameError>)
        requires
            old(self).wf(),
        ensures
            final(self).wf(),
            r == add_outcome(old(self)@, name@),
            final(self)@ == after_add(old(self)@, name),
    {
        let mut i: usize = 0;
        while i < self.list.len()
            invariant
                0 <= i <= self@.len(),
                self@ == old(self)@,
                self.wf(),
                forall|k: int| 0 <= k < i ==> self@[k].name@ != name@,
            decreases self@.len() - i,
        {
            if self.list[i].name == name {
                return Err(GameError::DuplicateName);
            }
            i = i + 1;
        }
        if self.list.len() >= NUM_PLAYERS {
            return Err(GameError::RegistryFull);
        }
        if name.as_str().is_empty() {
            return Err(GameError::InvalidInput(InputIssue::EmptyName));
        }
        let id = PlayerId(self.list.len());
        self.list.push(Player { id, name, score: 0 });
        Ok(self.list.len())
    }

    /// The id of the player called `name`, if any.
    pub fn get_id(&self, name: &String) -> (r: Option<PlayerId>)
        requires
            self.wf(),
        ensures
            r == id_of(self@, name@),
            r matches Some(id) ==> id.0 < self@.len() && self@[id.0 as int].name@ == name@,
    {
        let mut i: usize = 0;
        while i < self.list.len()
            invariant
                0 <= i <= self@.len(),
                self.wf(),
                forall|k: int| 0 <= k < i ==> self@[k].name@ != name@,
            decreases self@.len() - i,
        {
            if self.list[i].name == *name {
                proof {
                    let j = choose|j: int| 0 <= j < self@.len() && self@[j].name@ == name@;
                    assert(self@[j].name@ == self@[i as int].name@);
                }
                return Some(self.list[i].id);
            }
            i = i + 1;
        }
        None
    }

    /// The players' names, in registry order.
    pub fn names(&self) -> (r: Vec<String>)
        ensures
            r@.map_values(|s: String| s@) == names_of(self@),
    {
        let mut out: Vec<String> = Vec::new();
        let mut i: usize = 0;
        while i < self.list.len()
            invariant
                0 <= i <= self@.len(),
                out@.len() == i,
                forall|k: int| 0 <= k < i ==> (#[trigger] out@[k])@ == self@[k].name@,
            decreases self@.len() - i,
        {
            out.push(self.list[i].name.clone());
            i = i + 1;
        }
        assert(out@.map_values(|s: String| s@) =~= names_of(self@));
        out
    }

    /// Whether each score plus the delta at the player's id stays within `i64`.
    pub open spec fn can_apply(&self, deltas: [i64; 4]) -> bool {
        forall|i: int|
            0 <= i < self@.len() ==> i64::MIN <= #[trigger] self@[i].score + deltas@[i]
                <= i64::MAX
    }

    pub fn has_room_for(&self, deltas: &[i64; 4]) -> (r: bool)
        requires
            self.wf(),
        ensures
            r == self.can_apply(*deltas),
    {
        let mut i: usize = 0;
        while i < self.list.len()
            invariant
                0 <= i <= self@.len() <= NUM_PLAYERS,
                forall|k: int|
                    0 <= k < i ==> i64::MIN <= #[trigger] self@[k].score + deltas@[k] <= i64::MAX,
            decreases self@.len() - i,
        {
            if self.list[i].score.checked_add(deltas[i]).is_none() {
                return false;
            }
            i = i + 1;
        }
        true
    }

    /// An independent registry with the same players.
    pub fn copy_registry(&self) -> (r: Players)
        ensures
            r@ == self@,
    {
        let mut out: Vec<Player> = Vec::new();
        let mut i: usize = 0;
        while i < self.list.len()
            invariant
                0 <= i <= self@.len(),
                out@ == self@.take(i as int),
            decreases self@.len() - i,
        {
            let p = Player {
                id: self.list[i].id,
                name: self.list[i].name.clone(),
                score: self.list[i].score,
            };
            out.push(p);
            i = i + 1;
            assert(out@ =~= self@.take(i as int));
        }
        assert(self@.take(i as int) =~= self@);
        Players { list: out }
    }

    /// Adds to each player's score the delta at that player's id.
    pub fn apply_scores(&mut self, deltas: &[i64; 4])
        requires
            old(self).wf(),
            forall|i: int|
                0 <= i < old(self)@.len() ==> i64::MIN <= #[trigger] old(self)@[i].score
                    + deltas@[i] <= i64::MAX,
        ensures
            final(self).wf(),
            final(self)@.len() == old(self)@.len(),
            forall|i: int|
                0 <= i < old(self)@.len() ==> (#[trigger] final(self)@[i]).id == old(self)@[i].id
                    && final(self)@[i].name == old(self)@[i].name && final(self)@[i].score
                    == old(self)@[i].score + deltas@[i],
    {
        let mut i: usize = 0;
        while i < self.list.len()
            invariant
                0 <= i <= self@.len(),
                self@.len() == old(self)@.len(),
                self@.len() <= NUM_PLAYERS,
                forall|k: int|
                    0 <= k < self@.len() ==> (#[trigger] self@[k]).id == old(self)@[k].id
                        && self@[k].name == old(self)@[k].name,
                forall|k: int| 0 <= k < i ==> (#[trigger] self@[k]).score == old(self)@[k].score + deltas@[k],
                forall|k: int| i <= k < self@.len() ==> (#[trigger] self@[k]).score == old(self)@[k].score,
                forall|k: int|
                    0 <= k < old(self)@.len() ==> i64::MIN <= #[trigger] old(self)@[k].score
                        + deltas@[k] <= i64::MAX,
            decreases self@.len() - i,
        {
            let p = Player {
                id: self.list[i].id,
                name: self.list[i].name.clone(),
                score: self.list[i].score + deltas[i],
            };
            self.list.set(i, p);
            i = i + 1;
        }
    }
}

} // verus!
