use vstd::prelude::*;

use crate::error::{GameError, InputIssue};
use crate::players::{PlayerId, NUM_PLAYERS};
use crate::rules::Shape;

verus! {

/// A player of an `Other` hand with the points entered for them.
#[derive(Debug, Clone, Copy, PartialEq, Eq, Structural)]
pub struct PlayerIdAndScore {
    pub id: PlayerId,
    pub score: i16,
}

impl PlayerIdAndScore {
    pub fn new(id: PlayerId, score: i16) -> (r: PlayerIdAndScore)
        ensures
            r == (PlayerIdAndScore { id, score }),
    {
        PlayerIdAndScore { id, score }
    }

    pub fn as_components(&self) -> (r: (PlayerId, i16))
        ensures
            r == (self.id, self.score),
    {
        (self.id, self.score)
    }
}

/// The players accountable for a hand.
#[derive(Debug, Clone)]
pub enum Contractors {
    Solo(PlayerId),
    /// Two distinct players.
    Team(PlayerId, PlayerId),
    /// Every player but one, each with the points entered for them.
    Other(Vec<PlayerIdAndScore>),
}

/// How many players an `Other` hand names: all but one.
pub open spec fn other_len() -> nat {
    (NUM_PLAYERS - 1) as nat
}

pub open spec fn shape_of(c: Contractors) -> Shape {
    match c {
        Contractors::Solo(_) => Shape::Solo,
        Contractors::Team(_, _) => Shape::Team,
        Contractors::Other(_) => Shape::Other,
    }
}

/// The players that `c` names, in order.
pub open spec fn contractor_ids(c: Contractors) -> Seq<PlayerId> {
    match c {
        Contractors::Solo(a) => seq![a],
        Contractors::Team(a, b) => seq![a, b],
        Contractors::Other(list) => list@.map_values(|e: PlayerIdAndScore| e.id),
    }
}

/// Whether `c` has the variant that `shape` asks for, and, for `Other`,
/// one entry for every player but one.
pub open spec fn fits_shape(shape: Shape, c: Contractors) -> bool {
    &&& shape_of(c) == shape
    &&& c matches Contractors::Other(list) ==> list@.len() == other_len()
}

pub open spec fn ids_in_range(ids: Seq<PlayerId>) -> bool {
    forall|i: int| 0 <= i < ids.len() ==> (#[trigger] ids[i]).0 < NUM_PLAYERS
}

pub open spec fn ids_distinct(ids: Seq<PlayerId>) -> bool {
    forall|i: int, j: int| 0 <= i < j < ids.len() ==> ids[i] != ids[j]
}

/// Why `c` cannot be the contractors of a contract of shape `shape`, if it
/// cannot: a wrong shape first, then an id that names no seat, then a player
/// named twice.
pub open spec fn contractors_error(shape: Shape, c: Contractors) -> Option<GameError> {
    if !fits_shape(shape, c) {
        Some(GameError::ShapeMismatch)
    } else if !ids_in_range(contractor_ids(c)) {
        Some(GameError::InvalidInput(InputIssue::PlayerIdOutOfRange))
    } else if !ids_distinct(contractor_ids(c)) {
        Some(GameError::InvalidInput(InputIssue::RepeatedPlayer))
    } else {
        None
    }
}

impl Contractors {
    /// The players named, in order.
    pub fn ids(&self) -> (r: Vec<PlayerId>)
        ensures
            r@ == contractor_ids(*self),
    {
        let mut out: Vec<PlayerId> = Vec::new();
        match self {
            Contractors::Solo(a) => {
                out.push(*a);
            },
            Contractors::Team(a, b) => {
                out.push(*a);
                out.push(*b);
            },
            Contractors::Other(list) => {
                let mut i: usize = 0;
                while i < list.len()
                    invariant
                        0 <= i <= list@.len(),
                        out@ == list@.take(i as int).map_values(|e: PlayerIdAndScore| e.id),
                    decreases list@.len() - i,
                {
                    out.push(list[i].id);
                    i = i + 1;
                    assert(list@.take(i as int).drop_last() =~= list@.take(i - 1));
                    assert(out@ =~= list@.take(i as int).map_values(|e: PlayerIdAndScore| e.id));
                }
                assert(list@.take(i as int) =~= list@);
            },
        }
        assert(out@ =~= contractor_ids(*self));
        out
    }

    pub fn shape(&self) -> (r: Shape)
        ensures
            r == shape_of(*self),
    {
        match self {
            Contractors::Solo(_) => Shape::Solo,
            Contractors::Team(_, _) => Shape::Team,
            Contractors::Other(_) => Shape::Other,
        }
    }
}

/// Why `c` cannot stand for a contract of shape `shape`, or `None` if it can.
pub fn check_contractors(shape: Shape, c: &Contractors) -> (r: Option<GameError>)
    ensures
        r == contractors_error(shape, *c),
{
    let fits = match c {
        Contractors::Solo(_) => shape == Shape::Solo,
        Contractors::Team(_, _) => shape == Shape::Team,
        Contractors::Other(list) => shape == Shape::Other && list.len() == NUM_PLAYERS - 1,
    };
    if !fits {
        return Some(GameError::ShapeMismatch);
    }
    let ids = c.ids();
    let mut i: usize = 0;
    while i < ids.len()
        invariant
            0 <= i <= ids@.len(),
            ids@ == contractor_ids(*c),
            fits_shape(shape, *c),
            forall|k: int| 0 <= k < i ==> (#[trigger] ids@[k]).0 < NUM_PLAYERS,
        decreases ids@.len() - i,
    {
        if ids[i].0 >= NUM_PLAYERS {
            return Some(GameError::InvalidInput(InputIssue::PlayerIdOutOfRange));
        }
        i = i + 1;
    }
    let mut j: usize = 1;
    while j < ids.len()
        invariant
            1 <= j,
            j <= ids@.len() || ids@.len() == 0,
            ids@ == contractor_ids(*c),
            fits_shape(shape, *c),
            ids_in_range(ids@),
            forall|a: int, b: int| 0 <= a < b < j && b < ids@.len() ==> ids@[a] != ids@[b],
        decreases ids@.len() - j,
    {
        let mut k: usize = 0;
        while k < j
            invariant
                0 <= k <= j < ids@.len(),
                ids@ == contractor_ids(*c),
                fits_shape(shape, *c),
                ids_in_range(ids@),
                forall|a: int, b: int| 0 <= a < b < j ==> ids@[a] != ids@[b],
                forall|a: int| 0 <= a < k ==> ids@[a] != ids@[j as int],
            decreases j - k,
        {
            if ids[k] == ids[j] {
                return Some(GameError::InvalidInput(InputIssue::RepeatedPlayer));
            }
            k = k + 1;
        }
        j = j + 1;
    }
    None
}

} // verus!
