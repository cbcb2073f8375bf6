use vstd::prelude::*;

use crate::contractors::{Contractors, PlayerIdAndScore};
use crate::hand::Hand;
use crate::players::NUM_PLAYERS;
use crate::rules::GameMode;

verus! {

/// The points a contract is worth when it is made exactly.
pub open spec fn base_points(mode: GameMode) -> int {
    match mode {
        GameMode::Proposal => 2,
        GameMode::Alone => 3,
        GameMode::Abondance => 5,
        GameMode::Misere => 7,
        GameMode::OpenMisere => 14,
        GameMode::Troel => 4,
        GameMode::Slam => 20,
        GameMode::Custom => 0,
    }
}

/// Whether each trick above or below the target adds or costs a point.
pub open spec fn counts_tricks(mode: GameMode) -> bool {
    match mode {
        GameMode::Proposal | GameMode::Alone | GameMode::Abondance | GameMode::Troel => true,
        _ => false,
    }
}

/// The number of tricks to make when the hand carries no bid.
pub open spec fn fixed_target(mode: GameMode) -> int {
    match mode {
        GameMode::Proposal => 8,
        GameMode::Alone => 5,
        GameMode::Abondance => 9,
        GameMode::Troel => 8,
        GameMode::Slam => 13,
        _ => 0,
    }
}

/// What the contract earns each contractor: positive when it is made,
/// negative when it fails. A misere is made by taking no trick; any other
/// mode by taking at least its target, the bid where there is one.
pub open spec fn contract_points(mode: GameMode, bid: Option<i16>, tricks: int) -> int {
    match mode {
        GameMode::Misere | GameMode::OpenMisere => if tricks == 0 {
            base_points(mode)
        } else {
            -base_points(mode)
        },
        GameMode::Custom => 0,
        _ => {
            let target = match bid {
                Some(b) => b as int,
                None => fixed_target(mode),
            };
            let margin = if counts_tricks(mode) {
                tricks - target
            } else {
                0
            };
            if tricks >= target {
                base_points(mode) + margin
            } else {
                -base_points(mode) + margin
            }
        },
    }
}

/// The points entered for player `p` in an `Other` list, if it names `p`.
pub open spec fn listed_points(list: Seq<PlayerIdAndScore>, p: int) -> Option<int>
    decreases list.len(),
{
    if list.len() == 0 {
        None
    } else if list.last().id.0 == p {
        Some(list.last().score as int)
    } else {
        listed_points(list.drop_last(), p)
    }
}

/// The sum of the points entered in an `Other` list.
pub open spec fn listed_total(list: Seq<PlayerIdAndScore>) -> int
    decreases list.len(),
{
    if list.len() == 0 {
        0
    } else {
        listed_total(list.drop_last()) + list.last().score
    }
}

/// The delta of player `p` when the contractors `c` earn `points` each.
/// A solo player wins or pays three times, against one from each opponent;
/// a team wins or pays one each, against one from each opponent. In an
/// `Other` hand the named players get the points entered for them and the
/// player left out balances them.
pub open spec fn player_delta(c: Contractors, points: int, p: int) -> int {
    match c {
        Contractors::Solo(a) => if p == a.0 {
            3 * points
        } else {
            -points
        },
        Contractors::Team(a, b) => if p == a.0 || p == b.0 {
            points
        } else {
            -points
        },
        Contractors::Other(list) => match listed_points(list@, p) {
            Some(s) => s,
            None => -listed_total(list@),
        },
    }
}

/// The score delta of each player, by id.
pub open spec fn spec_score(hand: Hand) -> Seq<int> {
    Seq::new(
        NUM_PLAYERS as nat,
        |p: int|
            player_delta(
                hand.contractors,
                contract_points(hand.contract.gamemode, hand.bid, hand.tricks as int),
                p,
            ),
    )
}

fn base_points_exec(mode: GameMode) -> (r: i64)
    ensures
        r == base_points(mode),
{
    match mode {
        GameMode::Proposal => 2,
        GameMode::Alone => 3,
        GameMode::Abondance => 5,
        GameMode::Misere => 7,
        GameMode::OpenMisere => 14,
        GameMode::Troel => 4,
        GameMode::Slam => 20,
        GameMode::Custom => 0,
    }
}

fn counts_tricks_exec(mode: GameMode) -> (r: bool)
    ensures
        r == counts_tricks(mode),
{
    match mode {
        GameMode::Proposal | GameMode::Alone | GameMode::Abondance | GameMode::Troel => true,
        _ => false,
    }
}

fn fixed_target_exec(mode: GameMode) -> (r: i64)
    ensures
        r == fixed_target(mode),
{
    match mode {
        GameMode::Proposal => 8,
        GameMode::Alone => 5,
        GameMode::Abondance => 9,
        GameMode::Troel => 8,
        GameMode::Slam => 13,
        _ => 0,
    }
}

/// The points the contract earns each contractor.
pub fn points_of(mode: GameMode, bid: Option<i16>, tricks: i16) -> (r: i64)
    ensures
        r == contract_points(mode, bid, tricks as int),
        -100_000 <= r <= 100_000,
{
    let base = base_points_exec(mode);
    match mode {
        GameMode::Misere | GameMode::OpenMisere => {
            if tricks == 0 {
                base
            } else {
                -base
            }
        },
        GameMode::Custom => 0,
        _ => {
            let target: i64 = match bid {
                Some(b) => b as i64,
                None => fixed_target_exec(mode),
            };
            let t = tricks as i64;
            let margin = if counts_tricks_exec(mode) {
                t - target
            } else {
                0
            };
            if t >= target {
                base + margin
            } else {
                -base + margin
            }
        },
    }
}

fn other_delta(list: &Vec<PlayerIdAndScore>, p: usize) -> (r: i64)
    requires
        list@.len() <= NUM_PLAYERS,
    ensures
        r == match listed_points(list@, p as int) {
            Some(s) => s,
            None => -listed_total(list@),
        },
{
    let mut found: Option<i16> = None;
    let mut total: i64 = 0;
    let mut i: usize = 0;
    while i < list.len()
        invariant
            0 <= i <= list@.len() <= NUM_PLAYERS,
            total == listed_total(list@.take(i as int)),
            -32768 * i <= total <= 32767 * i,
            match found {
                Some(s) => listed_points(list@.take(i as int), p as int) == Some(s as int),
                None => listed_points(list@.take(i as int), p as int) is None,
            },
        decreases list@.len() - i,
    {
        let e = list[i];
        assert(list@.take(i + 1).drop_last() =~= list@.take(i as int));
        assert(list@.take(i + 1).last() == e);
        total = total + e.score as i64;
        if e.id.0 == p {
            found = Some(e.score);
        }
        i = i + 1;
    }
    assert(list@.take(i as int) =~= list@);
    match found {
        Some(s) => s as i64,
        None => -total,
    }
}

fn delta_of(c: &Contractors, points: i64, p: usize) -> (r: i64)
    requires
        -1_000_000 <= points <= 1_000_000,
        c matches Contractors::Other(list) ==> list@.len() <= NUM_PLAYERS,
    ensures
        r == player_delta(*c, points as int, p as int),
{
    match c {
        Contractors::Solo(a) => {
            if p == a.0 {
                3 * points
            } else {
                -points
            }
        },
        Contractors::Team(a, b) => {
            if p == a.0 || p == b.0 {
                points
            } else {
                -points
            }
        },
        Contractors::Other(list) => other_delta(list, p),
    }
}

/// The score delta of each player, by id.
pub fn score(hand: &Hand) -> (r: [i64; 4])
    requires
        hand.wf(),
    ensures
        forall|p: int|
            #![trigger r@[p]]
            #![trigger spec_score(*hand)[p]]
            0 <= p < NUM_PLAYERS ==> r@[p] == spec_score(*hand)[p],
{
    let points = points_of(hand.contract.gamemode, hand.bid, hand.tricks);
    [
        delta_of(&hand.contractors, points, 0),
        delta_of(&hand.contractors, points, 1),
        delta_of(&hand.contractors, points, 2),
        delta_of(&hand.contractors, points, 3),
    ]
}

} // verus!
