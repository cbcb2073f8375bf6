use vstd::prelude::*;

use crate::contractors::Contractors;
use crate::hand::Hand;
use crate::players::NUM_PLAYERS;
use crate::scoring::{score, spec_score};

verus! {

/// What the ledger keeps of a played hand.
#[derive(Debug, Clone)]
pub struct HandRecap {
    pub gamemode_name: String,
    pub bid: Option<i16>,
    pub tricks: i16,
    pub contractors: Contractors,
    /// The delta of each player, by id.
    pub scores: [i64; 4],
}

impl HandRecap {
    /// The recap of a hand, with the scores it earns each player.
    pub fn new(hand: Hand) -> (r: HandRecap)
        requires
            hand.wf(),
        ensures
            r.gamemode_name@ == hand.contract.gamemode.spec_name(),
            r.bid == hand.bid,
            r.tricks == hand.tricks,
            r.contractors == hand.contractors,
            forall|p: int|
                #![trigger r.scores@[p]]
                #![trigger spec_score(hand)[p]]
                0 <= p < NUM_PLAYERS ==> r.scores@[p] == spec_score(hand)[p],
    {
        let scores = score(&hand);
        let gamemode_name = hand.contract.gamemode.name();
        HandRecap {
            gamemode_name,
            bid: hand.bid,
            tricks: hand.tricks,
            contractors: hand.contractors,
            scores,
        }
    }
}

/// The sum of player `p`'s deltas over `recaps`.
pub open spec fn running_total(recaps: Seq<HandRecap>, p: int) -> int
    decreases recaps.len(),
{
    if recaps.len() == 0 {
        0
    } else {
        running_total(recaps.drop_last(), p) + recaps.last().scores@[p]
    }
}

/// Player `p`'s cumulative score after the `i`-th hand (counting from zero).
pub open spec fn cumulative(recaps: Seq<HandRecap>, i: int, p: int) -> int {
    running_total(recaps.take(i + 1), p)
}

/// The played hands, in order, with every player's cumulative score after
/// each.
#[derive(Debug, Clone)]
pub struct HandsHistoric {
    list: Vec<HandRecap>,
    players_scores: Vec<[i64; 4]>,
}

impl View for HandsHistoric {
    type V = Seq<HandRecap>;

    closed spec fn view(&self) -> Seq<HandRecap> {
        self.list@
    }
}

impl HandsHistoric {
    /// The cumulative scores kept after each hand.
    pub closed spec fn spec_snapshots(&self) -> Seq<[i64; 4]> {
        self.players_scores@
    }

    /// One snapshot per hand, each the running total of the hands up to it.
    pub closed spec fn wf(&self) -> bool {
        &&& self.players_scores@.len() == self.list@.len()
        &&& forall|i: int, p: int|
            0 <= i < self.list@.len() && 0 <= p < NUM_PLAYERS ==> (#[trigger] self.players_scores@[i]@[p])
                == cumulative(self.list@, i, p)
    }

    /// Whether every cumulative score stays within `i64` once `recap` is added.
    pub open spec fn can_push(&self, recap: HandRecap) -> bool {
        forall|p: int|
            0 <= p < NUM_PLAYERS ==> i64::MIN <= #[trigger] running_total(self@.push(recap), p)
                <= i64::MAX
    }

    pub fn new() -> (r: HandsHistoric)
        ensures
            r.wf(),
            r@ == Seq::<HandRecap>::empty(),
            r.spec_snapshots() == Seq::<[i64; 4]>::empty(),
    {
        HandsHistoric { list: Vec::new(), players_scores: Vec::new() }
    }

    /// Appends a hand, and after it the previous cumulative scores (none
    /// before the first hand) plus the hand's deltas.
    pub fn push(&mut self, hand_recap: HandRecap)
        requires
            old(self).wf(),
            old(self).can_push(hand_recap),
        ensures
            final(self).wf(),
            final(self)@ == old(self)@.push(hand_recap),
            final(self).spec_snapshots().len() == old(self).spec_snapshots().len() + 1,
            final(self).spec_snapshots().drop_last() == old(self).spec_snapshots(),
            forall|p: int|
                0 <= p < NUM_PLAYERS ==> (#[trigger] final(self).spec_snapshots().last()@[p]) == (
                if old(self)@.len() == 0 {
                    0
                } else {
                    old(self).spec_snapshots().last()@[p] as int
                }) + hand_recap.scores@[p],
    {
        let ghost old_list = self.list@;
        let n = self.list.len();
        proof {
            assert(old(self)@ == old_list);
            assert(old_list.take(n as int) =~= old_list);
            assert(old_list.push(hand_recap).drop_last() =~= old_list);
            if n > 0 {
                assert(forall|p: int|
                    0 <= p < NUM_PLAYERS ==> (#[trigger] self.players_scores@[n - 1]@[p])
                        == cumulative(old_list, n - 1, p));
            }
            assert(forall|p: int|
                0 <= p < NUM_PLAYERS ==> #[trigger] running_total(old_list.push(hand_recap), p)
                    == running_total(old_list, p) + hand_recap.scores@[p]);
        }
        let new_scores: [i64; 4] = if n == 0 {
            proof {
                assert(forall|p: int|
                    0 <= p < NUM_PLAYERS ==> #[trigger] running_total(old_list, p) == 0);
            }
            hand_recap.scores
        } else {
            let last = self.players_scores[n - 1];
            assert(forall|p: int|
                0 <= p < NUM_PLAYERS ==> #[trigger] running_total(old_list.push(hand_recap), p)
                    == last@[p] + hand_recap.scores@[p]);
            assert(i64::MIN <= running_total(old_list.push(hand_recap), 0) <= i64::MAX);
            assert(i64::MIN <= running_total(old_list.push(hand_recap), 1) <= i64::MAX);
            assert(i64::MIN <= running_total(old_list.push(hand_recap), 2) <= i64::MAX);
            assert(i64::MIN <= running_total(old_list.push(hand_recap), 3) <= i64::MAX);
            [
                last[0] + hand_recap.scores[0],
                last[1] + hand_recap.scores[1],
                last[2] + hand_recap.scores[2],
                last[3] + hand_recap.scores[3],
            ]
        };
        self.players_scores.push(new_scores);
        self.list.push(hand_recap);
        proof {
            let l = self.list@;
            assert(l.take(n + 1) =~= l);
            assert forall|i: int, p: int|
                0 <= i < l.len() && 0 <= p < NUM_PLAYERS implies (#[trigger] self.players_scores@[i]@[p])
                == cumulative(l, i, p) by {
                if i < n {
                    assert(l.take(i + 1) =~= old_list.take(i + 1));
                }
            }
        }
    }

    /// Whether `recap` can be pushed without a cumulative score leaving `i64`.
    pub fn has_room_for(&self, recap: &HandRecap) -> (r: bool)
        requires
            self.wf(),
        ensures
            r == self.can_push(*recap),
    {
        let n = self.list.len();
        let ghost l = self.list@;
        proof {
            assert(l.push(*recap).drop_last() =~= l);
            assert(l.take(n as int) =~= l);
            assert(forall|p: int|
                0 <= p < NUM_PLAYERS ==> #[trigger] running_total(l.push(*recap), p)
                    == running_total(l, p) + recap.scores@[p]);
            if n == 0 {
                assert(forall|p: int| 0 <= p < NUM_PLAYERS ==> #[trigger] running_total(l, p) == 0);
            } else {
                assert(forall|p: int|
                    0 <= p < NUM_PLAYERS ==> (#[trigger] self.players_scores@[n - 1]@[p])
                        == cumulative(l, n - 1, p));
            }
        }
        let mut p: usize = 0;
        while p < NUM_PLAYERS
            invariant
                0 <= p <= NUM_PLAYERS,
                n == l.len(),
                l == self.list@,
                self.wf(),
                forall|q: int|
                    0 <= q < p ==> i64::MIN <= #[trigger] running_total(l.push(*recap), q)
                        <= i64::MAX,
                forall|q: int|
                    0 <= q < NUM_PLAYERS ==> #[trigger] running_total(l.push(*recap), q)
                        == running_total(l, q) + recap.scores@[q],
                n == 0 ==> forall|q: int| 0 <= q < NUM_PLAYERS ==> #[trigger] running_total(l, q) == 0,
                n > 0 ==> forall|q: int|
                    0 <= q < NUM_PLAYERS ==> #[trigger] running_total(l, q) == self.players_scores@[n
                        - 1]@[q],
            decreases NUM_PLAYERS - p,
        {
            let before: i64 = if n == 0 {
                0
            } else {
                self.players_scores[n - 1][p]
            };
            if before.checked_add(recap.scores[p]).is_none() {
                assert(running_total(l.push(*recap), p as int) == before + recap.scores@[p as int]);
                assert(self@ == l);
                return false;
            }
            p = p + 1;
        }
        true
    }

    /// The number of hands played.
    pub fn len(&self) -> (r: usize)
        requires
            self.wf(),
        ensures
            r == self@.len(),
            r == self.spec_snapshots().len(),
    {
        self.list.len()
    }

    /// Takes back the last hand and its snapshot; on an empty ledger it does
    /// nothing.
    pub fn remove_last(&mut self)
        requires
            old(self).wf(),
        ensures
            final(self).wf(),
            old(self)@.len() == 0 ==> final(self)@ == old(self)@ && final(self).spec_snapshots()
                == old(self).spec_snapshots(),
            old(self)@.len() > 0 ==> final(self)@ == old(self)@.drop_last()
                && final(self).spec_snapshots() == old(self).spec_snapshots().drop_last(),
    {
        let ghost old_list = self.list@;
        self.list.pop();
        self.players_scores.pop();
        proof {
            assert forall|i: int, p: int|
                0 <= i < self.list@.len() && 0 <= p < NUM_PLAYERS implies (#[trigger] self.players_scores@[i]@[p])
                == cumulative(self.list@, i, p) by {
                assert(self.list@.take(i + 1) =~= old_list.take(i + 1));
            }
        }
    }

    /// The `i`-th hand with the cumulative scores after it.
    pub fn entry(&self, i: usize) -> (r: Option<(&HandRecap, &[i64; 4])>)
        requires
            self.wf(),
        ensures
            i < self@.len() ==> r == Some((&self@[i as int], &self.spec_snapshots()[i as int])),
            i >= self@.len() ==> r is None,
    {
        if i < self.list.len() {
            Some((&self.list[i], &self.players_scores[i]))
        } else {
            None
        }
    }
}

/// The `i`-th snapshot of a ledger is, for each player, the sum of that
/// player's deltas over the hands up to and including the `i`-th.
pub proof fn lemma_snapshots_are_running_totals(h: &HandsHistoric)
    requires
        h.wf(),
    ensures
        h.spec_snapshots().len() == h@.len(),
        forall|i: int, p: int|
            0 <= i < h@.len() && 0 <= p < NUM_PLAYERS ==> (#[trigger] h.spec_snapshots()[i]@[p])
                == running_total(h@.take(i + 1), p),
{
}

/// Pushing a hand and then taking back the last one leaves the ledger as it
/// was: the same hands and the same snapshots.
pub proof fn lemma_remove_last_undoes_push(
    before: &HandsHistoric,
    after: &HandsHistoric,
    recap: HandRecap,
)
    requires
        before.wf(),
        after.wf(),
        after@ == before@.push(recap).drop_last(),
    ensures
        after@ == before@,
        after.spec_snapshots() == before.spec_snapshots(),
{
    broadcast use vstd::array::axiom_array_ext_equal;

    assert(before@.push(recap).drop_last() =~= before@);
    assert forall|i: int| 0 <= i < after@.len() implies #[trigger] after.spec_snapshots()[i]
        == before.spec_snapshots()[i] by {
        assert forall|p: int| 0 <= p < NUM_PLAYERS implies after.spec_snapshots()[i][p]
            == before.spec_snapshots()[i][p] by {
            assert(after.players_scores@[i]@[p] == cumulative(after.list@, i, p));
            assert(before.players_scores@[i]@[p] == cumulative(before.list@, i, p));
        }
        assert(after.spec_snapshots()[i] =~= before.spec_snapshots()[i]);
    }
    assert(after.spec_snapshots() =~= before.spec_snapshots());
}

} // verus!
