use vstd::prelude::*;

use crate::contractors::{contractor_ids, ids_distinct, shape_of, Contractors, PlayerIdAndScore};
use crate::error::{GameError, InputIssue};
use crate::hand::{fill_and_build, tricks_fit, Hand, HandBuilder};
use crate::players::{id_of, lemma_id_of_in_range, Player, PlayerId, Players, NUM_PLAYERS};
use crate::requester::RequesterGui;
use crate::rules::{Contract, Shape};

verus! {

/// The contractor shape of a selection of `n` players.
pub open spec fn shape_for_count(n: int) -> Shape {
    if n == 1 {
        Shape::Solo
    } else if n == 2 {
        Shape::Team
    } else {
        Shape::Other
    }
}

/// Whether each of the first `n` names belongs to a player of `ps`.
pub open spec fn all_known(ps: Seq<Player>, names: Seq<Seq<char>>, n: int) -> bool {
    forall|k: int| 0 <= k < n ==> (#[trigger] id_of(ps, names[k])) is Some
}

/// Whether the first `n` names belong to pairwise distinct players.
pub open spec fn all_distinct(ps: Seq<Player>, names: Seq<Seq<char>>, n: int) -> bool {
    forall|j: int, k: int| 0 <= j < k < n ==> id_of(ps, names[j]) != id_of(ps, names[k])
}

/// The state of the screen that enters a new hand.
pub struct HandBuilderGUI {
    pub players: Players,
    pub hand_builder: Option<HandBuilder>,
    pub requester: RequesterGui,
    pub show_point_modal: bool,
}

impl HandBuilderGUI {
    /// Whether `c` is what the selection makes: the selected players in
    /// order and, for an `Other` hand, the points entered for them.
    pub open spec fn made_from_selection(&self, c: Contractors) -> bool {
        &&& contractor_ids(c).len() == self.requester.spec_selected().len()
        &&& forall|k: int|
            0 <= k < contractor_ids(c).len() ==> Some(#[trigger] contractor_ids(c)[k]) == id_of(
                self.players@,
                self.requester.spec_selected()[k],
            )
        &&& c matches Contractors::Other(list) ==> forall|k: int|
            0 <= k < 3 ==> (#[trigger] list@[k]).score == self.requester.points->0[k]
    }

    /// Whether confirming first asks for the points of an `Other` hand.
    pub open spec fn needs_points(&self) -> bool {
        self.requester.spec_selected().len() == NUM_PLAYERS - 1 && self.requester.points is None
    }

    /// Why confirming the hand as entered fails, if it does, checking in
    /// turn: a contract was chosen, the number of selected names fits some
    /// shape, the points are there, every name is a player, the builder is
    /// unused, the shape is the contract's, no player is named twice, the
    /// bid and the tricks are legal.
    pub open spec fn confirm_error(&self) -> Option<GameError> {
        let sel = self.requester.spec_selected();
        let n = sel.len() as int;
        let ps = self.players@;
        match self.hand_builder {
            None => Some(GameError::InvalidInput(InputIssue::NoContract)),
            Some(b) => if !(1 <= n <= 3) {
                Some(GameError::TooManyPlayer)
            } else if n == 3 && self.requester.points is None {
                Some(GameError::InvalidInput(InputIssue::PointsNotSet))
            } else if !all_known(ps, sel, n) {
                Some(GameError::InvalidInput(InputIssue::UnknownPlayer))
            } else if b.spec_built() {
                Some(GameError::AlreadyBuilt)
            } else if shape_for_count(n) != b.spec_contract().shape {
                Some(GameError::ShapeMismatch)
            } else if !all_distinct(ps, sel, n) {
                Some(GameError::InvalidInput(InputIssue::RepeatedPlayer))
            } else if b.spec_contract().bid matches Some(rg) && !(rg.min
                <= self.requester.bid_value <= rg.max) {
                Some(GameError::BidOutOfRange)
            } else if !tricks_fit(self.requester.tricks_value) {
                Some(GameError::InvalidInput(InputIssue::TricksOutOfRange))
            } else {
                None
            },
        }
    }

    pub fn new(players: Players) -> (r: HandBuilderGUI)
        ensures
            r.players == players,
            r.hand_builder is None,
            r.requester.spec_selected() == Seq::<Seq<char>>::empty(),
            r.requester.bid_value == 0,
            r.requester.tricks_value == 0,
            r.requester.points is None,
            !r.show_point_modal,
    {
        HandBuilderGUI {
            players,
            hand_builder: None,
            requester: RequesterGui::new(),
            show_point_modal: false,
        }
    }

    /// Starts entering a hand under `contract`, forgetting what was entered.
    pub fn new_hand(&mut self, contract: Contract)
        ensures
            final(self).players == old(self).players,
            final(self).show_point_modal == old(self).show_point_modal,
            final(self).hand_builder matches Some(b) && b.spec_contract() == contract
                && b.spec_contractors() is None && b.spec_bid() is None && b.spec_tricks() is None
                && !b.spec_built(),
            final(self).requester.spec_selected() == Seq::<Seq<char>>::empty(),
            final(self).requester.bid_value == 0,
            final(self).requester.tricks_value == 0,
            final(self).requester.points is None,
    {
        self.hand_builder = Some(HandBuilder::new(contract));
        self.requester.clear();
    }

    fn get_next_id(&self, names: &Vec<String>, idx: usize) -> (r: Result<PlayerId, GameError>)
        requires
            self.players.wf(),
            idx < names@.len(),
        ensures
            match id_of(self.players@, names@[idx as int]@) {
                Some(id) => r == Ok::<PlayerId, GameError>(id),
                None => r == Err::<PlayerId, GameError>(
                    GameError::InvalidInput(InputIssue::UnknownPlayer),
                ),
            },
    {
        match self.players.get_id(&names[idx]) {
            Some(id) => Ok(id),
            None => Err(GameError::InvalidInput(InputIssue::UnknownPlayer)),
        }
    }

    /// The contractors made of the first `contractors_number` selected
    /// names: one is a solo, two a team, three the players of an `Other`
    /// hand with the points entered for them.
    pub fn create_contractors(&self, contractors_number: usize) -> (r: Result<Contractors, GameError>)
        requires
            self.players.wf(),
            1 <= contractors_number <= 3 ==> contractors_number
                <= self.requester.spec_selected().len(),
        ensures
            !(1 <= contractors_number <= 3) ==> r == Err::<Contractors, GameError>(
                GameError::TooManyPlayer,
            ),
            contractors_number == 3 && self.requester.points is None ==> r == Err::<
                Contractors,
                GameError,
            >(GameError::InvalidInput(InputIssue::PointsNotSet)),
            1 <= contractors_number <= 3 && !(contractors_number == 3
                && self.requester.points is None) ==> {
                &&& r is Ok <==> all_known(
                    self.players@,
                    self.requester.spec_selected(),
                    contractors_number as int,
                )
                &&& r is Err ==> r == Err::<Contractors, GameError>(
                    GameError::InvalidInput(InputIssue::UnknownPlayer),
                )
            },
            r matches Ok(c) ==> {
                &&& shape_of(c) == shape_for_count(contractors_number as int)
                &&& contractor_ids(c).len() == contractors_number
                &&& forall|k: int|
                    0 <= k < contractors_number ==> Some(#[trigger] contractor_ids(c)[k]) == id_of(
                        self.players@,
                        self.requester.spec_selected()[k],
                    )
                &&& c matches Contractors::Other(list) ==> forall|k: int|
                    0 <= k < 3 ==> (#[trigger] list@[k]).score == self.requester.points->0[k]
            },
    {
        let names = self.requester.selected_names();
        let ghost sel = self.requester.spec_selected();
        assert(names@.len() == sel.len()) by {
            assert(names@.map_values(|n: String| n@).len() == names@.len());
        }
        assert(forall|k: int| 0 <= k < names@.len() ==> (#[trigger] names@[k])@ == sel[k]) by {
            assert forall|k: int| 0 <= k < names@.len() implies (#[trigger] names@[k])@ == sel[k] by {
                assert(names@.map_values(|n: String| n@)[k] == names@[k]@);
            }
        }
        if contractors_number == 1 {
            let id = match self.get_next_id(&names, 0) {
                Ok(id) => id,
                Err(e) => {
                    return Err(e);
                },
            };
            let c = Contractors::Solo(id);
            assert(contractor_ids(c) =~= seq![id]);
            Ok(c)
        } else if contractors_number == 2 {
            let id1 = match self.get_next_id(&names, 0) {
                Ok(id) => id,
                Err(e) => {
                    return Err(e);
                },
            };
            let id2 = match self.get_next_id(&names, 1) {
                Ok(id) => id,
                Err(e) => {
                    return Err(e);
                },
            };
            let c = Contractors::Team(id1, id2);
            assert(contractor_ids(c) =~= seq![id1, id2]);
            Ok(c)
        } else if contractors_number == 3 {
            let points = match self.requester.points {
                Some(p) => p,
                None => {
                    return Err(GameError::InvalidInput(InputIssue::PointsNotSet));
                },
            };
            let mut out: Vec<PlayerIdAndScore> = Vec::new();
            let mut k: usize = 0;
            while k < 3
                invariant
                    0 <= k <= 3 <= names@.len(),
                    names@.len() == sel.len(),
                    sel == self.requester.spec_selected(),
                    contractors_number == 3,
                    self.players.wf(),
                    self.requester.points == Some(points),
                    forall|j: int| 0 <= j < names@.len() ==> (#[trigger] names@[j])@ == sel[j],
                    out@.len() == k,
                    forall|j: int|
                        0 <= j < k ==> Some((#[trigger] out@[j]).id) == id_of(self.players@, sel[j])
                            && out@[j].score == points[j],
                    all_known(self.players@, sel, k as int),
                decreases 3 - k,
            {
                let id = match self.get_next_id(&names, k) {
                    Ok(id) => id,
                    Err(e) => {
                        return Err(e);
                    },
                };
                out.push(PlayerIdAndScore::new(id, points[k]));
                k = k + 1;
            }
            let ghost list = out@;
            let c = Contractors::Other(out);
            assert forall|j: int| 0 <= j < 3 implies Some(#[trigger] contractor_ids(c)[j]) == id_of(
                self.players@,
                sel[j],
            ) by {
                assert(contractor_ids(c)[j] == list[j].id);
            }
            Ok(c)
        } else {
            Err(GameError::TooManyPlayer)
        }
    }

    /// The confirm button. With three names selected and no points yet it
    /// opens the points input and returns `None`. Otherwise it makes the
    /// contractors from the selection and enters them, the bid and the
    /// tricks into the builder, which keeps what it accepted when a later
    /// input is refused, and returns the hand or the first error.
    pub fn confirm(&mut self) -> (r: Option<Result<Hand, GameError>>)
        requires
            old(self).players.wf(),
        ensures
            final(self).players == old(self).players,
            final(self).requester == old(self).requester,
            old(self).needs_points() ==> r is None && final(self).show_point_modal
                && final(self).hand_builder == old(self).hand_builder,
            !old(self).needs_points() ==> final(self).show_point_modal == old(
                self,
            ).show_point_modal && match old(self).confirm_error() {
                Some(e) => r == Some(Err::<Hand, GameError>(e)),
                None => r matches Some(Ok(_)),
            },
            r matches Some(Ok(h)) ==> {
                &&& h.wf()
                &&& old(self).hand_builder matches Some(b) && h.contract == b.spec_contract()
                &&& h.tricks == old(self).requester.tricks_value
                &&& h.contract.bid is Some ==> h.bid == Some(old(self).requester.bid_value)
                &&& old(self).made_from_selection(h.contractors)
            },
            r matches Some(Err(e)) && e != GameError::BidOutOfRange && e != GameError::InvalidInput(
                InputIssue::TricksOutOfRange,
            ) ==> final(self).hand_builder == old(self).hand_builder,
            r == Some(Err::<Hand, GameError>(GameError::BidOutOfRange)) || r == Some(
                Err::<Hand, GameError>(GameError::InvalidInput(InputIssue::TricksOutOfRange)),
            ) ==> {
                &&& old(self).hand_builder matches Some(b)
                &&& final(self).hand_builder matches Some(nb)
                &&& nb.spec_contract() == b.spec_contract()
                &&& !nb.spec_built()
                &&& nb.spec_contractors() matches Some(kept) && old(self).made_from_selection(kept)
                &&& nb.spec_tricks() == b.spec_tricks()
            },
            r == Some(Err::<Hand, GameError>(GameError::BidOutOfRange)) ==> (old(
                self,
            ).hand_builder matches Some(b) && final(self).hand_builder matches Some(nb)
                && nb.spec_bid() == b.spec_bid()),
    {
        let n = self.requester.selected_count();
        if n == NUM_PLAYERS - 1 && self.requester.points.is_none() {
            self.show_point_modal = true;
            return None;
        }
        if self.hand_builder.is_none() {
            return Some(Err(GameError::InvalidInput(InputIssue::NoContract)));
        }
        let c = match self.create_contractors(n) {
            Ok(c) => c,
            Err(e) => {
                return Some(Err(e));
            },
        };
        let ghost sel = self.requester.spec_selected();
        let ghost ps = self.players@;
        proof {
            let ids = contractor_ids(c);
            assert forall|k: int| 0 <= k < n implies (#[trigger] ids[k]).0 < NUM_PLAYERS by {
                lemma_id_of_in_range(ps, sel[k]);
            }
            assert forall|j: int, k: int| 0 <= j < k < n implies (ids[j] != ids[k] <==> id_of(
                ps,
                sel[j],
            ) != id_of(ps, sel[k])) by {
                assert(Some(ids[j]) == id_of(ps, sel[j]));
                assert(Some(ids[k]) == id_of(ps, sel[k]));
            }
            assert(ids.len() == n);
            if all_distinct(ps, sel, n as int) {
                assert forall|j: int, k: int| 0 <= j < k < ids.len() implies ids[j] != ids[k] by {
                    assert(id_of(ps, sel[j]) != id_of(ps, sel[k]));
                }
            }
            if ids_distinct(ids) {
                assert forall|j: int, k: int| 0 <= j < k < n implies id_of(ps, sel[j]) != id_of(
                    ps,
                    sel[k],
                ) by {
                    assert(ids[j] != ids[k]);
                }
            }
        }
        let bid = self.requester.bid_value;
        let tricks = self.requester.tricks_value;
        match &mut self.hand_builder {
            Some(b) => Some(fill_and_build(b, c, bid, tricks)),
            None => Some(Err(GameError::InvalidInput(InputIssue::NoContract))),
        }
    }
}

} // verus!
