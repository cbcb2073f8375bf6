use vstd::prelude::*;

use crate::error::GameError;
use crate::hand::Hand;
use crate::hand_entry::HandBuilderGUI;
use crate::ledger::{running_total, HandRecap, HandsHistoric};
use crate::players::{add_outcome, after_add, Players, NUM_PLAYERS};
use crate::rules::{catalog, select_rules, Contract, GameRules};
use crate::scoring::spec_score;

verus! {

/// Which screen a session is on.
#[derive(Debug, Clone, Copy, PartialEq, Eq, Structural)]
pub enum Stage {
    ChoosingRules,
    AddingPlayers,
    Playing,
}

/// One game: the rules, the players, the hand being entered and the hands
/// played.
pub struct WhistApp {
    pub players: Players,
    /// The name typed for the next player.
    pub player_field: String,
    /// The chosen rule set and its contracts.
    pub gamerules: Option<(GameRules, Vec<Contract>)>,
    /// The position of the contract chosen for the next hand.
    pub selected_contract: usize,
    pub hand_builder: HandBuilderGUI,
    pub historic: HandsHistoric,
    /// Whether a hand is being entered.
    pub pending: bool,
}

impl WhistApp {
    pub open spec fn wf(&self) -> bool {
        &&& self.players.wf()
        &&& self.hand_builder.players.wf()
        &&& self.historic.wf()
        &&& self.gamerules matches Some((rules, contracts)) ==> contracts@ == catalog(rules)
    }

    /// The state of a session that has not started.
    pub open spec fn is_fresh(&self) -> bool {
        &&& self.players@ == Seq::<crate::players::Player>::empty()
        &&& self.player_field@ == Seq::<char>::empty()
        &&& self.gamerules is None
        &&& self.selected_contract == 0
        &&& self.hand_builder.players@ == Seq::<crate::players::Player>::empty()
        &&& self.hand_builder.hand_builder is None
        &&& self.historic@ == Seq::<HandRecap>::empty()
        &&& !self.pending
    }

    pub fn new() -> (r: WhistApp)
        ensures
            r.wf(),
            r.is_fresh(),
    {
        WhistApp {
            players: Players::new(),
            player_field: String::new(),
            gamerules: None,
            selected_contract: 0,
            hand_builder: HandBuilderGUI::new(Players::new()),
            historic: HandsHistoric::new(),
            pending: false,
        }
    }

    /// Starts over: no rules, no players, no hands.
    pub fn reset_game(&mut self)
        ensures
            final(self).wf(),
            final(self).is_fresh(),
    {
        *self = WhistApp::new();
    }

    /// The screen to show: the rule choice until rules are chosen, then the
    /// player entry until four players are in, then the game.
    pub fn stage(&self) -> (r: Stage)
        ensures
            r == (if self.gamerules is None {
                Stage::ChoosingRules
            } else if self.players@.len() != NUM_PLAYERS {
                Stage::AddingPlayers
            } else {
                Stage::Playing
            }),
    {
        if self.gamerules.is_none() {
            Stage::ChoosingRules
        } else if self.players.len() != NUM_PLAYERS {
            Stage::AddingPlayers
        } else {
            Stage::Playing
        }
    }

    /// Plays under `rules`, offering its contracts with the first chosen.
    pub fn select_rules(&mut self, rules: GameRules)
        requires
            old(self).wf(),
        ensures
            final(self).wf(),
            final(self).gamerules matches Some((g, contracts)) && g == rules && contracts@
                == catalog(rules),
            final(self).selected_contract == 0,
            final(self).players == old(self).players,
            final(self).player_field == old(self).player_field,
            final(self).hand_builder == old(self).hand_builder,
            final(self).historic == old(self).historic,
            final(self).pending == old(self).pending,
    {
        let contracts = select_rules(&rules);
        self.gamerules = Some((rules, contracts));
        self.selected_contract = 0;
    }

    /// Adds the typed name as a player and empties the field. The fourth
    /// player completes the table, and the hand screen gets its own copy of
    /// the registry.
    pub fn submit_player(&mut self) -> (r: Result<usize, GameError>)
        requires
            old(self).wf(),
        ensures
            final(self).wf(),
            r == add_outcome(old(self).players@, old(self).player_field@),
            final(self).players@ == after_add(old(self).players@, old(self).player_field),
            final(self).player_field@ == Seq::<char>::empty(),
            r == Ok::<usize, GameError>(NUM_PLAYERS) ==> {
                &&& final(self).hand_builder.players@ == final(self).players@
                &&& final(self).hand_builder.hand_builder is None
                &&& final(self).hand_builder.requester.spec_selected() == Seq::<Seq<char>>::empty()
                &&& final(self).hand_builder.requester.bid_value == 0
                &&& final(self).hand_builder.requester.tricks_value == 0
                &&& final(self).hand_builder.requester.points is None
                &&& !final(self).hand_builder.show_point_modal
            },
            r != Ok::<usize, GameError>(NUM_PLAYERS) ==> final(self).hand_builder == old(self).hand_builder,
            final(self).gamerules == old(self).gamerules,
            final(self).historic == old(self).historic,
            final(self).pending == old(self).pending,
            final(self).selected_contract == old(self).selected_contract,
    {
        let name = self.player_field.clone();
        self.player_field = String::new();
        let r = self.players.add_player(name);
        if let Ok(count) = r {
            if count == NUM_PLAYERS {
                self.hand_builder = HandBuilderGUI::new(self.players.copy_registry());
            }
        }
        r
    }

    /// Chooses the contract at `index` for the next hand, if there is one.
    pub fn select_contract(&mut self, index: usize) -> (r: bool)
        ensures
            r == (old(self).gamerules matches Some((_, contracts)) && index < contracts@.len()),
            r ==> final(self).selected_contract == index,
            !r ==> final(self).selected_contract == old(self).selected_contract,
            final(self).players == old(self).players,
            final(self).gamerules == old(self).gamerules,
            final(self).hand_builder == old(self).hand_builder,
            final(self).historic == old(self).historic,
            final(self).pending == old(self).pending,
    {
        let ok = match &self.gamerules {
            Some((_, contracts)) => index < contracts.len(),
            None => false,
        };
        if ok {
            self.selected_contract = index;
        }
        ok
    }

    /// Starts entering a hand under the chosen contract, if rules are chosen.
    pub fn start_hand(&mut self) -> (r: bool)
        requires
            old(self).wf(),
        ensures
            final(self).wf(),
            r == (old(self).gamerules matches Some((_, contracts)) && old(self).selected_contract
                < contracts@.len()),
            r ==> final(self).pending,
            r ==> (final(self).hand_builder.hand_builder matches Some(b) && old(self).gamerules matches Some(
                (_, contracts),
            ) && b.spec_contract() == contracts@[old(self).selected_contract as int]
                && b.spec_contractors() is None && !b.spec_built()),
            r ==> final(self).hand_builder.players == old(self).hand_builder.players,
            !r ==> *final(self) == *old(self),
            final(self).players == old(self).players,
            final(self).gamerules == old(self).gamerules,
            final(self).historic == old(self).historic,
    {
        let contract = match &self.gamerules {
            Some((_, contracts)) => {
                if self.selected_contract < contracts.len() {
                    contracts[self.selected_contract]
                } else {
                    return false;
                }
            },
            None => {
                return false;
            },
        };
        self.hand_builder.new_hand(contract);
        self.pending = true;
        true
    }

    /// Scores a built hand, adds the deltas to the players and the recap to
    /// the ledger, and ends the entry. Refused, with nothing changed, when a
    /// score or a cumulative score would leave `i64`.
    pub fn record_hand(&mut self, hand: Hand) -> (r: bool)
        requires
            old(self).wf(),
            hand.wf(),
        ensures
            final(self).wf(),
            r == (forall|p: int|
                0 <= p < NUM_PLAYERS ==> {
                    &&& (p < old(self).players@.len() ==> i64::MIN <= old(self).players@[p].score
                        + #[trigger] spec_score(hand)[p] <= i64::MAX)
                    &&& i64::MIN <= running_total(old(self).historic@, p) + spec_score(hand)[p]
                        <= i64::MAX
                }),
            !r ==> *final(self) == *old(self),
            r ==> {
                &&& final(self).historic@.len() == old(self).historic@.len() + 1
                &&& final(self).historic@.drop_last() == old(self).historic@
                &&& final(self).historic@.last().contractors == hand.contractors
                &&& final(self).historic@.last().tricks == hand.tricks
                &&& final(self).historic@.last().bid == hand.bid
                &&& forall|p: int|
                    0 <= p < NUM_PLAYERS ==> final(self).historic@.last().scores@[p]
                        == #[trigger] spec_score(hand)[p]
                &&& final(self).players@.len() == old(self).players@.len()
                &&& forall|i: int|
                    0 <= i < old(self).players@.len() ==> (#[trigger] final(self).players@[i]).name
                        == old(self).players@[i].name && final(self).players@[i].score == old(self).players@[i].score + spec_score(hand)[i]
                &&& !final(self).pending
            },
    {
        let ghost h = hand;
        let recap = HandRecap::new(hand);
        proof {
            let l = self.historic@;
            assert(l.push(recap).drop_last() =~= l);
            assert(forall|p: int|
                0 <= p < NUM_PLAYERS ==> #[trigger] running_total(l.push(recap), p)
                    == running_total(l, p) + recap.scores@[p]);
        }
        if !self.players.has_room_for(&recap.scores) {
            proof {
                let i = choose|i: int|
                    0 <= i < self.players@.len() && !(i64::MIN <= #[trigger] self.players@[i].score
                        + recap.scores@[i] <= i64::MAX);
                assert(recap.scores@[i] == spec_score(h)[i]);
            }
            return false;
        }
        if !self.historic.has_room_for(&recap) {
            proof {
                let l = self.historic@;
                let p = choose|p: int|
                    0 <= p < NUM_PLAYERS && !(i64::MIN <= #[trigger] running_total(l.push(recap), p)
                        <= i64::MAX);
                assert(recap.scores@[p] == spec_score(h)[p]);
            }
            return false;
        }
        proof {
            let l = self.historic@;
            assert forall|p: int| 0 <= p < NUM_PLAYERS implies {
                &&& (p < old(self).players@.len() ==> i64::MIN <= old(self).players@[p].score
                    + #[trigger] spec_score(h)[p] <= i64::MAX)
                &&& i64::MIN <= running_total(old(self).historic@, p) + spec_score(h)[p]
                    <= i64::MAX
            } by {
                assert(recap.scores@[p] == spec_score(h)[p]);
                assert(i64::MIN <= running_total(l.push(recap), p) <= i64::MAX);
                if p < old(self).players@.len() {
                    assert(i64::MIN <= self.players@[p].score + recap.scores@[p] <= i64::MAX);
                }
            }
        }
        self.players.apply_scores(&recap.scores);
        self.historic.push(recap);
        self.pending = false;
        proof {
            assert(self.historic@.drop_last() =~= old(self).historic@);
        }
        true
    }
}

impl Default for WhistApp {
    fn default() -> (r: WhistApp)
        ensures
            r.wf(),
            r.is_fresh(),
    {
        WhistApp::new()
    }
}

} // verus!
