use whist_calc::contractors::{Contractors, PlayerIdAndScore};
use whist_calc::error::{GameError, InputIssue};
use whist_calc::hand::{fill_and_build, Hand, HandBuilder, InputRequest};
use whist_calc::ledger::{HandRecap, HandsHistoric};
use whist_calc::players::{PlayerId, Players};
use whist_calc::rules::{select_rules, BidRange, Contract, GameMode, GameRules, Shape};
use whist_calc::scoring::{points_of, score};

fn four_players() -> Players {
    let mut players = Players::new();
    for name in ["A", "B", "C", "D"] {
        players.add_player(name.to_string()).unwrap();
    }
    players
}

fn contract(gamemode: GameMode, shape: Shape, bid: Option<(i16, i16)>) -> Contract {
    Contract { gamemode, shape, bid: bid.map(|(min, max)| BidRange { min, max }) }
}

fn recap_with(scores: [i64; 4]) -> HandRecap {
    HandRecap {
        gamemode_name: "Custom".to_string(),
        bid: None,
        tricks: 0,
        contractors: Contractors::Solo(PlayerId(0)),
        scores,
    }
}

fn solo_hand(bid: i16, tricks: i16) -> Hand {
    let mut b = HandBuilder::new(contract(GameMode::Alone, Shape::Solo, Some((1, 13))));
    b.set_contractors(Contractors::Solo(PlayerId(1))).unwrap();
    b.set_bid(bid).unwrap();
    b.set_tricks(tricks).unwrap();
    b.build().unwrap()
}

#[test]
fn unique_names_are_added_in_order() {
    let mut players = Players::new();
    for (i, name) in ["A", "B", "C", "D"].iter().enumerate() {
        assert_eq!(players.add_player(name.to_string()), Ok(i + 1));
        assert_eq!(players.len(), i + 1);
    }
    assert!(players.is_full());
    assert_eq!(players.names(), vec!["A", "B", "C", "D"]);
    for (i, p) in players.list().iter().enumerate() {
        assert_eq!(p.id, PlayerId(i));
        assert_eq!(p.score, 0);
    }
}

#[test]
fn fifth_player_is_refused() {
    let mut players = four_players();
    assert_eq!(players.add_player("E".to_string()), Err(GameError::RegistryFull));
    assert_eq!(players.len(), 4);
}

#[test]
fn duplicate_name_is_refused_whatever_the_size() {
    let mut players = Players::new();
    players.add_player("A".to_string()).unwrap();
    assert_eq!(players.add_player("A".to_string()), Err(GameError::DuplicateName));
    assert_eq!(players.len(), 1);
    let mut full = four_players();
    assert_eq!(full.add_player("C".to_string()), Err(GameError::DuplicateName));
}

#[test]
fn empty_name_is_refused() {
    let mut players = Players::new();
    assert_eq!(
        players.add_player(String::new()),
        Err(GameError::InvalidInput(InputIssue::EmptyName))
    );
    assert_eq!(players.len(), 0);
}

#[test]
fn ids_are_found_by_name() {
    let players = four_players();
    assert_eq!(players.get_id(&"C".to_string()), Some(PlayerId(2)));
    assert_eq!(players.get_id(&"Z".to_string()), None);
}

#[test]
fn scores_are_applied_by_id() {
    let mut players = four_players();
    players.apply_scores(&[3, -1, -1, -1]);
    players.apply_scores(&[1, 2, 3, -6]);
    let scores: Vec<i64> = players.list().iter().map(|p| p.score).collect();
    assert_eq!(scores, vec![4, 1, 2, -7]);
}

#[test]
fn rule_sets_list_their_contracts_in_a_fixed_order() {
    let dutch = select_rules(&GameRules::Dutch);
    let modes: Vec<GameMode> = dutch.iter().map(|c| c.gamemode).collect();
    assert_eq!(
        modes,
        vec![
            GameMode::Proposal,
            GameMode::Alone,
            GameMode::Abondance,
            GameMode::Misere,
            GameMode::OpenMisere,
            GameMode::Troel,
            GameMode::Slam,
            GameMode::Custom,
        ]
    );
    assert_eq!(dutch[0].bid, Some(BidRange { min: 8, max: 13 }));
    assert_eq!(dutch[0].shape, Shape::Team);
    assert_eq!(select_rules(&GameRules::Dutch), dutch);
    let french = select_rules(&GameRules::French);
    assert_eq!(french.len(), 4);
    assert_eq!(french[0], contract(GameMode::Alone, Shape::Solo, Some((1, 13))));
    assert_eq!(french[3].shape, Shape::Other);
}

#[test]
fn names_of_rules_and_modes() {
    assert_eq!(GameRules::Dutch.name(), "Dutch");
    assert_eq!(GameRules::French.name(), "French");
    assert_eq!(GameMode::OpenMisere.name(), "Open misere");
    assert_eq!(GameMode::Alone.name(), "Alone");
}

#[test]
fn requests_follow_the_contract() {
    let b = HandBuilder::new(contract(GameMode::Alone, Shape::Solo, Some((5, 13))));
    assert_eq!(
        b.all_requests(),
        vec![InputRequest::ContractorsSolo, InputRequest::Bid { min: 5, max: 13 }, InputRequest::Tricks]
    );
    assert_eq!(b.all_requests(), b.all_requests());
    let t = HandBuilder::new(contract(GameMode::Troel, Shape::Team, None));
    assert_eq!(t.all_requests(), vec![InputRequest::ContractorsTeam, InputRequest::Tricks]);
    let o = HandBuilder::new(contract(GameMode::Custom, Shape::Other, None));
    assert_eq!(o.all_requests()[0], InputRequest::ContractorsOther);
}

#[test]
fn solo_contract_refuses_a_team() {
    let mut b = HandBuilder::new(contract(GameMode::Alone, Shape::Solo, Some((5, 13))));
    assert_eq!(
        b.set_contractors(Contractors::Team(PlayerId(0), PlayerId(1))),
        Err(GameError::ShapeMismatch)
    );
    let mut m = HandBuilder::new(contract(GameMode::Misere, Shape::Solo, None));
    assert_eq!(
        m.set_contractors(Contractors::Team(PlayerId(2), PlayerId(3))),
        Err(GameError::ShapeMismatch)
    );
}

#[test]
fn other_hand_needs_all_players_but_one() {
    let mut b = HandBuilder::new(contract(GameMode::Custom, Shape::Other, None));
    let two = vec![PlayerIdAndScore::new(PlayerId(0), 1), PlayerIdAndScore::new(PlayerId(1), 2)];
    assert_eq!(b.set_contractors(Contractors::Other(two)), Err(GameError::ShapeMismatch));
    let three = vec![
        PlayerIdAndScore::new(PlayerId(0), 1),
        PlayerIdAndScore::new(PlayerId(1), 2),
        PlayerIdAndScore::new(PlayerId(2), 3),
    ];
    assert_eq!(b.set_contractors(Contractors::Other(three)), Ok(()));
}

#[test]
fn contractors_must_name_distinct_seats() {
    let mut b = HandBuilder::new(contract(GameMode::Proposal, Shape::Team, Some((8, 13))));
    assert_eq!(
        b.set_contractors(Contractors::Team(PlayerId(1), PlayerId(1))),
        Err(GameError::InvalidInput(InputIssue::RepeatedPlayer))
    );
    assert_eq!(
        b.set_contractors(Contractors::Team(PlayerId(1), PlayerId(4))),
        Err(GameError::InvalidInput(InputIssue::PlayerIdOutOfRange))
    );
    assert_eq!(b.set_contractors(Contractors::Team(PlayerId(1), PlayerId(3))), Ok(()));
}

#[test]
fn bid_bounds_are_inclusive() {
    let c = contract(GameMode::Alone, Shape::Solo, Some((5, 13)));
    let mut b = HandBuilder::new(c);
    assert_eq!(b.set_bid(4), Err(GameError::BidOutOfRange));
    assert_eq!(b.set_bid(14), Err(GameError::BidOutOfRange));
    assert_eq!(b.set_bid(5), Ok(()));
    assert_eq!(b.set_bid(13), Ok(()));
    assert_eq!(b.set_bid(9), Ok(()));
}

#[test]
fn bid_is_ignored_without_a_range() {
    let mut b = HandBuilder::new(contract(GameMode::Misere, Shape::Solo, None));
    assert_eq!(b.set_bid(42), Ok(()));
    b.set_contractors(Contractors::Solo(PlayerId(0))).unwrap();
    b.set_tricks(0).unwrap();
    assert_eq!(b.build().unwrap().bid, None);
}

#[test]
fn tricks_must_fit_a_deal() {
    let mut b = HandBuilder::new(contract(GameMode::Misere, Shape::Solo, None));
    assert_eq!(b.set_tricks(-1), Err(GameError::InvalidInput(InputIssue::TricksOutOfRange)));
    assert_eq!(b.set_tricks(14), Err(GameError::InvalidInput(InputIssue::TricksOutOfRange)));
    assert_eq!(b.set_tricks(0), Ok(()));
    assert_eq!(b.set_tricks(13), Ok(()));
}

#[test]
fn build_names_the_missing_input_then_succeeds() {
    let mut b = HandBuilder::new(contract(GameMode::Alone, Shape::Solo, Some((5, 13))));
    assert_eq!(b.build().unwrap_err(), GameError::MissingContractors);
    b.set_contractors(Contractors::Solo(PlayerId(2))).unwrap();
    assert_eq!(b.build().unwrap_err(), GameError::MissingBid);
    b.set_bid(6).unwrap();
    assert_eq!(b.build().unwrap_err(), GameError::MissingTricks);
    b.set_tricks(7).unwrap();
    let hand = b.build().unwrap();
    assert_eq!(hand.bid, Some(6));
    assert_eq!(hand.tricks, 7);
    assert!(matches!(hand.contractors, Contractors::Solo(PlayerId(2))));
    assert_eq!(b.build().unwrap_err(), GameError::AlreadyBuilt);
    assert_eq!(b.set_tricks(3), Err(GameError::AlreadyBuilt));
}

#[test]
fn refused_bid_keeps_earlier_inputs() {
    let mut b = HandBuilder::new(contract(GameMode::Alone, Shape::Solo, Some((5, 13))));
    let r = fill_and_build(&mut b, Contractors::Solo(PlayerId(0)), 2, 8);
    assert_eq!(r.unwrap_err(), GameError::BidOutOfRange);
    assert_eq!(b.build().unwrap_err(), GameError::MissingBid);
    b.set_bid(5).unwrap();
    b.set_tricks(8).unwrap();
    assert!(b.build().is_ok());
}

#[test]
fn solo_scores_three_against_one() {
    let d = score(&solo_hand(5, 5));
    assert_eq!(d, [-3, 9, -3, -3]);
    let over = score(&solo_hand(5, 7));
    assert_eq!(over, [-5, 15, -5, -5]);
    let down = score(&solo_hand(6, 4));
    assert_eq!(down, [5, -15, 5, 5]);
}

#[test]
fn team_scores_one_each() {
    let mut b = HandBuilder::new(contract(GameMode::Proposal, Shape::Team, Some((8, 13))));
    b.set_contractors(Contractors::Team(PlayerId(0), PlayerId(2))).unwrap();
    b.set_bid(8).unwrap();
    b.set_tricks(10).unwrap();
    assert_eq!(score(&b.build().unwrap()), [4, -4, 4, -4]);
}

#[test]
fn misere_and_fixed_targets() {
    assert_eq!(points_of(GameMode::Misere, None, 0), 7);
    assert_eq!(points_of(GameMode::Misere, None, 1), -7);
    assert_eq!(points_of(GameMode::OpenMisere, None, 0), 14);
    assert_eq!(points_of(GameMode::Troel, None, 9), 5);
    assert_eq!(points_of(GameMode::Slam, None, 13), 20);
    assert_eq!(points_of(GameMode::Slam, None, 12), -20);
    assert_eq!(points_of(GameMode::Abondance, Some(10), 9), -6);
}

#[test]
fn other_hand_balances_the_player_left_out() {
    let mut b = HandBuilder::new(contract(GameMode::Custom, Shape::Other, None));
    let list = vec![
        PlayerIdAndScore::new(PlayerId(0), 5),
        PlayerIdAndScore::new(PlayerId(1), -2),
        PlayerIdAndScore::new(PlayerId(3), 1),
    ];
    b.set_contractors(Contractors::Other(list)).unwrap();
    b.set_tricks(0).unwrap();
    assert_eq!(score(&b.build().unwrap()), [5, -2, -4, 1]);
}

#[test]
fn scoring_twice_gives_the_same_deltas() {
    let hand = solo_hand(8, 9);
    assert_eq!(score(&hand), score(&hand));
    assert_eq!(score(&hand), [-4, 12, -4, -4]);
}

#[test]
fn recap_keeps_the_hand_and_its_scores() {
    let recap = HandRecap::new(solo_hand(5, 6));
    assert_eq!(recap.gamemode_name, "Alone");
    assert_eq!(recap.bid, Some(5));
    assert_eq!(recap.tricks, 6);
    assert_eq!(recap.scores, [-4, 12, -4, -4]);
}

#[test]
fn ledger_keeps_running_totals() {
    let mut h = HandsHistoric::new();
    h.push(recap_with([3, -1, -1, -1]));
    h.push(recap_with([1, -1, 2, -2]));
    h.push(recap_with([-2, 0, 0, 2]));
    assert_eq!(h.len(), 3);
    assert_eq!(*h.entry(0).unwrap().1, [3, -1, -1, -1]);
    assert_eq!(*h.entry(1).unwrap().1, [4, -2, 1, -3]);
    assert_eq!(*h.entry(2).unwrap().1, [2, -2, 1, -1]);
    assert_eq!(h.entry(1).unwrap().0.scores, [1, -1, 2, -2]);
    assert!(h.entry(3).is_none());
}

#[test]
fn remove_last_restores_the_previous_ledger() {
    let mut h = HandsHistoric::new();
    h.push(recap_with([3, -1, -1, -1]));
    h.push(recap_with([1, -1, 2, -2]));
    h.remove_last();
    assert_eq!(h.len(), 1);
    assert_eq!(*h.entry(0).unwrap().1, [3, -1, -1, -1]);
    h.push(recap_with([0, 0, 1, -1]));
    assert_eq!(*h.entry(1).unwrap().1, [3, -1, 0, -2]);
}

#[test]
fn remove_last_on_empty_ledger_does_nothing() {
    let mut h = HandsHistoric::new();
    h.remove_last();
    assert_eq!(h.len(), 0);
    h.push(recap_with([1, 1, -1, -1]));
    assert_eq!(*h.entry(0).unwrap().1, [1, 1, -1, -1]);
}

#[test]
fn ledger_refuses_room_it_does_not_have() {
    let mut h = HandsHistoric::new();
    h.push(recap_with([i64::MAX, 0, 0, 0]));
    assert!(!h.has_room_for(&recap_with([1, 0, 0, 0])));
    assert!(h.has_room_for(&recap_with([-1, 5, 0, 0])));
}

#[test]
fn end_to_end_scenario() {
    let mut players = Players::new();
    for name in ["A", "B", "C", "D"] {
        players.add_player(name.to_string()).unwrap();
    }
    for (i, name) in ["A", "B", "C", "D"].iter().enumerate() {
        assert_eq!(players.get_id(&name.to_string()), Some(PlayerId(i)));
    }
    let mut b = HandBuilder::new(contract(GameMode::Alone, Shape::Solo, Some((1, 13))));
    b.set_contractors(Contractors::Solo(PlayerId(1))).unwrap();
    b.set_bid(5).unwrap();
    b.set_tricks(5).unwrap();
    let hand = b.build().unwrap();
    let d = score(&hand);
    players.apply_scores(&d);
    assert_eq!(players.list()[1].score, d[1]);
    let mut h = HandsHistoric::new();
    h.push(HandRecap::new(hand));
    assert_eq!(*h.entry(0).unwrap().1, d);

    let mut ledger = HandsHistoric::new();
    ledger.push(recap_with([3, -1, -1, -1]));
    ledger.push(recap_with([1, -1, 2, -2]));
    assert_eq!(*ledger.entry(1).unwrap().1, [4, -2, 1, -3]);
}
