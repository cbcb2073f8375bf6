use whist_calc::contractors::Contractors;
use whist_calc::error::{AppError, GameError, InputIssue};
use whist_calc::hand::InputRequest;
use whist_calc::hand_entry::HandBuilderGUI;
use whist_calc::players::{PlayerId, Players};
use whist_calc::requester::RequesterGui;
use whist_calc::rules::{BidRange, Contract, GameMode, GameRules, Shape};
use whist_calc::session::{Stage, WhistApp};

fn s(name: &str) -> String {
    name.to_string()
}

fn four_players() -> Players {
    let mut players = Players::new();
    for name in ["A", "B", "C", "D"] {
        players.add_player(s(name)).unwrap();
    }
    players
}

fn alone() -> Contract {
    Contract { gamemode: GameMode::Alone, shape: Shape::Solo, bid: Some(BidRange { min: 5, max: 13 }) }
}

fn custom() -> Contract {
    Contract { gamemode: GameMode::Custom, shape: Shape::Other, bid: None }
}

#[test]
fn selection_keeps_click_order_and_limit() {
    let mut r = RequesterGui::new();
    r.toggle_name(&s("C"), 2);
    r.toggle_name(&s("A"), 2);
    assert_eq!(r.selected_names(), vec![s("C"), s("A")]);
    assert_eq!(r.selected_count(), 2);
    assert!(r.is_selected(&s("A")));
    assert!(!r.is_selected(&s("B")));
    r.toggle_name(&s("B"), 2);
    assert_eq!(r.selected_names(), vec![s("C"), s("A")]);
    assert!(!r.can_select(&s("B"), 2));
    assert!(r.can_select(&s("C"), 2));
}

#[test]
fn deselecting_keeps_the_order_of_the_rest() {
    let mut r = RequesterGui::new();
    for name in ["D", "B", "A"] {
        r.toggle_name(&s(name), 3);
    }
    r.toggle_name(&s("B"), 3);
    assert_eq!(r.selected_names(), vec![s("D"), s("A")]);
    r.toggle_name(&s("C"), 3);
    assert_eq!(r.selected_names(), vec![s("D"), s("A"), s("C")]);
}

#[test]
fn readiness_depends_on_the_request() {
    let mut r = RequesterGui::new();
    assert!(!r.is_ready(1));
    assert!(!r.is_ready(3));
    r.toggle_name(&s("A"), 3);
    assert!(r.is_ready(1));
    assert!(!r.is_ready(2));
    assert!(!r.is_ready(3));
    r.toggle_name(&s("B"), 3);
    r.toggle_name(&s("C"), 3);
    assert!(r.is_ready(3));
}

#[test]
fn points_input_needs_three_names() {
    let mut r = RequesterGui::new();
    r.toggle_name(&s("A"), 3);
    match r.check_points_input() {
        Err(AppError::ImpossibleState(m)) => assert_eq!(m, "Input point Ui is created for 1"),
        Ok(()) => panic!("one name cannot take points"),
    }
    r.toggle_name(&s("B"), 3);
    r.toggle_name(&s("C"), 3);
    assert!(r.check_points_input().is_ok());
}

#[test]
fn selection_is_put_in_seating_order() {
    let players = four_players();
    let mut r = RequesterGui::new();
    for name in ["D", "A", "Z", "B"] {
        r.toggle_name(&s(name), 4);
    }
    r.order_by_players(&players);
    assert_eq!(r.selected_names(), vec![s("A"), s("B"), s("D"), s("Z")]);
}

#[test]
fn clear_forgets_everything() {
    let mut r = RequesterGui::new();
    r.toggle_name(&s("A"), 1);
    r.bid_value = 7;
    r.points = Some([1, 2, 3]);
    r.clear();
    assert_eq!(r.selected_count(), 0);
    assert_eq!(r.bid_value, 0);
    assert!(r.points.is_none());
}

#[test]
fn contractors_come_from_the_selection() {
    let mut gui = HandBuilderGUI::new(four_players());
    gui.requester.toggle_name(&s("C"), 2);
    gui.requester.toggle_name(&s("A"), 2);
    match gui.create_contractors(2).unwrap() {
        Contractors::Team(a, b) => assert_eq!((a, b), (PlayerId(2), PlayerId(0))),
        other => panic!("unexpected {:?}", other),
    }
    assert!(matches!(gui.create_contractors(1).unwrap(), Contractors::Solo(PlayerId(2))));
    assert_eq!(gui.create_contractors(0).unwrap_err(), GameError::TooManyPlayer);
    assert_eq!(gui.create_contractors(4).unwrap_err(), GameError::TooManyPlayer);
}

#[test]
fn unknown_names_and_missing_points_are_refused() {
    let mut gui = HandBuilderGUI::new(four_players());
    gui.requester.toggle_name(&s("A"), 3);
    gui.requester.toggle_name(&s("X"), 3);
    gui.requester.toggle_name(&s("B"), 3);
    assert_eq!(
        gui.create_contractors(3).unwrap_err(),
        GameError::InvalidInput(InputIssue::PointsNotSet)
    );
    gui.requester.points = Some([4, -1, 0]);
    assert_eq!(
        gui.create_contractors(3).unwrap_err(),
        GameError::InvalidInput(InputIssue::UnknownPlayer)
    );
}

#[test]
fn confirm_builds_the_hand() {
    let mut gui = HandBuilderGUI::new(four_players());
    assert_eq!(gui.confirm().unwrap().unwrap_err(), GameError::InvalidInput(InputIssue::NoContract));
    gui.new_hand(alone());
    gui.requester.toggle_name(&s("B"), 1);
    gui.requester.bid_value = 4;
    gui.requester.tricks_value = 6;
    assert_eq!(gui.confirm().unwrap().unwrap_err(), GameError::BidOutOfRange);
    gui.requester.bid_value = 6;
    let hand = gui.confirm().unwrap().unwrap();
    assert_eq!(hand.bid, Some(6));
    assert_eq!(hand.tricks, 6);
    assert!(matches!(hand.contractors, Contractors::Solo(PlayerId(1))));
    assert_eq!(gui.confirm().unwrap().unwrap_err(), GameError::AlreadyBuilt);
}

#[test]
fn confirm_refuses_a_wrong_shape() {
    let mut gui = HandBuilderGUI::new(four_players());
    gui.new_hand(alone());
    gui.requester.toggle_name(&s("A"), 2);
    gui.requester.toggle_name(&s("B"), 2);
    gui.requester.bid_value = 5;
    assert_eq!(gui.confirm().unwrap().unwrap_err(), GameError::ShapeMismatch);
}

#[test]
fn confirm_asks_for_points_first() {
    let mut gui = HandBuilderGUI::new(four_players());
    gui.new_hand(custom());
    for name in ["A", "B", "D"] {
        gui.requester.toggle_name(&s(name), 3);
    }
    assert!(gui.confirm().is_none());
    assert!(gui.show_point_modal);
    gui.requester.points = Some([2, 2, -1]);
    let hand = gui.confirm().unwrap().unwrap();
    match hand.contractors {
        Contractors::Other(list) => {
            let parts: Vec<(PlayerId, i16)> = list.iter().map(|e| e.as_components()).collect();
            assert_eq!(parts, vec![(PlayerId(0), 2), (PlayerId(1), 2), (PlayerId(3), -1)]);
        }
        other => panic!("unexpected {:?}", other),
    }
}

#[test]
fn session_walks_through_its_stages() {
    let mut app = WhistApp::new();
    assert_eq!(app.stage(), Stage::ChoosingRules);
    assert!(!app.start_hand());
    app.select_rules(GameRules::Dutch);
    assert_eq!(app.stage(), Stage::AddingPlayers);
    for (i, name) in ["A", "B", "C", "D"].iter().enumerate() {
        app.player_field = s(name);
        assert_eq!(app.submit_player(), Ok(i + 1));
        assert!(app.player_field.is_empty());
    }
    assert_eq!(app.hand_builder.players.names(), vec![s("A"), s("B"), s("C"), s("D")]);
    app.player_field = s("E");
    assert_eq!(app.submit_player(), Err(GameError::RegistryFull));
    assert_eq!(app.stage(), Stage::Playing);
    assert!(app.select_contract(1));
    assert!(!app.select_contract(8));
    assert!(app.start_hand());
    assert!(app.pending);
    app.hand_builder.requester.toggle_name(&s("C"), 1);
    app.hand_builder.requester.bid_value = 5;
    app.hand_builder.requester.tricks_value = 5;
    let hand = app.hand_builder.confirm().unwrap().unwrap();
    assert!(app.record_hand(hand));
    assert!(!app.pending);
    let scores: Vec<i64> = app.players.list().iter().map(|p| p.score).collect();
    assert_eq!(scores, vec![-3, -3, 9, -3]);
    assert_eq!(app.historic.len(), 1);
    assert_eq!(*app.historic.entry(0).unwrap().1, [-3, -3, 9, -3]);
    app.reset_game();
    assert_eq!(app.stage(), Stage::ChoosingRules);
    assert_eq!(app.players.len(), 0);
}

#[test]
fn entered_points_are_kept_within_bounds() {
    let mut r = RequesterGui::new();
    r.set_point(1, 500);
    assert_eq!(r.points, Some([0, 240, 0]));
    r.set_point(0, -300);
    r.set_point(2, 17);
    assert_eq!(r.points, Some([-240, 240, 17]));
}

#[test]
fn requests_say_how_many_names_they_want() {
    assert_eq!(InputRequest::ContractorsSolo.names_wanted(), Some(1));
    assert_eq!(InputRequest::ContractorsTeam.names_wanted(), Some(2));
    assert_eq!(InputRequest::ContractorsOther.names_wanted(), Some(3));
    assert_eq!(InputRequest::Tricks.names_wanted(), None);
    assert_eq!(InputRequest::Bid { min: 1, max: 13 }.names_wanted(), None);
}

#[test]
fn refused_input_keeps_the_builder_for_a_retry() {
    let mut gui = HandBuilderGUI::new(four_players());
    gui.new_hand(alone());
    gui.requester.toggle_name(&s("D"), 1);
    gui.requester.bid_value = 5;
    gui.requester.tricks_value = 20;
    assert_eq!(
        gui.confirm().unwrap().unwrap_err(),
        GameError::InvalidInput(InputIssue::TricksOutOfRange)
    );
    let b = gui.hand_builder.as_mut().unwrap();
    assert_eq!(b.contract(), alone());
    assert_eq!(b.build().unwrap_err(), GameError::MissingTricks);
    gui.requester.tricks_value = 5;
    let hand = gui.confirm().unwrap().unwrap();
    assert!(matches!(hand.contractors, Contractors::Solo(PlayerId(3))));
}

#[test]
fn fourth_player_opens_a_fresh_hand_screen() {
    let mut app = WhistApp::new();
    app.select_rules(GameRules::French);
    app.player_field = s("A");
    app.submit_player().unwrap();
    app.player_field = s("B");
    app.select_rules(GameRules::Dutch);
    assert_eq!(app.player_field, "B");
    for name in ["B", "C", "D"] {
        app.player_field = s(name);
        app.submit_player().unwrap();
    }
    assert_eq!(app.hand_builder.requester.selected_count(), 0);
    assert_eq!(app.hand_builder.requester.bid_value, 0);
    assert!(app.hand_builder.hand_builder.is_none());
    assert!(!app.hand_builder.show_point_modal);
    assert!(!app.pending);
}
