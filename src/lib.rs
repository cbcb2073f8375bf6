//! Score keeping for a four-player game of whist: the player registry, the
//! rule catalog, the hand builder and its scoring, the ledger of hands, and
//! the state of the screens that enter them.

pub mod contractors;
pub mod error;
pub mod hand;
pub mod hand_entry;
pub mod laws;
pub mod ledger;
pub mod players;
pub mod requester;
pub mod rules;
pub mod scoring;
pub mod selection;
pub mod session;

pub use contractors::{check_contractors, Contractors, PlayerIdAndScore};
pub use error::{AppError, GameError, InputIssue};
pub use hand::{fill_and_build, Hand, HandBuilder, InputRequest, MAX_TRICKS};
pub use hand_entry::HandBuilderGUI;
pub use ledger::{HandRecap, HandsHistoric};
pub use players::{Player, PlayerId, Players, NUM_PLAYERS};
pub use requester::RequesterGui;
pub use rules::{select_rules, BidRange, Contract, GameMode, GameRules, Shape};
pub use scoring::{points_of, score};
pub use session::{Stage, WhistApp};
