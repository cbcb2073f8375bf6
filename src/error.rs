use vstd::prelude::*;

verus! {

/// What was wrong with an input that is not covered by a more specific error.
#[derive(Debug, Clone, Copy, PartialEq, Eq, Structural)]
pub enum InputIssue {
    /// A player name is empty.
    EmptyName,
    /// A name does not belong to any registered player.
    UnknownPlayer,
    /// A player id is not below the number of players.
    PlayerIdOutOfRange,
    /// The same player is named twice among the contractors.
    RepeatedPlayer,
    /// A trick count is outside `0..=13`.
    TricksOutOfRange,
    /// The per-player points of an `Other` contract were never entered.
    PointsNotSet,
    /// No contract has been chosen for the hand being entered.
    NoContract,
}

/// The recoverable errors of the game engine.
#[derive(Debug, Clone, Copy, PartialEq, Eq, Structural)]
pub enum GameError {
    DuplicateName,
    RegistryFull,
    ShapeMismatch,
    BidOutOfRange,
    MissingContractors,
    MissingBid,
    MissingTricks,
    /// The builder already produced its hand.
    AlreadyBuilt,
    InvalidInput(InputIssue),
    /// More contractors were selected than any contract shape takes.
    TooManyPlayer,
}

/// Errors of the input screens around the engine.
#[derive(Debug)]
pub enum AppError {
    ImpossibleState(String),
}

} // verus!
