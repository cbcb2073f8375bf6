use vstd::prelude::*;

verus! {

/// The rule sets a session can be played under.
#[derive(Debug, Clone, Copy, PartialEq, Eq, Structural, Hash)]
pub enum GameRules {
    Dutch,
    French,
}

/// The scoring modes that contracts are played in.
#[derive(Debug, Clone, Copy, PartialEq, Eq, Structural, Hash)]
pub enum GameMode {
    /// Two players bid together on a number of tricks.
    Proposal,
    /// One player bids on a number of tricks alone.
    Alone,
    /// One player bids on nine or more tricks alone.
    Abondance,
    /// One player must take no trick.
    Misere,
    /// One player must take no trick, playing with open cards.
    OpenMisere,
    /// The holder of three aces plays with the holder of the fourth, for eight tricks.
    Troel,
    /// One player must take every trick.
    Slam,
    /// The points of three players are entered by hand.
    Custom,
}

/// Which players a contract is played by.
#[derive(Debug, Clone, Copy, PartialEq, Eq, Structural, Hash)]
pub enum Shape {
    Solo,
    Team,
    Other,
}

/// The inclusive range of legal bids.
#[derive(Debug, Clone, Copy, PartialEq, Eq, Structural, Hash)]
pub struct BidRange {
    pub min: i16,
    pub max: i16,
}

/// A scoring mode with the contractor shape it is played by and, where it is
/// played on a bid, the legal bids.
#[derive(Debug, Clone, Copy, PartialEq, Eq, Structural, Hash)]
pub struct Contract {
    pub gamemode: GameMode,
    pub shape: Shape,
    pub bid: Option<BidRange>,
}

pub open spec fn contract(gamemode: GameMode, shape: Shape, bid: Option<BidRange>) -> Contract {
    Contract { gamemode, shape, bid }
}

pub open spec fn bid_range(min: i16, max: i16) -> Option<BidRange> {
    Some(BidRange { min, max })
}

/// The contracts of each rule set, in the order they are offered.
pub open spec fn catalog(rules: GameRules) -> Seq<Contract> {
    match rules {
        GameRules::Dutch => seq![
            contract(GameMode::Proposal, Shape::Team, bid_range(8, 13)),
            contract(GameMode::Alone, Shape::Solo, bid_range(5, 13)),
            contract(GameMode::Abondance, Shape::Solo, bid_range(9, 12)),
            contract(GameMode::Misere, Shape::Solo, None),
            contract(GameMode::OpenMisere, Shape::Solo, None),
            contract(GameMode::Troel, Shape::Team, None),
            contract(GameMode::Slam, Shape::Solo, None),
            contract(GameMode::Custom, Shape::Other, None),
        ],
        GameRules::French => seq![
            contract(GameMode::Alone, Shape::Solo, bid_range(1, 13)),
            contract(GameMode::Proposal, Shape::Team, bid_range(7, 13)),
            contract(GameMode::Misere, Shape::Solo, None),
            contract(GameMode::Custom, Shape::Other, None),
        ],
    }
}

fn push_contract(out: &mut Vec<Contract>, gamemode: GameMode, shape: Shape, bid: Option<BidRange>)
    ensures
        final(out)@ == old(out)@.push(contract(gamemode, shape, bid)),
{
    out.push(Contract { gamemode, shape, bid });
}

/// The contracts offered under `rules`, always in the same order.
pub fn select_rules(rules: &GameRules) -> (r: Vec<Contract>)
    ensures
        r@ == catalog(*rules),
{
    let mut out: Vec<Contract> = Vec::new();
    match rules {
        GameRules::Dutch => {
            push_contract(&mut out, GameMode::Proposal, Shape::Team, Some(BidRange { min: 8, max: 13 }));
            push_contract(&mut out, GameMode::Alone, Shape::Solo, Some(BidRange { min: 5, max: 13 }));
            push_contract(&mut out, GameMode::Abondance, Shape::Solo, Some(BidRange { min: 9, max: 12 }));
            push_contract(&mut out, GameMode::Misere, Shape::Solo, None);
            push_contract(&mut out, GameMode::OpenMisere, Shape::Solo, None);
            push_contract(&mut out, GameMode::Troel, Shape::Team, None);
            push_contract(&mut out, GameMode::Slam, Shape::Solo, None);
            push_contract(&mut out, GameMode::Custom, Shape::Other, None);
        },
        GameRules::French => {
            push_contract(&mut out, GameMode::Alone, Shape::Solo, Some(BidRange { min: 1, max: 13 }));
            push_contract(&mut out, GameMode::Proposal, Shape::Team, Some(BidRange { min: 7, max: 13 }));
            push_contract(&mut out, GameMode::Misere, Shape::Solo, None);
            push_contract(&mut out, GameMode::Custom, Shape::Other, None);
        },
    }
    assert(out@ =~= catalog(*rules));
    out
}

impl GameRules {
    pub open spec fn spec_name(self) -> Seq<char> {
        match self {
            GameRules::Dutch => "Dutch"@,
            GameRules::French => "French"@,
        }
    }

    pub fn name(&self) -> (r: String)
        ensures
            r@ == self.spec_name(),
    {
        match self {
            GameRules::Dutch => "Dutch".to_owned(),
            GameRules::French => "French".to_owned(),
        }
    }
}

impl GameMode {
    pub open spec fn spec_name(self) -> Seq<char> {
        match self {
            GameMode::Proposal => "Proposal"@,
            GameMode::Alone => "Alone"@,
            GameMode::Abondance => "Abondance"@,
            GameMode::Misere => "Misere"@,
            GameMode::OpenMisere => "Open misere"@,
            GameMode::Troel => "Troel"@,
            GameMode::Slam => "Slam"@,
            GameMode::Custom => "Custom"@,
        }
    }

    pub fn name(&self) -> (r: String)
        ensures
            r@ == self.spec_name(),
    {
        match self {
            GameMode::Proposal => "Proposal".to_owned(),
            GameMode::Alone => "Alone".to_owned(),
            GameMode::Abondance => "Abondance".to_owned(),
            GameMode::Misere => "Misere".to_owned(),
            GameMode::OpenMisere => "Open misere".to_owned(),
            GameMode::Troel => "Troel".to_owned(),
            GameMode::Slam => "Slam".to_owned(),
            GameMode::Custom => "Custom".to_owned(),
        }
    }
}

} // verus!
