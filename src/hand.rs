use vstd::prelude::*;

use crate::contractors::{check_contractors, contractors_error, Contractors};
use crate::error::{GameError, InputIssue};
use crate::players::NUM_PLAYERS;
use crate::rules::{Contract, Shape};

verus! {

/// The largest number of tricks in a deal.
pub const MAX_TRICKS: i16 = 13;

/// One piece of information that a hand under construction asks for.
#[derive(Debug, Clone, Copy, PartialEq, Eq, Structural)]
pub enum InputRequest {
    ContractorsSolo,
    ContractorsTeam,
    ContractorsOther,
    Bid { min: i16, max: i16 },
    Tricks,
}

impl InputRequest {
    /// How many names a contractors request asks for: one for a solo, two
    /// for a team, every player but one for an `Other` hand; none for a bid
    /// or tricks.
    pub open spec fn spec_names_wanted(self) -> Option<usize> {
        match self {
            InputRequest::ContractorsSolo => Some(1),
            InputRequest::ContractorsTeam => Some(2),
            InputRequest::ContractorsOther => Some((NUM_PLAYERS - 1) as usize),
            _ => None,
        }
    }

    pub fn names_wanted(&self) -> (r: Option<usize>)
        ensures
            r == self.spec_names_wanted(),
    {
        match self {
            InputRequest::ContractorsSolo => Some(1),
            InputRequest::ContractorsTeam => Some(2),
            InputRequest::ContractorsOther => Some(NUM_PLAYERS - 1),
            _ => None,
        }
    }
}

pub open spec fn contractors_request(shape: Shape) -> InputRequest {
    match shape {
        Shape::Solo => InputRequest::ContractorsSolo,
        Shape::Team => InputRequest::ContractorsTeam,
        Shape::Other => InputRequest::ContractorsOther,
    }
}

/// What a hand under `c` asks for, in order: the contractors, the bid where
/// the contract has one, and the tricks.
pub open spec fn requests_for(c: Contract) -> Seq<InputRequest> {
    match c.bid {
        Some(r) => seq![
            contractors_request(c.shape),
            InputRequest::Bid { min: r.min, max: r.max },
            InputRequest::Tricks,
        ],
        None => seq![contractors_request(c.shape), InputRequest::Tricks],
    }
}

/// Whether `bid` is what a hand under `c` may carry: a bid in the contract's
/// range where it has one, no bid where it has none.
pub open spec fn bid_fits(c: Contract, bid: Option<i16>) -> bool {
    match c.bid {
        Some(r) => bid matches Some(b) && r.min <= b <= r.max,
        None => bid is None,
    }
}

pub open spec fn tricks_fit(t: i16) -> bool {
    0 <= t <= MAX_TRICKS
}

/// The first input that a hand under `contract` still lacks, if any.
pub open spec fn missing_input(
    contract: Contract,
    contractors: Option<Contractors>,
    bid: Option<i16>,
    tricks: Option<i16>,
) -> Option<GameError> {
    if contractors is None {
        Some(GameError::MissingContractors)
    } else if contract.bid is Some && bid is None {
        Some(GameError::MissingBid)
    } else if tricks is None {
        Some(GameError::MissingTricks)
    } else {
        None
    }
}

/// A completely entered hand.
#[derive(Debug, Clone)]
pub struct Hand {
    pub contract: Contract,
    pub contractors: Contractors,
    pub bid: Option<i16>,
    pub tricks: i16,
}

impl Hand {
    /// Every field was validated against the contract.
    pub open spec fn wf(&self) -> bool {
        &&& contractors_error(self.contract.shape, self.contractors) is None
        &&& bid_fits(self.contract, self.bid)
        &&& tricks_fit(self.tricks)
    }
}

/// Collects the inputs of one hand, validating each, and hands out the hand
/// once.
#[derive(Debug)]
pub struct HandBuilder {
    contract: Contract,
    contractors: Option<Contractors>,
    bid: Option<i16>,
    tricks: Option<i16>,
    built: bool,
}

impl HandBuilder {
    #[verifier::type_invariant]
    spec fn inv(self) -> bool {
        &&& self.contractors matches Some(c) ==> contractors_error(self.contract.shape, c) is None
        &&& self.bid matches Some(b) ==> bid_fits(self.contract, Some(b))
        &&& self.tricks matches Some(t) ==> tricks_fit(t)
    }

    pub closed spec fn spec_contract(&self) -> Contract {
        self.contract
    }

    pub closed spec fn spec_contractors(&self) -> Option<Contractors> {
        self.contractors
    }

    pub closed spec fn spec_bid(&self) -> Option<i16> {
        self.bid
    }

    pub closed spec fn spec_tricks(&self) -> Option<i16> {
        self.tricks
    }

    /// Whether the builder already handed out its hand.
    pub closed spec fn spec_built(&self) -> bool {
        self.built
    }

    pub fn new(contract: Contract) -> (r: HandBuilder)
        ensures
            r.spec_contract() == contract,
            r.spec_contractors() is None,
            r.spec_bid() is None,
            r.spec_tricks() is None,
            !r.spec_built(),
    {
        HandBuilder { contract, contractors: None, bid: None, tricks: None, built: false }
    }

    pub fn contract(&self) -> (r: Contract)
        ensures
            r == self.spec_contract(),
    {
        self.contract
    }

    /// What this hand asks for, in order; the same on every call.
    pub fn all_requests(&self) -> (r: Vec<InputRequest>)
        ensures
            r@ == requests_for(self.spec_contract()),
    {
        let mut out: Vec<InputRequest> = Vec::new();
        out.push(
            match self.contract.shape {
                Shape::Solo => InputRequest::ContractorsSolo,
                Shape::Team => InputRequest::ContractorsTeam,
                Shape::Other => InputRequest::ContractorsOther,
            },
        );
        if let Some(r) = self.contract.bid {
            out.push(InputRequest::Bid { min: r.min, max: r.max });
        }
        out.push(InputRequest::Tricks);
        assert(out@ =~= requests_for(self.spec_contract()));
        out
    }

    /// Records the contractors if they fit the contract; otherwise keeps
    /// everything as it was.
    pub fn set_contractors(&mut self, c: Contractors) -> (r: Result<(), GameError>)
        ensures
            old(self).spec_built() ==> r == Err::<(), GameError>(GameError::AlreadyBuilt),
            !old(self).spec_built() ==> match contractors_error(old(self).spec_contract().shape, c) {
                Some(e) => r == Err::<(), GameError>(e),
                None => r is Ok,
            },
            r is Err ==> *final(self) == *old(self),
            r is Ok ==> final(self).spec_contractors() == Some(c) && final(self).spec_contract()
                == old(self).spec_contract() && final(self).spec_bid() == old(self).spec_bid()
                && final(self).spec_tricks() == old(self).spec_tricks() && !final(self).spec_built(),
    {
        proof {
            use_type_invariant(&*self);
        }
        if self.built {
            return Err(GameError::AlreadyBuilt);
        }
        match check_contractors(self.contract.shape, &c) {
            Some(e) => Err(e),
            None => {
                self.contractors = Some(c);
                Ok(())
            },
        }
    }

    /// Records the bid if it lies in the contract's range. A contract without
    /// a bid accepts any value and keeps nothing.
    pub fn set_bid(&mut self, value: i16) -> (r: Result<(), GameError>)
        ensures
            old(self).spec_built() ==> r == Err::<(), GameError>(GameError::AlreadyBuilt),
            !old(self).spec_built() ==> match old(self).spec_contract().bid {
                Some(range) => if range.min <= value <= range.max {
                    r is Ok && final(self).spec_bid() == Some(value)
                } else {
                    r == Err::<(), GameError>(GameError::BidOutOfRange)
                },
                None => r is Ok && final(self).spec_bid() == old(self).spec_bid(),
            },
            r is Err ==> *final(self) == *old(self),
            final(self).spec_contract() == old(self).spec_contract(),
            final(self).spec_contractors() == old(self).spec_contractors(),
            final(self).spec_tricks() == old(self).spec_tricks(),
            final(self).spec_built() == old(self).spec_built(),
    {
        proof {
            use_type_invariant(&*self);
        }
        if self.built {
            return Err(GameError::AlreadyBuilt);
        }
        match self.contract.bid {
            Some(range) => {
                if range.min <= value && value <= range.max {
                    self.bid = Some(value);
                    Ok(())
                } else {
                    Err(GameError::BidOutOfRange)
                }
            },
            None => Ok(()),
        }
    }

    /// Records the number of tricks taken, which must lie in `0..=13`.
    pub fn set_tricks(&mut self, value: i16) -> (r: Result<(), GameError>)
        ensures
            old(self).spec_built() ==> r == Err::<(), GameError>(GameError::AlreadyBuilt),
            !old(self).spec_built() && !tricks_fit(value) ==> r == Err::<(), GameError>(
                GameError::InvalidInput(InputIssue::TricksOutOfRange),
            ),
            r is Ok <==> !old(self).spec_built() && tricks_fit(value),
            r is Ok ==> final(self).spec_tricks() == Some(value),
            r is Err ==> *final(self) == *old(self),
            final(self).spec_contract() == old(self).spec_contract(),
            final(self).spec_contractors() == old(self).spec_contractors(),
            final(self).spec_bid() == old(self).spec_bid(),
            final(self).spec_built() == old(self).spec_built(),
    {
        proof {
            use_type_invariant(&*self);
        }
        if self.built {
            return Err(GameError::AlreadyBuilt);
        }
        if 0 <= value && value <= MAX_TRICKS {
            self.tricks = Some(value);
            Ok(())
        } else {
            Err(GameError::InvalidInput(InputIssue::TricksOutOfRange))
        }
    }

    /// Why `build` would fail now, if it would.
    pub open spec fn build_error(&self) -> Option<GameError> {
        if self.spec_built() {
            Some(GameError::AlreadyBuilt)
        } else {
            missing_input(
                self.spec_contract(),
                self.spec_contractors(),
                self.spec_bid(),
                self.spec_tricks(),
            )
        }
    }

    /// Hands out the hand once every input the contract asks for was given;
    /// otherwise names the first one missing and keeps everything as it was.
    pub fn build(&mut self) -> (r: Result<Hand, GameError>)
        ensures
            match old(self).build_error() {
                Some(e) => r == Err::<Hand, GameError>(e) && *final(self) == *old(self),
                None => r is Ok,
            },
            r matches Ok(h) ==> {
                &&& h.wf()
                &&& h.contract == old(self).spec_contract()
                &&& Some(h.contractors) == old(self).spec_contractors()
                &&& h.bid == old(self).spec_bid()
                &&& Some(h.tricks) == old(self).spec_tricks()
                &&& final(self).spec_built()
                &&& final(self).spec_contract() == old(self).spec_contract()
            },
    {
        proof {
            use_type_invariant(&*self);
        }
        if self.built {
            return Err(GameError::AlreadyBuilt);
        }
        if self.contractors.is_none() {
            return Err(GameError::MissingContractors);
        }
        if self.contract.bid.is_some() && self.bid.is_none() {
            return Err(GameError::MissingBid);
        }
        let tricks = match self.tricks {
            Some(t) => t,
            None => {
                return Err(GameError::MissingTricks);
            },
        };
        let mut taken: Option<Contractors> = None;
        std::mem::swap(&mut taken, &mut self.contractors);
        let bid = self.bid;
        self.bid = None;
        self.tricks = None;
        self.built = true;
        match taken {
            Some(contractors) => Ok(Hand { contract: self.contract, contractors, bid, tricks }),
            None => Err(GameError::MissingContractors),
        }
    }
}

/// Why entering contractors `c`, bid `bid` and `tricks` into `b` and
/// building would fail, if it would: the first setter or the build that
/// refuses. The bid is ignored by a contract without one.
pub open spec fn fill_error(b: HandBuilder, c: Contractors, bid: i16, tricks: i16) -> Option<
    GameError,
> {
    if b.spec_built() {
        Some(GameError::AlreadyBuilt)
    } else if contractors_error(b.spec_contract().shape, c) is Some {
        contractors_error(b.spec_contract().shape, c)
    } else if b.spec_contract().bid matches Some(r) && !(r.min <= bid <= r.max) {
        Some(GameError::BidOutOfRange)
    } else if !tricks_fit(tricks) {
        Some(GameError::InvalidInput(InputIssue::TricksOutOfRange))
    } else {
        None
    }
}

/// Enters contractors, bid and tricks in turn, stopping at the first that
/// is refused (what was accepted before it stays entered), then builds.
pub fn fill_and_build(b: &mut HandBuilder, c: Contractors, bid: i16, tricks: i16) -> (r: Result<
    Hand,
    GameError,
>)
    ensures
        final(b).spec_contract() == old(b).spec_contract(),
        r is Err ==> final(b).spec_built() == old(b).spec_built(),
        old(b).spec_built() || contractors_error(old(b).spec_contract().shape, c) is Some
            ==> *final(b) == *old(b),
        r is Err && !old(b).spec_built() && contractors_error(old(b).spec_contract().shape, c)
            is None ==> final(b).spec_contractors() == Some(c),
        fill_error(*old(b), c, bid, tricks) == Some(GameError::BidOutOfRange) ==> final(b).spec_bid() == old(b).spec_bid() && final(b).spec_tricks() == old(b).spec_tricks(),
        fill_error(*old(b), c, bid, tricks) == Some(
            GameError::InvalidInput(InputIssue::TricksOutOfRange),
        ) ==> final(b).spec_tricks() == old(b).spec_tricks() && final(b).spec_bid() == (if old(b).spec_contract().bid is Some {
            Some(bid)
        } else {
            old(b).spec_bid()
        }),
        match fill_error(*old(b), c, bid, tricks) {
            Some(e) => r == Err::<Hand, GameError>(e),
            None => r is Ok,
        },
        r matches Ok(h) ==> {
            &&& h.wf()
            &&& h.contract == old(b).spec_contract()
            &&& h.contractors == c
            &&& h.bid == (if old(b).spec_contract().bid is Some {
                Some(bid)
            } else {
                None::<i16>
            })
            &&& h.tricks == tricks
        },
{
    let ghost c0 = c;
    match b.set_contractors(c) {
        Ok(()) => {},
        Err(e) => {
            return Err(e);
        },
    }
    proof {
        use_type_invariant(&*b);
    }
    match b.set_bid(bid) {
        Ok(()) => {},
        Err(e) => {
            return Err(e);
        },
    }
    match b.set_tricks(tricks) {
        Ok(()) => {},
        Err(e) => {
            return Err(e);
        },
    }
    proof {
        use_type_invariant(&*b);
    }
    b.build()
}

} // verus!
