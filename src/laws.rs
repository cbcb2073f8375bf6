use vstd::prelude::*;

use crate::contractors::{contractors_error, Contractors};
use crate::error::GameError;
use crate::hand::{Hand, HandBuilder};
use crate::players::{add_outcome, after_add, has_name, PlayerId, Player, NUM_PLAYERS};
use crate::rules::{Contract, Shape};
use crate::scoring::spec_score;

verus! {

/// The registry that adding `names` one after the other to an empty
/// registry leaves.
pub open spec fn registry_after(names: Seq<String>) -> Seq<Player>
    decreases names.len(),
{
    if names.len() == 0 {
        Seq::empty()
    } else {
        after_add(registry_after(names.drop_last()), names.last())
    }
}

/// Adding at most four non-empty, pairwise distinct names in turn leaves
/// one player per name, in order.
pub proof fn lemma_registry_after_unique(names: Seq<String>)
    requires
        names.len() <= NUM_PLAYERS,
        forall|i: int| 0 <= i < names.len() ==> (#[trigger] names[i])@.len() > 0,
        forall|i: int, j: int| 0 <= i < j < names.len() ==> names[i]@ != names[j]@,
    ensures
        registry_after(names).len() == names.len(),
        forall|i: int|
            0 <= i < names.len() ==> (#[trigger] registry_after(names)[i]).name == names[i]
                && registry_after(names)[i].id == PlayerId(i as usize),
    decreases names.len(),
{
    if names.len() > 0 {
        let init = names.drop_last();
        lemma_registry_after_unique(init);
        let ps = registry_after(init);
        assert(!has_name(ps, names.last()@)) by {
            if has_name(ps, names.last()@) {
                let i = choose|i: int| 0 <= i < ps.len() && ps[i].name@ == names.last()@;
                assert(ps[i].name == names[i]);
            }
        }
    }
}

/// With at most four non-empty, pairwise distinct names, each addition
/// succeeds and the registry grows by one player each time.
pub proof fn lemma_unique_names_are_added(names: Seq<String>)
    requires
        names.len() <= NUM_PLAYERS,
        forall|i: int| 0 <= i < names.len() ==> (#[trigger] names[i])@.len() > 0,
        forall|i: int, j: int| 0 <= i < j < names.len() ==> names[i]@ != names[j]@,
    ensures
        forall|k: int|
            0 <= k < names.len() ==> #[trigger] add_outcome(registry_after(names.take(k)), names[k]@)
                == Ok::<usize, GameError>((k + 1) as usize),
        forall|k: int|
            0 <= k <= names.len() ==> #[trigger] registry_after(names.take(k)).len() == k,
{
    assert forall|k: int| 0 <= k <= names.len() implies #[trigger] registry_after(names.take(k)).len()
        == k by {
        lemma_registry_after_unique(names.take(k));
    }
    assert forall|k: int| 0 <= k < names.len() implies #[trigger] add_outcome(
        registry_after(names.take(k)),
        names[k]@,
    ) == Ok::<usize, GameError>((k + 1) as usize) by {
        let init = names.take(k);
        lemma_registry_after_unique(init);
        let ps = registry_after(init);
        if has_name(ps, names[k]@) {
            let i = choose|i: int| 0 <= i < ps.len() && ps[i].name@ == names[k]@;
            assert(ps[i].name == names[i]);
        }
    }
}

/// On a full registry a new name is refused as `RegistryFull`, and a name
/// already present is refused as `DuplicateName`, whatever the size.
pub proof fn lemma_full_or_duplicate_refused(ps: Seq<Player>, name: Seq<char>)
    ensures
        has_name(ps, name) ==> add_outcome(ps, name) == Err::<usize, GameError>(
            GameError::DuplicateName,
        ),
        !has_name(ps, name) && ps.len() == NUM_PLAYERS ==> add_outcome(ps, name) == Err::<
            usize,
            GameError,
        >(GameError::RegistryFull),
{
}

/// A contract played alone refuses a team as contractors.
pub proof fn lemma_solo_refuses_team(contract: Contract, a: PlayerId, b: PlayerId)
    requires
        contract.shape == Shape::Solo,
    ensures
        contractors_error(contract.shape, Contractors::Team(a, b)) == Some(GameError::ShapeMismatch),
{
}

/// A builder lacking exactly one input fails to build with the error that
/// names it, and the same builder with that input supplied builds.
pub proof fn lemma_missing_then_supplied(before: HandBuilder, after: HandBuilder)
    requires
        !before.spec_built(),
        !after.spec_built(),
        after.spec_contract() == before.spec_contract(),
        after.spec_contractors() is Some,
        after.spec_tricks() is Some,
        before.spec_contract().bid is Some ==> after.spec_bid() is Some,
        ({
            let one_missing = before.spec_contractors() is None && before.spec_bid()
                == after.spec_bid() && before.spec_tricks() == after.spec_tricks();
            let bid_missing = before.spec_contract().bid is Some && before.spec_bid() is None
                && before.spec_contractors() == after.spec_contractors() && before.spec_tricks()
                == after.spec_tricks();
            let tricks_missing = before.spec_tricks() is None && before.spec_contractors()
                == after.spec_contractors() && before.spec_bid() == after.spec_bid();
            one_missing || bid_missing || tricks_missing
        }),
    ensures
        before.spec_contractors() is None ==> before.build_error() == Some(
            GameError::MissingContractors,
        ),
        before.spec_contractors() is Some && before.spec_contract().bid is Some
            && before.spec_bid() is None ==> before.build_error() == Some(GameError::MissingBid),
        before.spec_contractors() is Some && before.spec_bid() == after.spec_bid()
            && before.spec_tricks() is None ==> before.build_error() == Some(
            GameError::MissingTricks,
        ),
        after.build_error() is None,
{
}

/// Scoring depends on the hand alone: equal hands score equally.
pub proof fn lemma_score_deterministic(a: Hand, b: Hand)
    requires
        a == b,
    ensures
        spec_score(a) == spec_score(b),
{
}

} // verus!
