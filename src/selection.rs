use vstd::prelude::*;

use indexmap::IndexSet;
use std::cmp::Ordering;
use std::collections::hash_map::RandomState;

verus! {

#[verifier::external_type_specification]
#[verifier::external_body]
#[verifier::reject_recursive_types(T)]
#[verifier::reject_recursive_types(S)]
pub struct ExIndexSet<T, S>(IndexSet<T, S>);

/// The names an `IndexSet` holds, in insertion order.
pub uninterp spec fn selection_of(s: IndexSet<String, RandomState>) -> Seq<Seq<char>>;

/// Relies on `IndexSet::new`: a new set holds nothing.
#[verifier::external_body]
pub(crate) fn empty_selection() -> (r: IndexSet<String, RandomState>)
    ensures
        selection_of(r) == Seq::<Seq<char>>::empty(),
{
    IndexSet::new()
}

/// Relies on `IndexSet::len`: the number of items held.
#[verifier::external_body]
pub(crate) fn selection_len(s: &IndexSet<String, RandomState>) -> (r: usize)
    ensures
        r == selection_of(*s).len(),
{
    s.len()
}

/// Relies on `IndexSet::contains`: whether an equal item is held.
#[verifier::external_body]
pub(crate) fn selection_contains(s: &IndexSet<String, RandomState>, name: &String) -> (r: bool)
    ensures
        r == selection_of(*s).contains(name@),
{
    s.contains(name)
}

/// Relies on `IndexSet::insert`: an item not yet held is appended last and
/// `true` returned; otherwise the set is left as it was and `false` returned.
#[verifier::external_body]
pub(crate) fn selection_insert(s: &mut IndexSet<String, RandomState>, name: String) -> (r: bool)
    ensures
        r == !selection_of(*old(s)).contains(name@),
        r ==> selection_of(*final(s)) == selection_of(*old(s)).push(name@),
        !r ==> selection_of(*final(s)) == selection_of(*old(s)),
{
    s.insert(name)
}

/// Relies on `IndexSet::shift_remove`: a held item is removed and the items
/// after it move up one place, in order, and `true` is returned; otherwise
/// the set is left as it was and `false` returned.
#[verifier::external_body]
pub(crate) fn selection_shift_remove(s: &mut IndexSet<String, RandomState>, name: &String) -> (r: bool)
    ensures
        r == selection_of(*old(s)).contains(name@),
        r ==> exists|i: int|
            0 <= i < selection_of(*old(s)).len() && selection_of(*old(s))[i] == name@
                && selection_of(*final(s)) == selection_of(*old(s)).remove(i),
        !r ==> selection_of(*final(s)) == selection_of(*old(s)),
{
    s.shift_remove(name)
}

/// Relies on `IndexSet::iter`: the items, in their order.
#[verifier::external_body]
pub(crate) fn selection_items(s: &IndexSet<String, RandomState>) -> (r: Vec<String>)
    ensures
        r@.map_values(|n: String| n@) == selection_of(*s),
{
    s.iter().cloned().collect()
}

/// The position of the first `name` in `names`, or the length of `names`
/// when it is not there.
pub open spec fn seat_of(names: Seq<Seq<char>>, name: Seq<char>) -> int {
    if exists|i: int|
        0 <= i < names.len() && names[i] == name && forall|j: int| 0 <= j < i ==> names[j] != name {
        choose|i: int|
            0 <= i < names.len() && names[i] == name && forall|j: int| 0 <= j < i ==> names[j] != name
    } else {
        names.len() as int
    }
}

/// How `a` and `b` compare by their seats among `names`.
pub open spec fn seat_order(names: Seq<Seq<char>>, a: Seq<char>, b: Seq<char>) -> Ordering {
    if seat_of(names, a) < seat_of(names, b) {
        Ordering::Less
    } else if seat_of(names, a) == seat_of(names, b) {
        Ordering::Equal
    } else {
        Ordering::Greater
    }
}

/// The position of the first `name` in `names`, or its length.
pub fn seat(names: &Vec<String>, name: &String) -> (r: usize)
    ensures
        r == seat_of(names@.map_values(|n: String| n@), name@),
{
    let ghost v = names@.map_values(|n: String| n@);
    let mut i: usize = 0;
    while i < names.len()
        invariant
            0 <= i <= names@.len(),
            v == names@.map_values(|n: String| n@),
            forall|j: int| 0 <= j < i ==> v[j] != name@,
        decreases names@.len() - i,
    {
        assert(v[i as int] == names@[i as int]@);
        if names[i] == *name {
            proof {
                assert(0 <= i < v.len() && v[i as int] == name@ && forall|j: int|
                    0 <= j < i ==> v[j] != name@);
                let c = choose|c: int|
                    0 <= c < v.len() && v[c] == name@ && forall|j: int| 0 <= j < c ==> v[j] != name@;
                assert(c == i) by {
                    if c < i {
                        assert(v[c] != name@);
                    } else if c > i {
                        assert(v[i as int] != name@);
                    }
                }
            }
            return i;
        }
        i = i + 1;
    }
    i
}

/// Compares two names by their seats among `names`.
pub fn compare_seats(names: &Vec<String>, a: &String, b: &String) -> (r: Ordering)
    ensures
        r == seat_order(names@.map_values(|n: String| n@), a@, b@),
{
    let x = seat(names, a);
    let y = seat(names, b);
    if x < y {
        Ordering::Less
    } else if x == y {
        Ordering::Equal
    } else {
        Ordering::Greater
    }
}

/// Relies on `IndexSet::sort_by`: a stable sort of the items by the order
/// given, here their seats among `names` (names not among them come last,
/// in their earlier order).
#[verifier::external_body]
pub(crate) fn selection_sort_by_seat(s: &mut IndexSet<String, RandomState>, names: &Vec<String>)
    ensures
        selection_of(*final(s)).to_multiset() == selection_of(*old(s)).to_multiset(),
        forall|i: int, j: int|
            0 <= i < j < selection_of(*final(s)).len() ==> seat_of(
                names@.map_values(|n: String| n@),
                selection_of(*final(s))[i],
            ) < seat_of(names@.map_values(|n: String| n@), selection_of(*final(s))[j]) || (seat_of(
                names@.map_values(|n: String| n@),
                selection_of(*final(s))[i],
            ) == seat_of(names@.map_values(|n: String| n@), selection_of(*final(s))[j]) && seat_of(
                selection_of(*old(s)),
                selection_of(*final(s))[i],
            ) < seat_of(selection_of(*old(s)), selection_of(*final(s))[j])),
{
    s.sort_by(|a, b| compare_seats(names, a, b))
}

} // verus!
