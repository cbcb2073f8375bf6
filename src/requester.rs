use vstd::prelude::*;

use indexmap::IndexSet;
use std::collections::hash_map::RandomState;

use crate::error::AppError;
use crate::players::{names_of, Players, NUM_PLAYERS};
use crate::selection::{
    empty_selection, seat_of, selection_contains, selection_insert, selection_items, selection_len,
    selection_of, selection_shift_remove, selection_sort_by_seat,
};

verus! {

/// The largest number of points that can be entered for one player.
pub const MAX_POINTS: i16 = 240;

/// `value` brought into `-240..=240`.
pub open spec fn clamp_points(value: i16) -> i16 {
    if value < -MAX_POINTS {
        (-MAX_POINTS) as i16
    } else if value > MAX_POINTS {
        MAX_POINTS
    } else {
        value
    }
}

/// The entered points, or zeros where none were entered.
pub open spec fn points_or_zero(points: Option<[i16; 3]>) -> Seq<i16> {
    match points {
        Some(p) => p@,
        None => seq![0i16, 0i16, 0i16],
    }
}

/// The decimal digit `d`.
pub open spec fn digit_char(d: nat) -> char {
    if d == 0 { '0' } else if d == 1 { '1' } else if d == 2 { '2' } else if d == 3 { '3' }
    else if d == 4 { '4' } else if d == 5 { '5' } else if d == 6 { '6' } else if d == 7 { '7' }
    else if d == 8 { '8' } else { '9' }
}

/// `n` written in decimal, most significant digit first.
pub open spec fn decimal(n: nat) -> Seq<char>
    decreases n,
{
    if n < 10 {
        seq![digit_char(n)]
    } else {
        decimal(n / 10).push(digit_char(n % 10))
    }
}

/// The text of the error for a points input shown for `count` names.
pub open spec fn points_state_text(count: nat) -> Seq<char> {
    "Input point Ui is created for "@ + decimal(count)
}

/// Relies on `format!` with `usize`'s `Display`, which writes the number in
/// decimal.
#[verifier::external_body]
fn points_state_message(count: usize) -> (r: String)
    ensures
        r@ == points_state_text(count as nat),
{
    format!("Input point Ui is created for {}", count)
}

/// What has been entered so far on the screen for a new hand.
#[derive(Debug)]
pub struct RequesterGui {
    pub selected_names: IndexSet<String, RandomState>,
    pub bid_value: i16,
    pub tricks_value: i16,
    /// The points of the players of an `Other` hand, in selection order.
    pub points: Option<[i16; 3]>,
}

impl RequesterGui {
    /// The selected player names, in the order they were selected.
    pub open spec fn spec_selected(&self) -> Seq<Seq<char>> {
        selection_of(self.selected_names)
    }

    /// Whether a name that is not selected yet may be: fewer than `n` are.
    pub open spec fn spec_can_select_more(&self, n: usize) -> bool {
        self.spec_selected().len() < n
    }

    /// Whether the selection is complete for a request of `n` names: exactly
    /// `n` are selected.
    pub open spec fn spec_is_ready(&self, n: usize) -> bool {
        self.spec_selected().len() == n
    }

    pub fn new() -> (r: RequesterGui)
        ensures
            r.spec_selected() == Seq::<Seq<char>>::empty(),
            r.bid_value == 0,
            r.tricks_value == 0,
            r.points is None,
    {
        RequesterGui { selected_names: empty_selection(), bid_value: 0, tricks_value: 0, points: None }
    }

    /// Forgets everything entered.
    pub fn clear(&mut self)
        ensures
            final(self).spec_selected() == Seq::<Seq<char>>::empty(),
            final(self).bid_value == 0,
            final(self).tricks_value == 0,
            final(self).points is None,
    {
        *self = RequesterGui::new();
    }

    /// The selected names, in the order they were selected.
    pub fn selected_names(&self) -> (r: Vec<String>)
        ensures
            r@.map_values(|n: String| n@) == self.spec_selected(),
    {
        selection_items(&self.selected_names)
    }

    pub fn selected_count(&self) -> (r: usize)
        ensures
            r == self.spec_selected().len(),
    {
        selection_len(&self.selected_names)
    }

    pub fn is_selected(&self, name: &String) -> (r: bool)
        ensures
            r == self.spec_selected().contains(name@),
    {
        selection_contains(&self.selected_names, name)
    }

    /// Whether the button of `name` takes clicks when `n` names are asked
    /// for: a selected name can always be taken back.
    pub fn can_select(&self, name: &String, n: usize) -> (r: bool)
        ensures
            r == (self.spec_can_select_more(n) || self.spec_selected().contains(name@)),
    {
        selection_len(&self.selected_names) < n || selection_contains(&self.selected_names, name)
    }

    /// A click on `name` when `n` names are asked for: a selected name is
    /// taken back, the others keeping their order; another is appended if
    /// fewer than `n` are selected; otherwise nothing changes.
    pub fn toggle_name(&mut self, name: &String, n: usize)
        ensures
            final(self).bid_value == old(self).bid_value,
            final(self).tricks_value == old(self).tricks_value,
            final(self).points == old(self).points,
            old(self).spec_selected().contains(name@) ==> exists|i: int|
                0 <= i < old(self).spec_selected().len() && old(self).spec_selected()[i] == name@
                    && final(self).spec_selected() == old(self).spec_selected().remove(i),
            !old(self).spec_selected().contains(name@) && old(self).spec_can_select_more(n)
                ==> final(self).spec_selected() == old(self).spec_selected().push(name@),
            !old(self).spec_selected().contains(name@) && !old(self).spec_can_select_more(n)
                ==> final(self).spec_selected() == old(self).spec_selected(),
    {
        if selection_contains(&self.selected_names, name) {
            selection_shift_remove(&mut self.selected_names, name);
        } else if selection_len(&self.selected_names) < n {
            selection_insert(&mut self.selected_names, name.clone());
        }
    }

    /// Whether the hand may be confirmed when `n` names are asked for.
    pub fn is_ready(&self, n: usize) -> (r: bool)
        ensures
            r == self.spec_is_ready(n),
    {
        selection_len(&self.selected_names) == n
    }

    /// Points are entered for exactly as many players as an `Other` hand
    /// names; any other selection is a state the screens never reach, and
    /// the error names its size.
    pub fn check_points_input(&self) -> (r: Result<(), AppError>)
        ensures
            r is Ok <==> self.spec_selected().len() == NUM_PLAYERS - 1,
            r matches Err(AppError::ImpossibleState(m)) ==> m@ == points_state_text(
                self.spec_selected().len(),
            ),
    {
        let count = selection_len(&self.selected_names);
        if count != NUM_PLAYERS - 1 {
            return Err(AppError::ImpossibleState(points_state_message(count)));
        }
        Ok(())
    }

    /// Puts the selection in seating order: by the players' positions in
    /// the registry, names that no player has last, ties in their earlier order.
    pub fn order_by_players(&mut self, players: &Players)
        ensures
            final(self).spec_selected().to_multiset() == old(self).spec_selected().to_multiset(),
            forall|i: int, j: int|
                0 <= i < j < final(self).spec_selected().len() ==> seat_of(
                    names_of(players@),
                    final(self).spec_selected()[i],
                ) < seat_of(names_of(players@), final(self).spec_selected()[j]) || (seat_of(
                    names_of(players@),
                    final(self).spec_selected()[i],
                ) == seat_of(names_of(players@), final(self).spec_selected()[j]) && seat_of(
                    old(self).spec_selected(),
                    final(self).spec_selected()[i],
                ) < seat_of(old(self).spec_selected(), final(self).spec_selected()[j])),
            final(self).bid_value == old(self).bid_value,
            final(self).tricks_value == old(self).tricks_value,
            final(self).points == old(self).points,
    {
        let names = players.names();
        selection_sort_by_seat(&mut self.selected_names, &names);
    }

    /// Enters `value`, brought into `-240..=240`, as the points of the `k`-th
    /// selected player; points not entered yet start at zero.
    pub fn set_point(&mut self, k: usize, value: i16)
        requires
            k < 3,
        ensures
            final(self).points matches Some(p) && p@ == points_or_zero(old(self).points).update(
                k as int,
                clamp_points(value),
            ),
            final(self).spec_selected() == old(self).spec_selected(),
            final(self).bid_value == old(self).bid_value,
            final(self).tricks_value == old(self).tricks_value,
    {
        let mut p: [i16; 3] = match self.points {
            Some(q) => q,
            None => [0, 0, 0],
        };
        let v: i16 = if value < -MAX_POINTS {
            -MAX_POINTS
        } else if value > MAX_POINTS {
            MAX_POINTS
        } else {
            value
        };
        p[k] = v;
        self.points = Some(p);
    }
}

} // verus!
