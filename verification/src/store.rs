//! The list of pets: adding to it, removing from it, and moving the
//! selection over it.

use vstd::prelude::*;
use crate::error::Error;
use crate::pet::{is_random_pet, random_pet, Pet};
use crate::state::ListState;

verus! {

/// Where the selection stands after a step forward over `len` pets: one
/// further, or back at the first pet from the last one (or from beyond it).
/// An empty selection and an empty list leave it as it is.
pub open spec fn after_next(selected: Option<usize>, len: nat) -> Option<usize> {
    match selected {
        Some(i) if len > 0 => if i >= len - 1 {
            Some(0usize)
        } else {
            Some((i + 1) as usize)
        },
        _ => selected,
    }
}

/// Where the selection stands after a step back over `len` pets: one
/// earlier, or at the last pet from the first one. An empty selection and an
/// empty list leave it as it is.
pub open spec fn after_previous(selected: Option<usize>, len: nat) -> Option<usize> {
    match selected {
        Some(i) if len > 0 => if i > 0 {
            Some((i - 1) as usize)
        } else {
            Some((len - 1) as usize)
        },
        _ => selected,
    }
}

/// Whether a removal at the selection takes a pet out of `len` pets.
pub open spec fn removes(selected: Option<usize>, len: nat) -> bool {
    selected is Some && selected->0 < len
}

/// Whether a removal at the selection is refused: there are pets, and the
/// selection points past them.
pub open spec fn refuses(selected: Option<usize>, len: nat) -> bool {
    selected is Some && 0 < len <= selected->0
}

/// Where the selection stands after the pet under it was removed: one
/// earlier, and never before the first position.
pub open spec fn after_removal(selected: usize) -> usize {
    if selected > 0 {
        (selected - 1) as usize
    } else {
        0
    }
}

/// Appends a pet to the list.
pub fn append(parsed: Vec<Pet>, pet: Pet) -> (pets: Vec<Pet>)
    ensures
        pets@ == parsed@.push(pet),
{
    let mut pets = parsed;
    pets.push(pet);
    pets
}

/// Appends a made-up pet to the list: every pet that was there stays where it
/// was, and the one new pet stands at the end.
pub fn add_random_pet_to_db(parsed: Vec<Pet>) -> (pets: Vec<Pet>)
    ensures
        pets@.len() == parsed@.len() + 1,
        pets@.drop_last() == parsed@,
        is_random_pet(pets@.last()@),
{
    let random_pet = random_pet();
    let pets = append(parsed, random_pet);
    assert(pets@.drop_last() =~= parsed@);
    pets
}

/// Moves the selection one pet forward, wrapping round at the end.
pub fn select_next(pet_list_state: &mut ListState, amount_pets: usize)
    ensures
        final(pet_list_state).selected == after_next(old(pet_list_state).selected, amount_pets as nat),
{
    if let Some(selected) = pet_list_state.selected() {
        if amount_pets > 0 {
            if selected >= amount_pets - 1 {
                pet_list_state.select(Some(0));
            } else {
                pet_list_state.select(Some(selected + 1));
            }
        }
    }
}

/// Moves the selection one pet back, wrapping round at the start.
pub fn select_previous(pet_list_state: &mut ListState, amount_pets: usize)
    ensures
        final(pet_list_state).selected == after_previous(
            old(pet_list_state).selected,
            amount_pets as nat,
        ),
{
    if let Some(selected) = pet_list_state.selected() {
        if amount_pets > 0 {
            if selected > 0 {
                pet_list_state.select(Some(selected - 1));
            } else {
                pet_list_state.select(Some(amount_pets - 1));
            }
        }
    }
}

/// Takes the pet at `index` out of the list. Every other pet stays, in the
/// order it had. A position at or past the end is refused and the list is
/// left as it was.
pub fn remove_at(pets: &mut Vec<Pet>, index: usize) -> (outcome: Result<(), Error>)
    ensures
        index < old(pets)@.len() ==> outcome is Ok && final(pets)@ == old(pets)@.remove(
            index as int,
        ),
        index >= old(pets)@.len() ==> final(pets)@ == old(pets)@ && outcome == Err::<(), Error>(
            Error::IndexError { index, len: old(pets)@.len() as usize },
        ),
{
    let len: usize = pets.len();
    if index < len {
        let _ = pets.remove(index);
        Ok(())
    } else {
        Err(Error::IndexError { index, len })
    }
}

/// Removes the selected pet and moves the selection one back.
///
/// With nothing selected, or with no pets at all, nothing happens. A
/// selection past the last pet is refused, and list and selection stay as
/// they were.
pub fn remove_pet_at_index(parsed: &mut Vec<Pet>, pet_list_state: &mut ListState) -> (outcome: Result<
    (),
    Error,
>)
    ensures
        removes(old(pet_list_state).selected, old(parsed)@.len()) ==> {
            &&& outcome is Ok
            &&& final(parsed)@ == old(parsed)@.remove(old(pet_list_state).selected->0 as int)
            &&& final(pet_list_state).selected == Some(
                after_removal(old(pet_list_state).selected->0),
            )
        },
        !removes(old(pet_list_state).selected, old(parsed)@.len()) ==> {
            &&& final(parsed)@ == old(parsed)@
            &&& final(pet_list_state).selected == old(pet_list_state).selected
        },
        refuses(old(pet_list_state).selected, old(parsed)@.len()) ==> outcome == Err::<(), Error>(
            Error::IndexError {
                index: old(pet_list_state).selected->0,
                len: old(parsed)@.len() as usize,
            },
        ),
        !refuses(old(pet_list_state).selected, old(parsed)@.len()) ==> outcome is Ok,
{
    let Some(selected) = pet_list_state.selected() else {
        return Ok(());
    };
    if parsed.len() == 0 {
        return Ok(());
    }
    match remove_at(parsed, selected) {
        Ok(()) => {
            if selected > 0 {
                pet_list_state.select(Some(selected - 1));
            } else {
                pet_list_state.select(Some(0));
            }
            Ok(())
        },
        Err(refusal) => Err(refusal),
    }
}

/// A step forward and then a step back, or a step back and then a step
/// forward, ends on the pet it started from, whenever the selection points at
/// one of the pets.
pub proof fn next_and_previous_undo_each_other(selected: usize, len: nat)
    requires
        selected < len,
        len <= usize::MAX,
    ensures
        after_previous(after_next(Some(selected), len), len) == Some(selected),
        after_next(after_previous(Some(selected), len), len) == Some(selected),
{
}

/// Removing the pet at a position of the list shortens the list by exactly
/// one, leaves every pet before that position where it was, and moves every
/// pet behind it one position forward.
pub proof fn removal_keeps_the_others_in_order(pets: Seq<Pet>, index: int)
    requires
        0 <= index < pets.len(),
    ensures
        pets.remove(index).len() == pets.len() - 1,
        forall|j: int| 0 <= j < index ==> pets.remove(index)[j] == pets[j],
        forall|j: int| index <= j < pets.len() - 1 ==> pets.remove(index)[j] == pets[j + 1],
{
}

/// With no pets, stepping forward or back leaves the selection alone, and a
/// removal neither takes anything out nor is refused.
pub proof fn nothing_happens_on_an_empty_list(selected: Option<usize>)
    ensures
        after_next(selected, 0) == selected,
        after_previous(selected, 0) == selected,
        !removes(selected, 0),
        !refuses(selected, 0),
{
}

} // verus!
