//! The dispatcher: what one event does to the dashboard and to the pets.

use vstd::prelude::*;
use crate::error::Error;
use crate::pet::{is_random_pet, Pet};
use crate::state::{Event, KeyCode, KeyEvent, ListState, MenuItem, ResponseToUserInput};
use crate::store::{
    add_random_pet_to_db,
    after_next,
    after_previous,
    after_removal,
    refuses,
    remove_pet_at_index,
    removes,
    select_next,
    select_previous,
};

verus! {

/// What the user asks for with a key.
#[derive(Copy, Clone, Debug, PartialEq, Eq, Structural)]
pub enum Command {
    Quit,
    ShowHome,
    ShowPets,
    AddPet,
    DeletePet,
    SelectNext,
    SelectPrevious,
    Nothing,
}

/// The key bindings: `q` quits, `h` and `p` switch screens, `a` adds a pet,
/// `d` deletes the selected one, `j` and `k` move the selection. A tick and
/// every other key ask for nothing.
pub open spec fn command_of(event: Event<KeyEvent>) -> Command {
    match event {
        Event::Input(KeyEvent { code: KeyCode::Char(c) }) => if c == 'q' {
            Command::Quit
        } else if c == 'h' {
            Command::ShowHome
        } else if c == 'p' {
            Command::ShowPets
        } else if c == 'a' {
            Command::AddPet
        } else if c == 'd' {
            Command::DeletePet
        } else if c == 'j' {
            Command::SelectNext
        } else if c == 'k' {
            Command::SelectPrevious
        } else {
            Command::Nothing
        },
        _ => Command::Nothing,
    }
}

/// Whether carrying out a command looks at the list of pets.
pub open spec fn reads_pets(command: Command) -> bool {
    command == Command::AddPet || command == Command::DeletePet || command == Command::SelectNext
        || command == Command::SelectPrevious
}

/// What the dispatcher reports of one event.
#[derive(Clone, Debug, PartialEq, Eq)]
pub struct Handled {
    /// Whether the main loop goes on.
    pub response: ResponseToUserInput,
    /// Whether the list of pets is no longer what it was.
    pub store_changed: bool,
    /// The failure to show to the operator, if the event led to one.
    pub failure: Option<Error>,
}

/// The state the dispatcher works on, as plain values.
pub struct Dashboard {
    pub active_menu_item: MenuItem,
    pub selected: Option<usize>,
    pub pets: Seq<Pet>,
}

/// What must hold between the dashboard before an event and after it, and of
/// the report, for the command that the event stands for.
pub open spec fn carried_out(command: Command, before: Dashboard, after: Dashboard, handled: Handled) -> bool {
    let len = before.pets.len();
    match command {
        Command::Quit => {
            &&& handled.response == ResponseToUserInput::Stop
            &&& !handled.store_changed
            &&& handled.failure is None
            &&& after == before
        },
        Command::ShowHome => {
            &&& handled.response == ResponseToUserInput::Continue
            &&& !handled.store_changed
            &&& handled.failure is None
            &&& after == (Dashboard { active_menu_item: MenuItem::Home, ..before })
        },
        Command::ShowPets => {
            &&& handled.response == ResponseToUserInput::Continue
            &&& !handled.store_changed
            &&& handled.failure is None
            &&& after == (Dashboard { active_menu_item: MenuItem::Pets, ..before })
        },
        Command::AddPet => {
            &&& handled.response == ResponseToUserInput::Continue
            &&& handled.store_changed
            &&& handled.failure is None
            &&& after.active_menu_item == before.active_menu_item
            &&& after.selected == before.selected
            &&& after.pets.len() == len + 1
            &&& after.pets.drop_last() == before.pets
            &&& is_random_pet(after.pets.last()@)
        },
        Command::DeletePet => {
            &&& handled.response == ResponseToUserInput::Continue
            &&& after.active_menu_item == before.active_menu_item
            &&& handled.store_changed == removes(before.selected, len)
            &&& if removes(before.selected, len) {
                &&& handled.failure is None
                &&& after.pets == before.pets.remove(before.selected->0 as int)
                &&& after.selected == Some(after_removal(before.selected->0))
            } else {
                &&& after.pets == before.pets
                &&& after.selected == before.selected
                &&& if refuses(before.selected, len) {
                    handled.failure == Some(
                        Error::IndexError { index: before.selected->0, len: len as usize },
                    )
                } else {
                    handled.failure is None
                }
            }
        },
        Command::SelectNext => {
            &&& handled.response == ResponseToUserInput::Continue
            &&& !handled.store_changed
            &&& handled.failure is None
            &&& after == (Dashboard { selected: after_next(before.selected, len), ..before })
        },
        Command::SelectPrevious => {
            &&& handled.response == ResponseToUserInput::Continue
            &&& !handled.store_changed
            &&& handled.failure is None
            &&& after == (Dashboard { selected: after_previous(before.selected, len), ..before })
        },
        Command::Nothing => {
            &&& handled.response == ResponseToUserInput::Continue
            &&& !handled.store_changed
            &&& handled.failure is None
            &&& after == before
        },
    }
}

/// Reads the command off an event.
pub fn command_for(event: &Event<KeyEvent>) -> (command: Command)
    ensures
        command == command_of(*event),
{
    match event {
        Event::Input(KeyEvent { code: KeyCode::Char(c) }) => {
            let c: char = *c;
            if c == 'q' {
                Command::Quit
            } else if c == 'h' {
                Command::ShowHome
            } else if c == 'p' {
                Command::ShowPets
            } else if c == 'a' {
                Command::AddPet
            } else if c == 'd' {
                Command::DeletePet
            } else if c == 'j' {
                Command::SelectNext
            } else if c == 'k' {
                Command::SelectPrevious
            } else {
                Command::Nothing
            }
        },
        _ => Command::Nothing,
    }
}

/// Whether the dispatcher needs the current list of pets to handle an event.
/// For every other event it leaves the list it is given untouched, whatever
/// that list holds.
pub fn needs_pets(event: &Event<KeyEvent>) -> (needed: bool)
    ensures
        needed == reads_pets(command_of(*event)),
{
    match command_for(event) {
        Command::AddPet | Command::DeletePet | Command::SelectNext | Command::SelectPrevious => true,
        _ => false,
    }
}

/// Handles one event: carries out the command it stands for on the active
/// screen, the selection and the list of pets, and reports whether the loop
/// goes on, whether the list has to be written back, and what failed.
///
/// A failure never stops the loop: it is reported, and screen, selection and
/// list stay as they were.
pub fn handle_user_input(
    event: Event<KeyEvent>,
    active_menu_item: &mut MenuItem,
    pet_list_state: &mut ListState,
    pets: &mut Vec<Pet>,
) -> (handled: Handled)
    ensures
        carried_out(
            command_of(event),
            Dashboard {
                active_menu_item: *old(active_menu_item),
                selected: old(pet_list_state).selected,
                pets: old(pets)@,
            },
            Dashboard {
                active_menu_item: *final(active_menu_item),
                selected: final(pet_list_state).selected,
                pets: final(pets)@,
            },
            handled,
        ),
{
    let mut handled = Handled {
        response: ResponseToUserInput::Continue,
        store_changed: false,
        failure: None,
    };
    match command_for(&event) {
        Command::Quit => {
            handled.response = ResponseToUserInput::Stop;
        },
        Command::ShowHome => {
            *active_menu_item = MenuItem::Home;
        },
        Command::ShowPets => {
            *active_menu_item = MenuItem::Pets;
        },
        Command::AddPet => {
            let mut parsed: Vec<Pet> = Vec::new();
            std::mem::swap(pets, &mut parsed);
            *pets = add_random_pet_to_db(parsed);
            handled.store_changed = true;
        },
        Command::DeletePet => {
            let amount_pets: usize = pets.len();
            match remove_pet_at_index(pets, pet_list_state) {
                Ok(()) => {
                    handled.store_changed = pets.len() < amount_pets;
                },
                Err(refusal) => {
                    handled.failure = Some(refusal);
                },
            }
        },
        Command::SelectNext => {
            select_next(pet_list_state, pets.len());
        },
        Command::SelectPrevious => {
            select_previous(pet_list_state, pets.len());
        },
        Command::Nothing => {},
    }
    handled
}

/// Whether the selection, if there is one, points at a pet or at the first
/// position.
pub open spec fn on_the_list(dashboard: Dashboard) -> bool {
    dashboard.selected matches Some(i) ==> i == 0 || i < dashboard.pets.len()
}

/// Only the quit key stops the loop: whatever else an event asks for, and
/// whether or not it fails, the loop goes on.
pub proof fn only_quit_stops_the_loop(command: Command, before: Dashboard, after: Dashboard, handled: Handled)
    requires
        carried_out(command, before, after, handled),
    ensures
        handled.response == ResponseToUserInput::Stop <==> command == Command::Quit,
{
}

/// No event moves the selection off the list: a selection that points at a
/// pet, or at the first position, does so after the event too.
pub proof fn the_selection_stays_on_the_list(
    command: Command,
    before: Dashboard,
    after: Dashboard,
    handled: Handled,
)
    requires
        carried_out(command, before, after, handled),
        on_the_list(before),
        before.pets.len() <= usize::MAX,
    ensures
        on_the_list(after),
{
}

/// The list of pets is written back exactly when an event changed its
/// length: after a pet was added or removed.
pub proof fn the_list_changes_only_when_it_is_written_back(
    command: Command,
    before: Dashboard,
    after: Dashboard,
    handled: Handled,
)
    requires
        carried_out(command, before, after, handled),
    ensures
        !handled.store_changed ==> after.pets == before.pets,
        handled.store_changed ==> after.pets.len() != before.pets.len(),
        handled.failure is Some ==> after == before,
{
}

} // verus!
