//! The dashboard's state and the events that change it.

use vstd::prelude::*;
use vstd::std_specs::convert::FromSpecImpl;

verus! {

/// One of the two screens.
#[derive(Copy, Clone, Debug, PartialEq, Eq, Structural)]
pub enum MenuItem {
    Home,
    Pets,
}

impl MenuItem {
    /// The position of this screen's tab in the menu bar.
    pub open spec fn tab(self) -> int {
        match self {
            MenuItem::Home => 0,
            MenuItem::Pets => 1,
        }
    }
}

impl From<MenuItem> for usize {
    fn from(input: MenuItem) -> (tab: usize) {
        match input {
            MenuItem::Home => 0,
            MenuItem::Pets => 1,
        }
    }
}

impl FromSpecImpl<MenuItem> for usize {
    open spec fn obeys_from_spec() -> bool {
        true
    }

    open spec fn from_spec(input: MenuItem) -> usize {
        match input {
            MenuItem::Home => 0,
            MenuItem::Pets => 1,
        }
    }
}

/// The selection cursor of the pet list.
#[derive(Copy, Clone, Debug, PartialEq, Eq)]
pub struct ListState {
    pub selected: Option<usize>,
}

impl ListState {
    /// The highlighted position, if there is one.
    pub fn selected(&self) -> (position: Option<usize>)
        ensures
            position == self.selected,
    {
        self.selected
    }

    /// Moves the highlight, or clears it with `None`.
    pub fn select(&mut self, position: Option<usize>)
        ensures
            final(self).selected == position,
    {
        self.selected = position;
    }
}

impl Default for ListState {
    fn default() -> (state: ListState)
        ensures
            state.selected.is_none(),
    {
        ListState { selected: None }
    }
}

/// Everything the dashboard remembers between two frames.
pub struct AppState<'a> {
    pub menu_titles: Vec<&'a str>,
    pub active_menu_item: MenuItem,
    pub pet_list_state: ListState,
}

impl<'a> AppState<'a> {
    /// The state a freshly started dashboard is in: the home screen, the
    /// first pet highlighted, and the five menu entries in their order.
    pub open spec fn is_initial(self) -> bool {
        &&& self.active_menu_item == MenuItem::Home
        &&& self.pet_list_state.selected == Some(0usize)
        &&& self.menu_titles@.len() == 5
        &&& self.menu_titles@[0]@ == "Home"@
        &&& self.menu_titles@[1]@ == "Pets"@
        &&& self.menu_titles@[2]@ == "Add"@
        &&& self.menu_titles@[3]@ == "Delete"@
        &&& self.menu_titles@[4]@ == "Quit"@
    }
}

impl Default for AppState<'_> {
    fn default() -> (state: Self)
        ensures
            state.is_initial(),
    {
        let mut pet_list_state = ListState::default();
        pet_list_state.select(Some(0));
        let mut menu_titles: Vec<&str> = Vec::new();
        menu_titles.push("Home");
        menu_titles.push("Pets");
        menu_titles.push("Add");
        menu_titles.push("Delete");
        menu_titles.push("Quit");
        Self { menu_titles, active_menu_item: MenuItem::Home, pet_list_state }
    }
}

/// A key as the dashboard tells keys apart: a character, or anything else.
#[derive(Copy, Clone, Debug, PartialEq, Eq, Structural)]
pub enum KeyCode {
    Char(char),
    Other,
}

/// One press of a key.
#[derive(Copy, Clone, Debug, PartialEq, Eq, Structural)]
pub struct KeyEvent {
    pub code: KeyCode,
}

/// What the input poller hands to the dispatcher.
#[derive(Copy, Clone, Debug, PartialEq, Eq)]
pub enum Event<I> {
    Input(I),
    Tick,
}

/// Whether the main loop goes on after an event.
#[derive(Copy, Clone, Debug, PartialEq, Eq, Structural)]
pub enum ResponseToUserInput {
    Continue,
    Stop,
}

} // verus!
