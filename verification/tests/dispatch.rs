use pet_cli::error::Error;
use pet_cli::input::{command_for, handle_user_input, needs_pets, Command};
use pet_cli::pet::{category, new_pet, random_pet, Pet, Timestamp};
use pet_cli::poller::{accept_user_input, poll_timeout, tick_due};
use pet_cli::state::{AppState, Event, KeyCode, KeyEvent, ListState, MenuItem, ResponseToUserInput};
use pet_cli::store::{
    add_random_pet_to_db, append, remove_at, remove_pet_at_index, select_next, select_previous,
};

fn pet(id: usize, name: &str) -> Pet {
    Pet {
        id,
        name: name.to_string(),
        category: "cats".to_string(),
        age: 3,
        created_at: Timestamp { secs: 1431648000, nanos: 0 },
    }
}

fn three_pets() -> Vec<Pet> {
    vec![pet(1, "Ada"), pet(2, "Bo"), pet(3, "Cy")]
}

fn key(c: char) -> Event<KeyEvent> {
    Event::Input(KeyEvent { code: KeyCode::Char(c) })
}

#[test]
fn next_walks_to_the_end_and_wraps() {
    let mut menu = MenuItem::Pets;
    let mut list = ListState { selected: Some(0) };
    let mut pets = three_pets();
    handle_user_input(key('j'), &mut menu, &mut list, &mut pets);
    assert_eq!(list.selected(), Some(1));
    handle_user_input(key('j'), &mut menu, &mut list, &mut pets);
    assert_eq!(list.selected(), Some(2));
    let handled = handle_user_input(key('j'), &mut menu, &mut list, &mut pets);
    assert_eq!(list.selected(), Some(0));
    assert_eq!(handled.response, ResponseToUserInput::Continue);
    assert!(!handled.store_changed);
    assert_eq!(handled.failure, None);
    assert_eq!(pets, three_pets());
}

#[test]
fn previous_wraps_to_the_last_pet() {
    let mut list = ListState { selected: Some(0) };
    select_previous(&mut list, 3);
    assert_eq!(list.selected(), Some(2));
    select_previous(&mut list, 3);
    assert_eq!(list.selected(), Some(1));
}

#[test]
fn next_and_previous_undo_each_other_on_every_position() {
    for len in 1..6usize {
        for start in 0..len {
            let mut list = ListState { selected: Some(start) };
            select_next(&mut list, len);
            select_previous(&mut list, len);
            assert_eq!(list.selected(), Some(start));
            select_previous(&mut list, len);
            select_next(&mut list, len);
            assert_eq!(list.selected(), Some(start));
        }
    }
}

#[test]
fn next_from_beyond_the_end_goes_to_the_first_pet() {
    let mut list = ListState { selected: Some(7) };
    select_next(&mut list, 3);
    assert_eq!(list.selected(), Some(0));
}

#[test]
fn deleting_the_only_pet_leaves_an_empty_list() {
    let mut menu = MenuItem::Pets;
    let mut list = ListState { selected: Some(0) };
    let mut pets = vec![pet(1, "Ada")];
    let handled = handle_user_input(key('d'), &mut menu, &mut list, &mut pets);
    assert_eq!(pets.len(), 0);
    assert_eq!(list.selected(), Some(0));
    assert!(handled.store_changed);
    assert_eq!(handled.failure, None);
    for c in ['j', 'k', 'd'] {
        let handled = handle_user_input(key(c), &mut menu, &mut list, &mut pets);
        assert_eq!(pets.len(), 0);
        assert_eq!(list.selected(), Some(0));
        assert!(!handled.store_changed);
        assert_eq!(handled.failure, None);
        assert_eq!(handled.response, ResponseToUserInput::Continue);
    }
}

#[test]
fn deleting_removes_by_position_and_keeps_the_order() {
    let mut list = ListState { selected: Some(1) };
    let mut pets = three_pets();
    assert_eq!(remove_pet_at_index(&mut pets, &mut list), Ok(()));
    assert_eq!(pets, vec![pet(1, "Ada"), pet(3, "Cy")]);
    assert_eq!(list.selected(), Some(0));
}

#[test]
fn deleting_with_nothing_selected_changes_nothing() {
    let mut list = ListState { selected: None };
    let mut pets = three_pets();
    assert_eq!(remove_pet_at_index(&mut pets, &mut list), Ok(()));
    assert_eq!(pets, three_pets());
    assert_eq!(list.selected(), None);
}

#[test]
fn deleting_beyond_the_end_is_reported_and_changes_nothing() {
    let mut menu = MenuItem::Pets;
    let mut list = ListState { selected: Some(3) };
    let mut pets = three_pets();
    let handled = handle_user_input(key('d'), &mut menu, &mut list, &mut pets);
    assert_eq!(handled.failure, Some(Error::IndexError { index: 3, len: 3 }));
    assert_eq!(handled.response, ResponseToUserInput::Continue);
    assert!(!handled.store_changed);
    assert_eq!(pets, three_pets());
    assert_eq!(list.selected(), Some(3));
}

#[test]
fn remove_at_takes_one_pet_out() {
    let mut pets = three_pets();
    assert_eq!(remove_at(&mut pets, 0), Ok(()));
    assert_eq!(pets, vec![pet(2, "Bo"), pet(3, "Cy")]);
    assert_eq!(remove_at(&mut pets, 2), Err(Error::IndexError { index: 2, len: 2 }));
    assert_eq!(pets.len(), 2);
    let mut none: Vec<Pet> = Vec::new();
    assert_eq!(remove_at(&mut none, 0), Err(Error::IndexError { index: 0, len: 0 }));
}

#[test]
fn stepping_over_an_empty_list_changes_nothing() {
    for selected in [None, Some(0), Some(4)] {
        let mut list = ListState { selected };
        select_next(&mut list, 0);
        assert_eq!(list.selected(), selected);
        select_previous(&mut list, 0);
        assert_eq!(list.selected(), selected);
        let mut pets: Vec<Pet> = Vec::new();
        assert_eq!(remove_pet_at_index(&mut pets, &mut list), Ok(()));
        assert_eq!(list.selected(), selected);
        assert!(pets.is_empty());
    }
}

fn looks_random(pet: &Pet) -> bool {
    pet.id < 9999999
        && pet.name.chars().count() == 10
        && pet.name.chars().all(|c| c.is_ascii_alphanumeric())
        && (pet.category == "cats" || pet.category == "dogs")
        && 1 <= pet.age
        && pet.age < 15
}

#[test]
fn adding_to_an_empty_list_gives_one_random_pet() {
    let mut menu = MenuItem::Home;
    let mut list = ListState { selected: Some(0) };
    let mut pets: Vec<Pet> = Vec::new();
    let handled = handle_user_input(key('a'), &mut menu, &mut list, &mut pets);
    assert_eq!(pets.len(), 1);
    assert!(looks_random(&pets[0]));
    assert!(handled.store_changed);
    assert_eq!(handled.failure, None);
    assert_eq!(list.selected(), Some(0));
    assert_eq!(menu, MenuItem::Home);
}

#[test]
fn adding_keeps_the_pets_that_were_there() {
    let pets = add_random_pet_to_db(three_pets());
    assert_eq!(pets.len(), 4);
    assert_eq!(&pets[..3], &three_pets()[..]);
    assert!(looks_random(&pets[3]));
    assert!(pets[3].created_at.secs > 1431648000);
}

#[test]
fn random_pets_stay_within_their_bounds() {
    for _ in 0..50 {
        assert!(looks_random(&random_pet()));
    }
}

#[test]
fn a_pet_is_put_together_from_its_draws() {
    let moment = Timestamp { secs: 5, nanos: 6 };
    let made = new_pet(17, "abcdefghij".to_string(), 0, 4, moment);
    assert_eq!(
        made,
        Pet { id: 17, name: "abcdefghij".to_string(), category: "cats".to_string(), age: 4, created_at: moment }
    );
    assert_eq!(new_pet(1, "x".to_string(), 1, 2, moment).category, "dogs");
    assert_eq!(category(0), "cats");
    assert_eq!(category(1), "dogs");
    assert_eq!(category(9), "dogs");
}

#[test]
fn append_puts_the_pet_last() {
    let pets = append(three_pets(), pet(9, "Zed"));
    assert_eq!(pets, vec![pet(1, "Ada"), pet(2, "Bo"), pet(3, "Cy"), pet(9, "Zed")]);
}

#[test]
fn keys_are_bound_to_commands() {
    assert_eq!(command_for(&key('q')), Command::Quit);
    assert_eq!(command_for(&key('h')), Command::ShowHome);
    assert_eq!(command_for(&key('p')), Command::ShowPets);
    assert_eq!(command_for(&key('a')), Command::AddPet);
    assert_eq!(command_for(&key('d')), Command::DeletePet);
    assert_eq!(command_for(&key('j')), Command::SelectNext);
    assert_eq!(command_for(&key('k')), Command::SelectPrevious);
    assert_eq!(command_for(&key('x')), Command::Nothing);
    assert_eq!(command_for(&Event::Input(KeyEvent { code: KeyCode::Other })), Command::Nothing);
    assert_eq!(command_for(&Event::Tick), Command::Nothing);
    assert!(needs_pets(&key('a')));
    assert!(needs_pets(&key('d')));
    assert!(needs_pets(&key('j')));
    assert!(needs_pets(&key('k')));
    assert!(!needs_pets(&key('q')));
    assert!(!needs_pets(&key('h')));
    assert!(!needs_pets(&Event::Tick));
}

#[test]
fn quit_stops_the_loop_and_changes_nothing() {
    let mut menu = MenuItem::Pets;
    let mut list = ListState { selected: Some(1) };
    let mut pets = three_pets();
    let handled = handle_user_input(key('q'), &mut menu, &mut list, &mut pets);
    assert_eq!(handled.response, ResponseToUserInput::Stop);
    assert_eq!(menu, MenuItem::Pets);
    assert_eq!(list.selected(), Some(1));
    assert_eq!(pets, three_pets());
}

#[test]
fn screens_are_switched_by_their_keys() {
    let mut menu = MenuItem::Home;
    let mut list = ListState { selected: Some(1) };
    let mut pets = three_pets();
    handle_user_input(key('p'), &mut menu, &mut list, &mut pets);
    assert_eq!(menu, MenuItem::Pets);
    handle_user_input(key('h'), &mut menu, &mut list, &mut pets);
    assert_eq!(menu, MenuItem::Home);
    assert_eq!(list.selected(), Some(1));
}

#[test]
fn a_tick_changes_nothing() {
    let mut menu = MenuItem::Pets;
    let mut list = ListState { selected: Some(2) };
    let mut pets = three_pets();
    let handled = handle_user_input(Event::Tick, &mut menu, &mut list, &mut pets);
    assert_eq!(handled.response, ResponseToUserInput::Continue);
    assert!(!handled.store_changed);
    assert_eq!(menu, MenuItem::Pets);
    assert_eq!(list.selected(), Some(2));
    assert_eq!(pets, three_pets());
}

#[test]
fn a_quiet_interval_ends_in_exactly_one_tick() {
    assert_eq!(poll_timeout(200, 0), 200);
    let events = accept_user_input(200, 200, None);
    assert_eq!(events, vec![Event::Tick]);
    assert_eq!(poll_timeout(200, 0), 200);
}

#[test]
fn a_key_is_sent_before_the_tick() {
    let pressed = KeyEvent { code: KeyCode::Char('j') };
    assert_eq!(accept_user_input(200, 50, Some(pressed)), vec![Event::Input(pressed)]);
    assert_eq!(accept_user_input(200, 250, Some(pressed)), vec![Event::Input(pressed), Event::Tick]);
    assert_eq!(accept_user_input(200, 50, None), Vec::<Event<KeyEvent>>::new());
}

#[test]
fn the_wait_shrinks_to_nothing() {
    assert_eq!(poll_timeout(200, 50), 150);
    assert_eq!(poll_timeout(200, 200), 0);
    assert_eq!(poll_timeout(200, 900), 0);
    assert!(!tick_due(200, 199));
    assert!(tick_due(200, 200));
    assert!(tick_due(200, 201));
}

#[test]
fn the_dashboard_starts_on_the_home_screen() {
    let state = AppState::default();
    assert_eq!(state.menu_titles, vec!["Home", "Pets", "Add", "Delete", "Quit"]);
    assert_eq!(state.active_menu_item, MenuItem::Home);
    assert_eq!(state.pet_list_state.selected(), Some(0));
    assert_eq!(ListState::default().selected(), None);
}

#[test]
fn screens_have_their_tabs() {
    assert_eq!(usize::from(MenuItem::Home), 0);
    assert_eq!(usize::from(MenuItem::Pets), 1);
}

#[test]
fn failures_have_their_messages() {
    assert_eq!(Error::ReadDBError("gone".to_string()).message(), "error reading the DB file: gone");
    assert_eq!(Error::ParseDBError("bad".to_string()).message(), "error parsing the DB file: bad");
    assert_eq!(Error::WriteDBError("full".to_string()).message(), "error writing the DB file: full");
    assert_eq!(Error::IndexError { index: 3, len: 1 }.message(), "no pet at the selected position");
}

#[test]
fn random_pets_differ() {
    let pets: Vec<Pet> = (0..200).map(|_| random_pet()).collect();
    assert!(pets.iter().any(|pet| pet.id != pets[0].id));
    assert!(pets.iter().any(|pet| pet.age > 1));
    assert!(pets.iter().any(|pet| pet.name != pets[0].name));
    assert!(pets.iter().all(|pet| pet.created_at.nanos < 2_000_000_000));
}

#[test]
fn the_selection_stays_on_the_list_through_a_run_of_keys() {
    let mut menu = MenuItem::Home;
    let mut list = ListState { selected: Some(0) };
    let mut pets: Vec<Pet> = Vec::new();
    for c in "jkdaajjkdjjjdkkaddddjk".chars() {
        let handled = handle_user_input(key(c), &mut menu, &mut list, &mut pets);
        assert_eq!(handled.response, ResponseToUserInput::Continue);
        assert_eq!(handled.failure, None);
        let selected = list.selected().expect("the selection is never cleared");
        assert!(selected == 0 || selected < pets.len());
    }
    assert!(pets.is_empty());
}
