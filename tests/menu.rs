use metalforge::menu::{
    handle_menu_event, handle_menu_keys, handle_menu_mouse, AppState, Interaction, MenuEvent, MenuItem,
    MenuKeys, MenuOutcome, MenuState,
};

fn menu_of(len: usize) -> Vec<MenuItem> {
    (0..len).map(|i| MenuItem::new(i, "item", MenuEvent::Todo)).collect()
}

/// One frame: the keys are read, then the event they raise is handled.
fn frame(keys: &MenuKeys, screen: AppState, state: &mut MenuState) -> Option<MenuOutcome> {
    handle_menu_keys(keys, screen, state).map(|event| handle_menu_event(event, state))
}

#[test]
fn default_menu_idx_is_zero() {
    let state = MenuState::default();
    assert_eq!(0, state.selected_idx());
}

#[test]
fn arrow_key_down_increments_the_currently_selected_menu_item_until_last_item() {
    let mut menu_state = MenuState::default();
    menu_state.load_menu(&menu_of(3));
    let down = MenuKeys { down: true, ..MenuKeys::default() };

    // First update, expect an increment
    frame(&down, AppState::MainMenu, &mut menu_state);
    assert_eq!(1, menu_state.selected_idx());

    // Second update, expect an increment to the third, last item
    frame(&down, AppState::MainMenu, &mut menu_state);
    assert_eq!(2, menu_state.selected_idx());

    // Final update, no increment is expected as we're already on the last item
    frame(&down, AppState::MainMenu, &mut menu_state);
    assert_eq!(2, menu_state.selected_idx());

    // Clear key
    frame(&MenuKeys::default(), AppState::MainMenu, &mut menu_state);
    assert_eq!(2, menu_state.selected_idx());
}

#[test]
fn arrow_key_up_decrements_the_current_menu_item_until_first_item() {
    let mut menu_state = MenuState::default();
    menu_state.load_menu(&menu_of(3));
    let down = MenuKeys { down: true, ..MenuKeys::default() };
    let up = MenuKeys { up: true, ..MenuKeys::default() };

    // Go down to the last item
    frame(&down, AppState::MainMenu, &mut menu_state);
    frame(&down, AppState::MainMenu, &mut menu_state);

    // Clear arrow down and change to arrow up
    frame(&MenuKeys::default(), AppState::MainMenu, &mut menu_state);

    // Iterate upwards
    frame(&up, AppState::MainMenu, &mut menu_state);
    assert_eq!(1, menu_state.selected_idx());

    // Move to top element
    frame(&up, AppState::MainMenu, &mut menu_state);
    assert_eq!(0, menu_state.selected_idx());

    // Keep moving up but expect no change as we're already at the top
    frame(&up, AppState::MainMenu, &mut menu_state);
    assert_eq!(0, menu_state.selected_idx());

    // Clear key
    frame(&MenuKeys::default(), AppState::MainMenu, &mut menu_state);
    assert_eq!(0, menu_state.selected_idx());
}

#[test]
fn select_idx_is_held_within_the_menu() {
    let mut state = MenuState::new();
    state.select_idx(4);
    assert_eq!(0, state.selected_idx());
    state.load_menu(&menu_of(5));
    state.select_idx(4);
    assert_eq!(4, state.selected_idx());
    state.select_idx(usize::MAX);
    assert_eq!(4, state.selected_idx());
    state.select_next();
    assert_eq!(4, state.selected_idx());
    state.select_prev();
    assert_eq!(3, state.selected_idx());
}

#[test]
fn load_menu_takes_the_action_at_the_selection() {
    let items = vec![
        MenuItem::new(0, "Play", MenuEvent::Play),
        MenuItem::new(1, "Settings", MenuEvent::OpenSettingsMenu),
        MenuItem::new(2, "Quit", MenuEvent::Quit),
    ];
    let mut state = MenuState::new();
    state.load_menu(&items);
    assert_eq!(3, state.menu_len());
    assert_eq!(MenuEvent::Play, state.current_action());
    state.select_idx(2);
    state.load_menu(&items);
    assert_eq!(MenuEvent::Quit, state.current_action());
    state.load_menu(&menu_of(1));
    assert_eq!(MenuEvent::Ignore, state.current_action());
    assert_eq!(1, state.menu_len());
}

#[test]
fn push_and_pop_restore_the_selection() {
    let mut state = MenuState::new();
    state.load_menu(&menu_of(4));
    state.select_idx(2);
    state.update_selection(2, MenuEvent::ChooseSong(7));
    state.push();
    assert_eq!(0, state.selected_idx());
    state.select_idx(3);
    state.update_selection(3, MenuEvent::Todo);
    state.pop();
    assert_eq!(2, state.selected_idx());
    assert_eq!(MenuEvent::ChooseSong(7), state.current_action());
    state.pop();
    assert_eq!(0, state.selected_idx());
    assert_eq!(MenuEvent::Ignore, state.current_action());
}

#[test]
fn idx_changed_until_highlight_is_updated() {
    let mut state = MenuState::new();
    state.load_menu(&menu_of(3));
    assert!(!state.idx_changed());
    assert_eq!(None, state.highlight(&vec![(0, MenuEvent::Play)]));
    state.select_next();
    assert!(state.idx_changed());
    let items = vec![(0, MenuEvent::Play), (1, MenuEvent::Quit), (2, MenuEvent::Todo)];
    assert_eq!(Some(vec![false, true, false]), state.highlight(&items));
    assert!(!state.idx_changed());
    assert_eq!(MenuEvent::Quit, state.current_action());
}

#[test]
fn enter_chooses_the_highlighted_action() {
    let mut state = MenuState::new();
    state.load_menu(&vec![MenuItem::new(0, "Play", MenuEvent::Play)]);
    let enter = MenuKeys { enter: true, ..MenuKeys::default() };
    assert_eq!(Some(MenuEvent::Play), handle_menu_keys(&enter, AppState::MainMenu, &mut state));
    state.update_selection(0, MenuEvent::Todo);
    assert_eq!(Some(MenuEvent::Todo), handle_menu_keys(&enter, AppState::MainMenu, &mut state));
    let escape = MenuKeys { escape: true, ..MenuKeys::default() };
    assert_eq!(Some(MenuEvent::Quit), handle_menu_keys(&escape, AppState::MainMenu, &mut state));
    assert_eq!(MenuEvent::Play, state.current_action());
}

#[test]
fn escape_leaves_each_menu() {
    let escape = MenuKeys { escape: true, ..MenuKeys::default() };
    let mut state = MenuState::new();
    assert_eq!(Some(MenuEvent::OpenMainMenu), handle_menu_keys(&escape, AppState::SettingsMenu, &mut state));
    assert_eq!(Some(MenuEvent::OpenMainMenu), handle_menu_keys(&escape, AppState::SongLibrary, &mut state));
    assert_eq!(Some(MenuEvent::Play), handle_menu_keys(&escape, AppState::Arrangements, &mut state));
    assert_eq!(Some(MenuEvent::Quit), handle_menu_keys(&escape, AppState::MainMenu, &mut state));
    assert_eq!(None, handle_menu_keys(&MenuKeys::default(), AppState::Player, &mut state));
}

#[test]
fn menu_events_lead_to_screens() {
    let mut state = MenuState::new();
    state.load_menu(&menu_of(5));
    let stay = MenuOutcome { next_screen: None, exit: false };
    assert_eq!(MenuOutcome { next_screen: Some(AppState::MainMenu), exit: false }, handle_menu_event(MenuEvent::OpenMainMenu, &mut state));
    assert_eq!(MenuOutcome { next_screen: Some(AppState::SettingsMenu), exit: false }, handle_menu_event(MenuEvent::OpenSettingsMenu, &mut state));
    assert_eq!(stay, handle_menu_event(MenuEvent::FocusMenuItem(3), &mut state));
    assert_eq!(3, state.selected_idx());
    assert_eq!(MenuOutcome { next_screen: Some(AppState::Arrangements), exit: false }, handle_menu_event(MenuEvent::ChooseSong(11), &mut state));
    assert_eq!(11, state.selected_song_idx());
    assert_eq!(MenuOutcome { next_screen: Some(AppState::Player), exit: false }, handle_menu_event(MenuEvent::ChooseArrangement(2), &mut state));
    assert_eq!(2, state.selected_arrangement_idx());
    assert_eq!(MenuOutcome { next_screen: Some(AppState::SongLibrary), exit: false }, handle_menu_event(MenuEvent::Play, &mut state));
    assert_eq!(0, state.selected_idx());
    assert_eq!(MenuOutcome { next_screen: None, exit: true }, handle_menu_event(MenuEvent::Quit, &mut state));
    assert_eq!(stay, handle_menu_event(MenuEvent::Todo, &mut state));
    assert_eq!(stay, handle_menu_event(MenuEvent::Ignore, &mut state));
}

#[test]
fn pointer_presses_and_hovers() {
    assert_eq!(Some(MenuEvent::Quit), handle_menu_mouse(Interaction::Pressed, 4, MenuEvent::Quit));
    assert_eq!(Some(MenuEvent::FocusMenuItem(4)), handle_menu_mouse(Interaction::Hovered, 4, MenuEvent::Quit));
    assert_eq!(None, handle_menu_mouse(Interaction::Untouched, 4, MenuEvent::Quit));
}
