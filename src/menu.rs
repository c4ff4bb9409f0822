//! Menu navigation: which item is selected, the stack of menus entered,
//! and the screen that each menu event leads to.

use vstd::prelude::*;

verus! {

/// The screens of the application.
#[derive(Clone, Copy, Debug, PartialEq, Eq, Hash, Structural)]
pub enum AppState {
    MainMenu,
    SettingsMenu,
    SongLibrary,
    Player,
    Arrangements,
}

/// An action of the menus, carried by each menu item.
#[derive(Clone, Copy, Debug, PartialEq, Eq, Structural)]
pub enum MenuEvent {
    OpenMainMenu,
    OpenSettingsMenu,
    PrevMenuItem,
    NextMenuItem,
    FocusMenuItem(usize),
    ChooseSong(usize),
    ChooseArrangement(usize),
    Play,
    Quit,
    Todo,
    Ignore,
}

/// One entry of a menu.
#[derive(Debug)]
pub struct MenuItem {
    /// Position of the entry in its menu.
    pub idx: usize,
    pub title: String,
    /// What choosing the entry does.
    pub event: MenuEvent,
}

impl MenuItem {
    /// The entry at `idx` titled `title` that raises `event` when chosen.
    pub fn new(idx: usize, title: &str, event: MenuEvent) -> (r: MenuItem)
        ensures
            r.idx == idx,
            r.title@ == title@,
            r.event == event,
    {
        MenuItem { idx, title: title.to_owned(), event }
    }
}

/// How the pointer relates to a menu entry.
#[derive(Clone, Copy, Debug, PartialEq, Eq, Structural)]
pub enum Interaction {
    Pressed,
    Hovered,
    Untouched,
}

/// The menu keys as read in one frame: each is true when it went down in
/// that frame.
#[derive(Clone, Copy, Debug, PartialEq, Eq, Default)]
pub struct MenuKeys {
    pub escape: bool,
    pub enter: bool,
    pub down: bool,
    pub up: bool,
}

/// The abstract state of a [`MenuState`].
pub struct MenuModel {
    pub previous_idx: usize,
    pub selected_idx: usize,
    pub menu_len: usize,
    pub current_action: MenuEvent,
    pub selected_song_idx: usize,
    pub selected_arrangement_idx: usize,
    /// The menus entered, each with the selection and action it was left at.
    pub stack: Seq<(usize, MenuEvent)>,
}

/// The highest index that can be selected in a menu of `len` entries; an
/// empty menu still has its first place.
pub open spec fn last_idx(len: usize) -> usize {
    if len == 0 {
        0
    } else {
        (len - 1) as usize
    }
}

/// `idx` held within a menu of `len` entries.
pub open spec fn clamp_idx(idx: usize, len: usize) -> usize {
    if idx > last_idx(len) {
        last_idx(len)
    } else {
        idx
    }
}

/// Selection state of the menus.
pub struct MenuState {
    previous_idx: usize,
    selected_idx: usize,
    menu_len: usize,
    current_action: MenuEvent,
    selected_song_idx: usize,
    selected_arrangement_idx: usize,
    menu_stack: Vec<(usize, MenuEvent)>,
}

impl View for MenuState {
    type V = MenuModel;

    closed spec fn view(&self) -> MenuModel {
        MenuModel {
            previous_idx: self.previous_idx,
            selected_idx: self.selected_idx,
            menu_len: self.menu_len,
            current_action: self.current_action,
            selected_song_idx: self.selected_song_idx,
            selected_arrangement_idx: self.selected_arrangement_idx,
            stack: self.menu_stack@,
        }
    }
}

/// The selection moved to `idx`, held within the menu.
pub open spec fn selected(m: MenuModel, idx: usize) -> MenuModel {
    MenuModel { selected_idx: clamp_idx(idx, m.menu_len), ..m }
}

/// The state after highlighting, in order, each of `items` whose index is
/// the selected one.
pub open spec fn highlighted(m: MenuModel, items: Seq<(usize, MenuEvent)>) -> MenuModel
    decreases items.len(),
{
    if items.len() == 0 {
        m
    } else {
        let before = highlighted(m, items.drop_last());
        let item = items.last();
        if item.0 == m.selected_idx {
            MenuModel { previous_idx: item.0, current_action: item.1, ..before }
        } else {
            before
        }
    }
}

impl MenuState {
    /// Nothing selected, nothing entered.
    pub fn new() -> (r: MenuState)
        ensures
            r@ == (MenuModel {
                previous_idx: 0,
                selected_idx: 0,
                menu_len: 0,
                current_action: MenuEvent::OpenMainMenu,
                selected_song_idx: 0,
                selected_arrangement_idx: 0,
                stack: Seq::empty(),
            }),
    {
        MenuState {
            previous_idx: 0,
            selected_idx: 0,
            menu_len: 0,
            current_action: MenuEvent::OpenMainMenu,
            selected_song_idx: 0,
            selected_arrangement_idx: 0,
            menu_stack: Vec::new(),
        }
    }

    /// The selected entry.
    pub fn selected_idx(&self) -> (r: usize)
        ensures
            r == self@.selected_idx,
    {
        self.selected_idx
    }

    /// The number of entries in the menu shown.
    pub fn menu_len(&self) -> (r: usize)
        ensures
            r == self@.menu_len,
    {
        self.menu_len
    }

    /// The action of the highlighted entry.
    pub fn current_action(&self) -> (r: MenuEvent)
        ensures
            r == self@.current_action,
    {
        self.current_action
    }

    /// The song chosen last.
    pub fn selected_song_idx(&self) -> (r: usize)
        ensures
            r == self@.selected_song_idx,
    {
        self.selected_song_idx
    }

    /// The arrangement chosen last.
    pub fn selected_arrangement_idx(&self) -> (r: usize)
        ensures
            r == self@.selected_arrangement_idx,
    {
        self.selected_arrangement_idx
    }

    /// Whether the selection moved since the highlight was last updated.
    pub fn idx_changed(&self) -> (r: bool)
        ensures
            r == (self@.selected_idx != self@.previous_idx),
    {
        self.selected_idx != self.previous_idx
    }

    /// Records that entry `new_idx`, with action `new_action`, is highlighted.
    pub fn update_selection(&mut self, new_idx: usize, new_action: MenuEvent)
        ensures
            final(self)@ == (MenuModel { previous_idx: new_idx, current_action: new_action, ..old(self)@ }),
    {
        self.previous_idx = new_idx;
        self.current_action = new_action;
    }

    /// Selects entry `idx`, or the last entry if the menu is shorter.
    pub fn select_idx(&mut self, idx: usize)
        ensures
            final(self)@ == selected(old(self)@, idx),
    {
        let last = if self.menu_len == 0 {
            0
        } else {
            self.menu_len - 1
        };
        self.selected_idx = if idx > last {
            last
        } else {
            idx
        };
    }

    /// Selects the next entry; the last entry stays selected.
    pub fn select_next(&mut self)
        ensures
            final(self)@ == selected(old(self)@, old(self)@.selected_idx.saturating_add(1)),
    {
        self.select_idx(self.selected_idx.saturating_add(1));
    }

    /// Selects the previous entry; the first entry stays selected.
    pub fn select_prev(&mut self)
        ensures
            final(self)@ == selected(
                old(self)@,
                if old(self)@.selected_idx == 0 { 0 } else { (old(self)@.selected_idx - 1) as usize },
            ),
    {
        let prev = if self.selected_idx == 0 {
            0
        } else {
            self.selected_idx - 1
        };
        self.select_idx(prev);
    }

    /// Enters a menu: remembers the selection and action, and selects the
    /// first entry.
    pub fn push(&mut self)
        ensures
            final(self)@ == pushed(old(self)@),
    {
        self.menu_stack.push((self.selected_idx, self.current_action));
        self.select_idx(0);
    }

    /// Leaves a menu: restores the selection and action it was entered
    /// from; with no menu entered, the first entry and no action.
    pub fn pop(&mut self)
        ensures
            final(self)@ == popped(old(self)@),
    {
        let (new_idx, new_action) = match self.menu_stack.pop() {
            Some(entry) => entry,
            None => (0, MenuEvent::Ignore),
        };
        self.select_idx(new_idx);
        self.current_action = new_action;
    }
    /// Shows a menu of `items`: the action becomes that of the entry at the
    /// current selection, or none if the menu is shorter.
    pub fn load_menu(&mut self, items: &Vec<MenuItem>)
        ensures
            final(self)@ == (MenuModel {
                menu_len: items.len(),
                current_action: if old(self)@.selected_idx < items.len() {
                    items@[old(self)@.selected_idx as int].event
                } else {
                    MenuEvent::Ignore
                },
                ..old(self)@
            }),
    {
        self.current_action = if self.selected_idx < items.len() {
            items[self.selected_idx].event
        } else {
            MenuEvent::Ignore
        };
        self.menu_len = items.len();
    }

    /// Updates the highlight after the selection moved. Each entry is given
    /// as its index and action; the result tells for each whether it is now
    /// highlighted, and the action becomes that of the last highlighted
    /// entry. Returns `None`, changing nothing, when the selection did not
    /// move.
    pub fn highlight(&mut self, items: &Vec<(usize, MenuEvent)>) -> (r: Option<Vec<bool>>)
        ensures
            old(self)@.selected_idx == old(self)@.previous_idx ==> r is None && final(self)@ == old(self)@,
            old(self)@.selected_idx != old(self)@.previous_idx ==> {
                &&& r is Some
                &&& r->0@ == items@.map_values(|item: (usize, MenuEvent)| item.0 == old(self)@.selected_idx)
                &&& final(self)@ == highlighted(old(self)@, items@)
            },
    {
        if self.selected_idx == self.previous_idx {
            return None;
        }
        let mut marks: Vec<bool> = Vec::new();
        let mut i: usize = 0;
        while i < items.len()
            invariant
                i <= items.len(),
                old(self)@.selected_idx != old(self)@.previous_idx,
                self@.selected_idx == old(self)@.selected_idx,
                self@ == highlighted(old(self)@, items@.take(i as int)),
                marks@ == items@.take(i as int).map_values(
                    |item: (usize, MenuEvent)| item.0 == old(self)@.selected_idx,
                ),
            decreases items.len() - i,
        {
            let (idx, event) = items[i];
            proof {
                let next = items@.take(i as int + 1);
                assert(next.drop_last() == items@.take(i as int));
                assert(next.last() == items@[i as int]);
                assert(next.map_values(|item: (usize, MenuEvent)| item.0 == old(self)@.selected_idx)
                    == items@.take(i as int).map_values(
                    |item: (usize, MenuEvent)| item.0 == old(self)@.selected_idx,
                ).push(idx == old(self)@.selected_idx));
            }
            if idx == self.selected_idx {
                self.update_selection(idx, event);
            }
            marks.push(idx == self.selected_idx);
            i += 1;
        }
        proof {
            assert(items@.take(items.len() as int) == items@);
        }
        Some(marks)
    }
}

impl Default for MenuState {
    fn default() -> (r: MenuState)
        ensures
            r@ == (MenuModel {
                previous_idx: 0,
                selected_idx: 0,
                menu_len: 0,
                current_action: MenuEvent::OpenMainMenu,
                selected_song_idx: 0,
                selected_arrangement_idx: 0,
                stack: Seq::empty(),
            }),
    {
        MenuState::new()
    }
}

/// The state after entering a menu: the selection and action are
/// remembered and the first entry is selected.
pub open spec fn pushed(m: MenuModel) -> MenuModel {
    selected(MenuModel { stack: m.stack.push((m.selected_idx, m.current_action)), ..m }, 0)
}

/// The state after leaving a menu: the remembered selection and action
/// come back; with no menu entered, the first entry and no action.
pub open spec fn popped(m: MenuModel) -> MenuModel {
    if m.stack.len() > 0 {
        MenuModel {
            current_action: m.stack.last().1,
            ..selected(MenuModel { stack: m.stack.drop_last(), ..m }, m.stack.last().0)
        }
    } else {
        MenuModel { current_action: MenuEvent::Ignore, ..selected(m, 0) }
    }
}

/// Whether choosing `action` enters a new menu.
pub open spec fn enters_menu(action: MenuEvent) -> bool {
    action is OpenMainMenu || action is OpenSettingsMenu || action is ChooseSong || action is Play
}

/// The state after the menu keys `keys` on screen `screen`.
pub open spec fn after_keys(m: MenuModel, keys: MenuKeys, screen: AppState) -> MenuModel {
    if keys.escape {
        popped(m)
    } else if keys.enter && enters_menu(m.current_action) {
        pushed(m)
    } else {
        m
    }
}

/// The event that the menu keys `keys` ask for on screen `screen`: escape
/// leaves the menu, for the main menu by quitting, enter chooses the
/// highlighted action, and the arrows move the selection. Earlier keys in
/// that list take precedence.
pub open spec fn keys_event(m: MenuModel, keys: MenuKeys, screen: AppState) -> Option<MenuEvent> {
    if keys.escape {
        match screen {
            AppState::MainMenu => Some(MenuEvent::Quit),
            AppState::Arrangements => Some(MenuEvent::Play),
            _ => Some(MenuEvent::OpenMainMenu),
        }
    } else if keys.enter {
        Some(m.current_action)
    } else if keys.down {
        Some(MenuEvent::NextMenuItem)
    } else if keys.up {
        Some(MenuEvent::PrevMenuItem)
    } else {
        None
    }
}

/// Reads the menu keys of one frame on screen `screen`.
pub fn handle_menu_keys(keys: &MenuKeys, screen: AppState, menu_state: &mut MenuState) -> (r: Option<MenuEvent>)
    requires
        !(keys.escape && screen is Player),
    ensures
        r == keys_event(old(menu_state)@, *keys, screen),
        final(menu_state)@ == after_keys(old(menu_state)@, *keys, screen),
{
    if keys.escape {
        menu_state.pop();
        match screen {
            AppState::MainMenu => Some(MenuEvent::Quit),
            AppState::Arrangements => Some(MenuEvent::Play),
            _ => Some(MenuEvent::OpenMainMenu),
        }
    } else if keys.enter {
        let action = menu_state.current_action();
        match action {
            MenuEvent::OpenMainMenu | MenuEvent::OpenSettingsMenu | MenuEvent::ChooseSong(_)
            | MenuEvent::Play => {
                menu_state.push();
            },
            _ => {},
        }
        Some(action)
    } else if keys.down {
        Some(MenuEvent::NextMenuItem)
    } else if keys.up {
        Some(MenuEvent::PrevMenuItem)
    } else {
        None
    }
}

/// The event that the pointer raises on the entry at `idx` with action
/// `event`: pressing chooses the action, hovering selects the entry.
pub fn handle_menu_mouse(interaction: Interaction, idx: usize, event: MenuEvent) -> (r: Option<MenuEvent>)
    ensures
        r == (match interaction {
            Interaction::Pressed => Some(event),
            Interaction::Hovered => Some(MenuEvent::FocusMenuItem(idx)),
            Interaction::Untouched => None::<MenuEvent>,
        }),
{
    match interaction {
        Interaction::Pressed => Some(event),
        Interaction::Hovered => Some(MenuEvent::FocusMenuItem(idx)),
        Interaction::Untouched => None,
    }
}

/// What a menu event asks of the application.
#[derive(Clone, Copy, Debug, PartialEq, Eq)]
pub struct MenuOutcome {
    /// The screen to move to, if any.
    pub next_screen: Option<AppState>,
    /// Whether the application exits.
    pub exit: bool,
}

/// The screen that `event` leads to, and whether it exits.
pub open spec fn event_outcome(event: MenuEvent) -> MenuOutcome {
    match event {
        MenuEvent::OpenMainMenu => MenuOutcome { next_screen: Some(AppState::MainMenu), exit: false },
        MenuEvent::OpenSettingsMenu => MenuOutcome {
            next_screen: Some(AppState::SettingsMenu),
            exit: false,
        },
        MenuEvent::ChooseSong(_) => MenuOutcome { next_screen: Some(AppState::Arrangements), exit: false },
        MenuEvent::ChooseArrangement(_) => MenuOutcome { next_screen: Some(AppState::Player), exit: false },
        MenuEvent::Play => MenuOutcome { next_screen: Some(AppState::SongLibrary), exit: false },
        MenuEvent::Quit => MenuOutcome { next_screen: None, exit: true },
        _ => MenuOutcome { next_screen: None, exit: false },
    }
}

/// The selection state after `event`.
pub open spec fn after_event(m: MenuModel, event: MenuEvent) -> MenuModel {
    match event {
        MenuEvent::PrevMenuItem => selected(
            m,
            if m.selected_idx == 0 { 0 } else { (m.selected_idx - 1) as usize },
        ),
        MenuEvent::NextMenuItem => selected(m, m.selected_idx.saturating_add(1)),
        MenuEvent::FocusMenuItem(idx) => selected(m, idx),
        MenuEvent::ChooseSong(song) => MenuModel { selected_song_idx: song, ..m },
        MenuEvent::ChooseArrangement(arrangement) => MenuModel {
            selected_arrangement_idx: arrangement,
            ..m
        },
        MenuEvent::Play => MenuModel { selected_idx: 0, ..m },
        _ => m,
    }
}

/// Applies a menu event to the selection state and says where it leads.
pub fn handle_menu_event(event: MenuEvent, menu_state: &mut MenuState) -> (r: MenuOutcome)
    ensures
        r == event_outcome(event),
        final(menu_state)@ == after_event(old(menu_state)@, event),
{
    match event {
        MenuEvent::OpenMainMenu => MenuOutcome { next_screen: Some(AppState::MainMenu), exit: false },
        MenuEvent::OpenSettingsMenu => MenuOutcome {
            next_screen: Some(AppState::SettingsMenu),
            exit: false,
        },
        MenuEvent::PrevMenuItem => {
            menu_state.select_prev();
            MenuOutcome { next_screen: None, exit: false }
        },
        MenuEvent::NextMenuItem => {
            menu_state.select_next();
            MenuOutcome { next_screen: None, exit: false }
        },
        MenuEvent::FocusMenuItem(idx) => {
            menu_state.select_idx(idx);
            MenuOutcome { next_screen: None, exit: false }
        },
        MenuEvent::ChooseSong(song) => {
            menu_state.selected_song_idx = song;
            MenuOutcome { next_screen: Some(AppState::Arrangements), exit: false }
        },
        MenuEvent::ChooseArrangement(arrangement) => {
            menu_state.selected_arrangement_idx = arrangement;
            MenuOutcome { next_screen: Some(AppState::Player), exit: false }
        },
        MenuEvent::Play => {
            menu_state.selected_idx = 0;
            MenuOutcome { next_screen: Some(AppState::SongLibrary), exit: false }
        },
        MenuEvent::Quit => MenuOutcome { next_screen: None, exit: true },
        MenuEvent::Todo | MenuEvent::Ignore => MenuOutcome { next_screen: None, exit: false },
    }
}

} // verus!
