use vstd::prelude::*;

verus! {

/// The view that the application shows.
#[derive(Debug, Clone, Copy, PartialEq, Eq, Structural)]
pub enum AppState {
    Home,
    Apps,
    RecentFiles,
    Settings,
}

/// A key as the views tell keys apart.
#[derive(Debug, Clone, Copy, PartialEq, Eq, Structural)]
pub enum Key {
    Char(char),
    Esc,
    Enter,
    Up,
    Down,
    Other,
}

/// What the application has to do after a key, besides showing its views.
#[derive(Debug, Clone, Copy, PartialEq, Eq, Structural)]
pub enum Action {
    Nothing,
    /// Start the application with this index.
    LaunchApp(usize),
    /// Open the recent file with this index, and record that it was opened.
    OpenRecent(usize),
    /// Start a terminal.
    LaunchTerminal,
    /// Create a text file, open it in the editor, and record it.
    NewFile,
}

/// Where the user is: the view, the selected item of each list, and
/// whether the application is to end.
#[derive(Debug, Clone, Copy, PartialEq, Eq, Structural)]
pub struct Navigation {
    pub state: AppState,
    pub app_selection: usize,
    pub recent_selection: Option<usize>,
    pub settings_selection: Option<usize>,
    pub should_quit: bool,
}

/// The number of rows of the settings view.
pub const SETTINGS_ROWS: usize = 5;

/// The item in the middle of a list of `count` items.
pub open spec fn middle(count: nat) -> nat {
    if count == 0 {
        0
    } else {
        ((count - 1) / 2) as nat
    }
}

/// The selection one item further down a list of `count` items; the last
/// item stays selected.
pub open spec fn moved_down(selected: nat, count: nat) -> nat {
    if selected + 1 < count {
        selected + 1
    } else {
        selected
    }
}

/// The selection one item further up; the first item stays selected.
pub open spec fn moved_up(selected: nat) -> nat {
    if selected > 0 {
        (selected - 1) as nat
    } else {
        selected
    }
}

/// The first item of a list of `count` items, if it has one.
pub open spec fn first_of(count: nat) -> Option<usize> {
    if count > 0 {
        Some(0usize)
    } else {
        None
    }
}

/// The state after the selection went down in the current view.
pub open spec fn after_down(nav: Navigation, app_count: nat, recent_count: nat) -> Navigation {
    match nav.state {
        AppState::Home => nav,
        AppState::Apps => Navigation {
            app_selection: moved_down(nav.app_selection as nat, app_count) as usize,
            ..nav
        },
        AppState::RecentFiles => match nav.recent_selection {
            Some(selected) => Navigation {
                recent_selection: Some(moved_down(selected as nat, recent_count) as usize),
                ..nav
            },
            None => nav,
        },
        AppState::Settings => match nav.settings_selection {
            Some(selected) => Navigation {
                settings_selection: Some(
                    moved_down(selected as nat, SETTINGS_ROWS as nat) as usize,
                ),
                ..nav
            },
            None => nav,
        },
    }
}

/// The state after the selection went up in the current view.
pub open spec fn after_up(nav: Navigation) -> Navigation {
    match nav.state {
        AppState::Home => nav,
        AppState::Apps => Navigation {
            app_selection: moved_up(nav.app_selection as nat) as usize,
            ..nav
        },
        AppState::RecentFiles => match nav.recent_selection {
            Some(selected) => Navigation {
                recent_selection: Some(moved_up(selected as nat) as usize),
                ..nav
            },
            None => nav,
        },
        AppState::Settings => match nav.settings_selection {
            Some(selected) => Navigation {
                settings_selection: Some(moved_up(selected as nat) as usize),
                ..nav
            },
            None => nav,
        },
    }
}

/// What choosing the selected item of the current list asks for.
pub open spec fn chosen(nav: Navigation, app_count: nat, recent_count: nat) -> Action {
    match nav.state {
        AppState::Apps => if nav.app_selection < app_count {
            Action::LaunchApp(nav.app_selection)
        } else {
            Action::Nothing
        },
        AppState::RecentFiles => match nav.recent_selection {
            Some(selected) => if selected < recent_count {
                Action::OpenRecent(selected)
            } else {
                Action::Nothing
            },
            None => Action::Nothing,
        },
        _ => Action::Nothing,
    }
}

/// The state after a key, and what the key asks for, with `app_count`
/// applications in the menu and `recent_count` recent files.
///
/// `q` and `Q` end the application, and so does Esc in the home view; in
/// another view Esc and `h` lead home. `a`, `r` and `s` open the views.
/// `j` and Down, `k` and Up move the selection. `l` and Enter choose the
/// selected item; Enter in the home view starts a terminal, and `n` there
/// makes a new file.
pub open spec fn step(nav: Navigation, key: Key, app_count: nat, recent_count: nat) -> (
    Navigation,
    Action,
) {
    match key {
        Key::Char('q') | Key::Char('Q') => (Navigation { should_quit: true, ..nav }, Action::Nothing),
        Key::Esc => if nav.state == AppState::Home {
            (Navigation { should_quit: true, ..nav }, Action::Nothing)
        } else {
            (Navigation { state: AppState::Home, ..nav }, Action::Nothing)
        },
        Key::Char('a') => (
            Navigation {
                state: AppState::Apps,
                app_selection: middle(app_count) as usize,
                ..nav
            },
            Action::Nothing,
        ),
        Key::Char('r') => (
            Navigation {
                state: AppState::RecentFiles,
                recent_selection: first_of(recent_count),
                ..nav
            },
            Action::Nothing,
        ),
        Key::Char('s') => (
            Navigation { state: AppState::Settings, settings_selection: Some(0usize), ..nav },
            Action::Nothing,
        ),
        Key::Char('h') => (Navigation { state: AppState::Home, ..nav }, Action::Nothing),
        Key::Char('j') | Key::Down => (after_down(nav, app_count, recent_count), Action::Nothing),
        Key::Char('k') | Key::Up => (after_up(nav), Action::Nothing),
        Key::Char('l') => (nav, chosen(nav, app_count, recent_count)),
        Key::Enter => if nav.state == AppState::Home {
            (nav, Action::LaunchTerminal)
        } else {
            (nav, chosen(nav, app_count, recent_count))
        },
        Key::Char('n') => if nav.state == AppState::Home {
            (nav, Action::NewFile)
        } else {
            (nav, Action::Nothing)
        },
        _ => (nav, Action::Nothing),
    }
}

/// Every selection names an item of its list: the menu's selection is 0
/// where the menu is empty.
pub open spec fn in_range(nav: Navigation, app_count: nat, recent_count: nat) -> bool {
    &&& nav.app_selection < app_count || nav.app_selection == 0
    &&& nav.recent_selection matches Some(selected) ==> selected < recent_count
    &&& nav.settings_selection matches Some(selected) ==> selected < SETTINGS_ROWS
}

impl Navigation {
    /// The state at the start: the home view, the menu's middle item
    /// selected, and the first recent file and the first setting.
    pub fn new(app_count: usize, recent_count: usize) -> (nav: Self)
        ensures
            nav.state == AppState::Home,
            nav.app_selection == middle(app_count as nat),
            nav.recent_selection == first_of(recent_count as nat),
            nav.settings_selection == Some(0usize),
            !nav.should_quit,
            in_range(nav, app_count as nat, recent_count as nat),
    {
        Self {
            state: AppState::Home,
            app_selection: middle_of(app_count),
            recent_selection: if recent_count > 0 {
                Some(0)
            } else {
                None
            },
            settings_selection: Some(0),
            should_quit: false,
        }
    }

    /// Moves the selection of the current view one item down.
    fn move_down(&mut self, app_count: usize, recent_count: usize)
        ensures
            *final(self) == after_down(*old(self), app_count as nat, recent_count as nat),
    {
        match self.state {
            AppState::Home => {},
            AppState::Apps => {
                self.app_selection = down(self.app_selection, app_count);
            },
            AppState::RecentFiles => {
                if let Some(selected) = self.recent_selection {
                    self.recent_selection = Some(down(selected, recent_count));
                }
            },
            AppState::Settings => {
                if let Some(selected) = self.settings_selection {
                    self.settings_selection = Some(down(selected, SETTINGS_ROWS));
                }
            },
        }
    }

    /// Moves the selection of the current view one item up.
    fn move_up(&mut self)
        ensures
            *final(self) == after_up(*old(self)),
    {
        match self.state {
            AppState::Home => {},
            AppState::Apps => {
                self.app_selection = up(self.app_selection);
            },
            AppState::RecentFiles => {
                if let Some(selected) = self.recent_selection {
                    self.recent_selection = Some(up(selected));
                }
            },
            AppState::Settings => {
                if let Some(selected) = self.settings_selection {
                    self.settings_selection = Some(up(selected));
                }
            },
        }
    }

    /// What choosing the selected item of the current list asks for.
    fn select(&self, app_count: usize, recent_count: usize) -> (action: Action)
        ensures
            action == chosen(*self, app_count as nat, recent_count as nat),
    {
        match self.state {
            AppState::Apps => {
                if self.app_selection < app_count {
                    Action::LaunchApp(self.app_selection)
                } else {
                    Action::Nothing
                }
            },
            AppState::RecentFiles => match self.recent_selection {
                Some(selected) => {
                    if selected < recent_count {
                        Action::OpenRecent(selected)
                    } else {
                        Action::Nothing
                    }
                },
                None => Action::Nothing,
            },
            _ => Action::Nothing,
        }
    }

    /// Takes a key: changes the state and says what the key asks for.
    pub fn handle_key(&mut self, key: Key, app_count: usize, recent_count: usize) -> (action:
        Action)
        ensures
            (*final(self), action) == step(
                *old(self),
                key,
                app_count as nat,
                recent_count as nat,
            ),
    {
        match key {
            Key::Char(c) => {
                if c == 'q' || c == 'Q' {
                    self.should_quit = true;
                } else if c == 'a' {
                    self.state = AppState::Apps;
                    self.app_selection = middle_of(app_count);
                } else if c == 'r' {
                    self.state = AppState::RecentFiles;
                    self.recent_selection = if recent_count > 0 {
                        Some(0)
                    } else {
                        None
                    };
                } else if c == 's' {
                    self.state = AppState::Settings;
                    self.settings_selection = Some(0);
                } else if c == 'h' {
                    self.state = AppState::Home;
                } else if c == 'j' {
                    self.move_down(app_count, recent_count);
                } else if c == 'k' {
                    self.move_up();
                } else if c == 'l' {
                    return self.select(app_count, recent_count);
                } else if c == 'n' {
                    if self.state == AppState::Home {
                        return Action::NewFile;
                    }
                }
                Action::Nothing
            },
            Key::Esc => {
                if self.state == AppState::Home {
                    self.should_quit = true;
                } else {
                    self.state = AppState::Home;
                }
                Action::Nothing
            },
            Key::Enter => {
                if self.state == AppState::Home {
                    Action::LaunchTerminal
                } else {
                    self.select(app_count, recent_count)
                }
            },
            Key::Up => {
                self.move_up();
                Action::Nothing
            },
            Key::Down => {
                self.move_down(app_count, recent_count);
                Action::Nothing
            },
            Key::Other => Action::Nothing,
        }
    }
}

/// The item in the middle of a list of `count` items.
pub fn middle_of(count: usize) -> (index: usize)
    ensures
        index == middle(count as nat),
{
    if count == 0 {
        0
    } else {
        (count - 1) / 2
    }
}

/// The selection one item further down a list of `count` items.
fn down(selected: usize, count: usize) -> (next: usize)
    ensures
        next == moved_down(selected as nat, count as nat),
{
    if count > 0 && selected < count - 1 {
        selected + 1
    } else {
        selected
    }
}

/// The selection one item further up.
fn up(selected: usize) -> (next: usize)
    ensures
        next == moved_up(selected as nat),
{
    if selected > 0 {
        selected - 1
    } else {
        selected
    }
}

/// Once the application is to end, no key takes that back.
pub proof fn lemma_quit_is_final(nav: Navigation, key: Key, app_count: nat, recent_count: nat)
    requires
        nav.should_quit,
    ensures
        step(nav, key, app_count, recent_count).0.should_quit,
{
}

/// Only `q`, `Q` and Esc in the home view end the application.
pub proof fn lemma_quit_keys(nav: Navigation, key: Key, app_count: nat, recent_count: nat)
    requires
        !nav.should_quit,
    ensures
        step(nav, key, app_count, recent_count).0.should_quit <==> (key == Key::Char('q') || key
            == Key::Char('Q') || (key == Key::Esc && nav.state == AppState::Home)),
{
}

/// Selections that name items of their lists still do after any key, as
/// long as the lists keep their lengths.
pub proof fn lemma_selection_stays_in_range(
    nav: Navigation,
    key: Key,
    app_count: nat,
    recent_count: nat,
)
    requires
        in_range(nav, app_count, recent_count),
        app_count <= usize::MAX,
        recent_count <= usize::MAX,
    ensures
        in_range(step(nav, key, app_count, recent_count).0, app_count, recent_count),
{
}

/// An action names an item that its list has.
pub proof fn lemma_action_names_an_item(
    nav: Navigation,
    key: Key,
    app_count: nat,
    recent_count: nat,
)
    ensures
        match step(nav, key, app_count, recent_count).1 {
            Action::LaunchApp(index) => index < app_count && index == nav.app_selection,
            Action::OpenRecent(index) => index < recent_count && nav.recent_selection == Some(
                index,
            ),
            _ => true,
        },
{
}

/// A key that asks for an action leaves the state as it is.
pub proof fn lemma_action_keeps_state(
    nav: Navigation,
    key: Key,
    app_count: nat,
    recent_count: nat,
)
    requires
        step(nav, key, app_count, recent_count).1 != Action::Nothing,
    ensures
        step(nav, key, app_count, recent_count).0 == nav,
{
}

} // verus!
