//! The pages of the bundled applications: their identifiers, their dispatcher enums,
//! and what each page decides on a key press.
use crate::router::RouterAction;
use vstd::prelude::*;

verus! {

/// A key press, as far as the pages tell keys apart.
#[derive(Clone, Copy, Debug, PartialEq, Eq)]
pub enum KeyPress {
    Up,
    Down,
    PageUp,
    PageDown,
    Enter,
    Esc,
    Char(char),
    Other,
}

/// The context shared by every page of the template application.
#[derive(Debug)]
pub struct GlobalState {}

impl Default for GlobalState {
    fn default() -> (r: Self)
        ensures
            r == (GlobalState {}),
    {
        GlobalState {}
    }
}

/// The template's one page: `Esc` exits; any key asks for a redraw.
#[derive(Clone, Copy, Debug, PartialEq, Eq)]
pub struct HomeScreen;

impl Default for HomeScreen {
    fn default() -> (r: Self)
        ensures
            r == HomeScreen,
    {
        HomeScreen
    }
}

/// The commands that the template's page emits for an input event (`None`: not a key).
pub open spec fn home_actions(key: Option<KeyPress>) -> Seq<RouterAction<AppPageId>> {
    match key {
        None => seq![],
        Some(KeyPress::Esc) => seq![RouterAction::EXIT, RouterAction::REDRAW],
        Some(_) => seq![RouterAction::REDRAW],
    }
}

impl HomeScreen {
    /// The commands to emit for an input event, in emission order.
    pub fn on_key(&self, key: Option<KeyPress>) -> (r: Vec<RouterAction<AppPageId>>)
        ensures
            r@ == home_actions(key),
    {
        match key {
            None => Vec::new(),
            Some(KeyPress::Esc) => vec![RouterAction::EXIT, RouterAction::REDRAW],
            Some(_) => vec![RouterAction::REDRAW],
        }
    }
}

/// Identifiers of the template's pages.
#[derive(Clone, Copy, Debug, PartialEq, Eq, Hash)]
pub enum AppPageId {
    Home,
}

/// The template's dispatcher: which page is active, with its state.
#[derive(Debug)]
pub enum AppPages {
    Home(HomeScreen),
}

impl Default for AppPages {
    fn default() -> (r: Self)
        ensures
            r == AppPages::Home(HomeScreen),
    {
        AppPages::Home(HomeScreen::default())
    }
}

impl AppPages {
    /// The page for an identifier, default-constructed.
    pub fn new(id: AppPageId) -> (r: Self)
        ensures
            r.id() == id,
    {
        match id {
            AppPageId::Home => AppPages::Home(HomeScreen::default()),
        }
    }

    pub open spec fn id(&self) -> AppPageId {
        match self {
            AppPages::Home(_) => AppPageId::Home,
        }
    }

    /// The identifier of the active page.
    pub fn page_id(&self) -> (r: AppPageId)
        ensures
            r == self.id(),
    {
        match self {
            AppPages::Home(_) => AppPageId::Home,
        }
    }
}

/// Identifiers of the demo application's pages.
#[derive(Clone, Copy, Debug, PartialEq, Eq, Hash)]
pub enum DemoPageId {
    Home,
    List,
}

/// The demo's home page: a counter moved with the arrows.
#[derive(Clone, Copy, Debug, PartialEq, Eq)]
pub struct CounterScreen {
    pub counter: u32,
}

impl Default for CounterScreen {
    fn default() -> (r: Self)
        ensures
            r.counter == 0,
    {
        CounterScreen { counter: 0 }
    }
}

/// The counter after a key: up adds one and down takes one, both saturating.
pub open spec fn counter_after(c: u32, key: Option<KeyPress>) -> u32 {
    match key {
        Some(KeyPress::Up) => if c == u32::MAX { c } else { (c + 1) as u32 },
        Some(KeyPress::Down) => if c == 0 { c } else { (c - 1) as u32 },
        _ => c,
    }
}

/// The commands that the demo's home page emits: `Enter` opens the list, `q` exits,
/// and any key asks for a redraw.
pub open spec fn counter_actions(key: Option<KeyPress>) -> Seq<RouterAction<DemoPageId>> {
    match key {
        None => seq![],
        Some(KeyPress::Enter) => seq![RouterAction::PUSH(DemoPageId::List), RouterAction::REDRAW],
        Some(KeyPress::Char('q')) => seq![RouterAction::EXIT, RouterAction::REDRAW],
        Some(_) => seq![RouterAction::REDRAW],
    }
}

impl CounterScreen {
    /// Handles an input event (`None`: not a key) and returns the commands to emit.
    pub fn on_key(&mut self, key: Option<KeyPress>) -> (r: Vec<RouterAction<DemoPageId>>)
        ensures
            final(self).counter == counter_after(old(self).counter, key),
            r@ == counter_actions(key),
    {
        match key {
            None => Vec::new(),
            Some(KeyPress::Up) => {
                self.counter = self.counter.saturating_add(1);
                vec![RouterAction::REDRAW]
            },
            Some(KeyPress::Down) => {
                self.counter = self.counter.saturating_sub(1);
                vec![RouterAction::REDRAW]
            },
            Some(KeyPress::Enter) => vec![RouterAction::PUSH(DemoPageId::List), RouterAction::REDRAW],
            Some(KeyPress::Char('q')) => vec![RouterAction::EXIT, RouterAction::REDRAW],
            Some(_) => vec![RouterAction::REDRAW],
        }
    }
}

/// A move of the selection in the demo's list.
#[derive(Clone, Copy, Debug, PartialEq, Eq)]
pub enum ListMove {
    Previous,
    Next,
    First,
    Last,
}

/// The selection move for a key on the demo's list page.
pub open spec fn list_move(key: Option<KeyPress>) -> Option<ListMove> {
    match key {
        Some(KeyPress::Up) => Some(ListMove::Previous),
        Some(KeyPress::Down) => Some(ListMove::Next),
        Some(KeyPress::PageUp) => Some(ListMove::First),
        Some(KeyPress::PageDown) => Some(ListMove::Last),
        _ => None,
    }
}

/// The commands that the demo's list page emits: `Enter` goes back, `q` exits, and any
/// key asks for a redraw.
pub open spec fn list_actions(key: Option<KeyPress>) -> Seq<RouterAction<DemoPageId>> {
    match key {
        None => seq![],
        Some(KeyPress::Enter) => seq![RouterAction::BACK, RouterAction::REDRAW],
        Some(KeyPress::Char('q')) => seq![RouterAction::EXIT, RouterAction::REDRAW],
        Some(_) => seq![RouterAction::REDRAW],
    }
}

/// The demo's list page's response to an input event (`None`: not a key): how the
/// selection moves, and the commands to emit.
pub fn list_response(key: Option<KeyPress>) -> (r: (Option<ListMove>, Vec<RouterAction<DemoPageId>>))
    ensures
        r.0 == list_move(key),
        r.1@ == list_actions(key),
{
    match key {
        None => (None, Vec::new()),
        Some(KeyPress::Up) => (Some(ListMove::Previous), vec![RouterAction::REDRAW]),
        Some(KeyPress::Down) => (Some(ListMove::Next), vec![RouterAction::REDRAW]),
        Some(KeyPress::PageUp) => (Some(ListMove::First), vec![RouterAction::REDRAW]),
        Some(KeyPress::PageDown) => (Some(ListMove::Last), vec![RouterAction::REDRAW]),
        Some(KeyPress::Enter) => (None, vec![RouterAction::BACK, RouterAction::REDRAW]),
        Some(KeyPress::Char('q')) => (None, vec![RouterAction::EXIT, RouterAction::REDRAW]),
        Some(_) => (None, vec![RouterAction::REDRAW]),
    }
}

} // verus!
