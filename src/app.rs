use vstd::prelude::*;

use crate::anime_list::{seed_catalog, AnimeItem, AnimeList, CatalogView, ItemView, Status};
use crate::input::{mode_text, InputMode, Key, KeyEvent, KeyKind};

verus! {

/// The whole state of the browser between two key events.
pub struct App {
    pub should_exit: bool,
    pub anime_list: AnimeList,
    pub input: String,
    pub mode: InputMode,
}

/// The browser's state as plain values.
pub struct AppView {
    pub should_exit: bool,
    pub catalog: CatalogView,
    pub input: Seq<char>,
    pub mode: InputMode,
}

impl View for App {
    type V = AppView;

    open spec fn view(&self) -> AppView {
        AppView {
            should_exit: self.should_exit,
            catalog: self.anime_list@,
            input: self.input@,
            mode: self.mode,
        }
    }
}

/// What the image pane must do after an event: keep what it shows, show the
/// named picture, or show none.
pub enum ImageUpdate {
    Keep,
    Bind(String),
    Clear,
}

/// `None` for `Keep`; else the picture to show, if any.
pub open spec fn update_target(u: ImageUpdate) -> Option<Option<Seq<char>>> {
    match u {
        ImageUpdate::Keep => None,
        ImageUpdate::Bind(p) => Some(Some(p@)),
        ImageUpdate::Clear => Some(None),
    }
}

/// The item that a committed text becomes: that name, no description, no
/// picture, ongoing.
pub open spec fn new_item(name: Seq<char>) -> ItemView {
    ItemView { name, image: None, description: Seq::empty(), status: Status::Ongoing }
}

/// A key pressed while keys are read as commands.
pub open spec fn normal_step(v: AppView, code: Key) -> AppView {
    match code {
        Key::Char('q') | Key::Esc => AppView { should_exit: true, ..v },
        Key::Char('i') => AppView { mode: InputMode::Insert, ..v },
        Key::Down => AppView { catalog: v.catalog.after_next(), ..v },
        Key::Up => AppView { catalog: v.catalog.after_previous(), ..v },
        _ => v,
    }
}

/// A key pressed while keys are read as text.
pub open spec fn insert_step(v: AppView, code: Key) -> AppView {
    match code {
        Key::Char(c) => AppView { input: v.input.push(c), ..v },
        Key::Backspace => AppView {
            input: if v.input.len() == 0 { v.input } else { v.input.drop_last() },
            ..v
        },
        Key::Esc => AppView { input: Seq::empty(), mode: InputMode::Normal, ..v },
        Key::Enter => AppView {
            catalog: v.catalog.appended(new_item(v.input)),
            input: Seq::empty(),
            mode: InputMode::Normal,
            ..v
        },
        _ => v,
    }
}

/// The state after a key event: events other than presses change nothing;
/// a press is read according to the mode.
pub open spec fn handled(v: AppView, key: KeyEvent) -> AppView {
    if key.kind != KeyKind::Press {
        v
    } else {
        match v.mode {
            InputMode::Normal => normal_step(v, key.code),
            InputMode::Insert => insert_step(v, key.code),
        }
    }
}

/// Enter while keys are read as text adds an item named after the buffer,
/// with no description and the default status, at the end of the catalog;
/// then the buffer is empty and keys are read as commands again.
pub proof fn lemma_enter_commits(v: AppView, key: KeyEvent)
    requires
        v.mode == InputMode::Insert,
        key.kind == KeyKind::Press,
        key.code == Key::Enter,
    ensures
        handled(v, key).catalog.items == v.catalog.items.push(new_item(v.input)),
        handled(v, key).catalog.selected == v.catalog.selected,
        handled(v, key).input == Seq::<char>::empty(),
        handled(v, key).mode == InputMode::Normal,
        handled(v, key).should_exit == v.should_exit,
{
}

/// Escape while keys are read as text drops the buffer and returns to
/// commands; the catalog and its selection stay as they were.
pub proof fn lemma_escape_abandons(v: AppView, key: KeyEvent)
    requires
        v.mode == InputMode::Insert,
        key.kind == KeyKind::Press,
        key.code == Key::Esc,
    ensures
        handled(v, key).catalog == v.catalog,
        handled(v, key).input == Seq::<char>::empty(),
        handled(v, key).mode == InputMode::Normal,
        handled(v, key).should_exit == v.should_exit,
{
}

/// A key event that is not a press changes nothing, in either mode.
pub proof fn lemma_non_press_inert(v: AppView, key: KeyEvent)
    requires
        key.kind != KeyKind::Press,
    ensures
        handled(v, key) == v,
{
}

/// Only a press of Up or Down while keys are read as commands can move the
/// selection; after any other event the image pane is not bound anew.
pub proof fn lemma_only_arrows_move(v: AppView, key: KeyEvent)
    requires
        !(key.kind == KeyKind::Press && v.mode == InputMode::Normal && (key.code == Key::Up
            || key.code == Key::Down)),
    ensures
        handled(v, key).catalog.selected == v.catalog.selected,
{
}

/// The starting state: running, the built-in catalog, an empty buffer, commands.
pub open spec fn initial_view() -> AppView {
    AppView {
        should_exit: false,
        catalog: seed_catalog(),
        input: Seq::empty(),
        mode: InputMode::Normal,
    }
}

impl Default for App {
    /// The starting state: running, the built-in catalog, an empty buffer, commands.
    fn default() -> (r: App)
        ensures
            r@ == initial_view(),
            r.wf(),
    {
        App {
            should_exit: false,
            anime_list: AnimeList::default(),
            input: String::new(),
            mode: InputMode::Normal,
        }
    }
}

impl App {
    /// The selection cursor points into the catalog, or nowhere.
    pub open spec fn wf(&self) -> bool {
        self.anime_list.wf()
    }

    /// Applies one key event to the state.
    pub fn handle_key(&mut self, key: KeyEvent)
        requires
            old(self).wf(),
        ensures
            final(self)@ == handled(old(self)@, key),
            final(self).wf(),
    {
        match key.kind {
            KeyKind::Press => {},
            _ => {
                return;
            },
        }
        match self.mode {
            InputMode::Normal => self.handle_normal_mode(key),
            InputMode::Insert => self.handle_insert_mode(key),
        }
    }

    fn handle_normal_mode(&mut self, key: KeyEvent)
        requires
            old(self).wf(),
        ensures
            final(self)@ == normal_step(old(self)@, key.code),
            final(self).wf(),
    {
        match key.code {
            Key::Char('q') | Key::Esc => self.should_exit = true,
            Key::Char('i') => self.mode = InputMode::Insert,
            Key::Down => self.anime_list.select_next(),
            Key::Up => self.anime_list.select_previous(),
            _ => {},
        }
    }

    fn handle_insert_mode(&mut self, key: KeyEvent)
        requires
            old(self).wf(),
        ensures
            final(self)@ == insert_step(old(self)@, key.code),
            final(self).wf(),
    {
        match key.code {
            Key::Char(c) => self.input.push(c),
            Key::Backspace => {
                self.input.pop();
            },
            Key::Esc => {
                self.input = String::new();
                self.mode = InputMode::Normal;
            },
            Key::Enter => {
                let name = self.input.clone();
                self.anime_list.add_item(
                    AnimeItem {
                        name,
                        image: None,
                        description: String::new(),
                        status: Status::Ongoing,
                    },
                );
                self.input = String::new();
                self.mode = InputMode::Normal;
            },
            _ => {},
        }
    }

    /// What the image pane must show now: the selected item's picture, or none.
    pub fn update_image(&self) -> (r: ImageUpdate)
        requires
            self.wf(),
        ensures
            update_target(r) == Some(self@.catalog.selected_picture()),
    {
        match self.anime_list.selected_image() {
            Some(p) => ImageUpdate::Bind(p.clone()),
            None => ImageUpdate::Clear,
        }
    }

    /// Applies one key event, and says whether the image pane must be bound
    /// anew: only when the selection moved, and then to the new selection's
    /// picture.
    pub fn step(&mut self, key: KeyEvent) -> (r: ImageUpdate)
        requires
            old(self).wf(),
        ensures
            final(self)@ == handled(old(self)@, key),
            final(self).wf(),
            update_target(r) == if final(self)@.catalog.selected == old(self)@.catalog.selected {
                None
            } else {
                Some(final(self)@.catalog.selected_picture())
            },
    {
        let before = self.anime_list.selected();
        self.handle_key(key);
        let after = self.anime_list.selected();
        let same = match (before, after) {
            (None, None) => true,
            (Some(a), Some(b)) => a == b,
            _ => false,
        };
        if same {
            ImageUpdate::Keep
        } else {
            self.update_image()
        }
    }

    /// The title of the input pane, naming the current mode.
    pub fn input_title(&self) -> (r: String)
        ensures
            r@ == "Search ["@ + mode_text(self.mode) + "]"@,
    {
        String::from_str("Search [").concat(self.mode.indicator()).concat("]")
    }
}

} // verus!
