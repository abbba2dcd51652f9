//! What each key does to the session.
//!
//! A key changes cursors, focus, text being typed and the pending action.
//! Where it calls for the player or for the settings to be stored, the
//! handler says so in the effect it returns.

use crate::config::DEFAULT_RESULTS_PER_PAGE;
use crate::player_manager::{Dispatch, Link, PlayerManager, PlayerView, Request, RequestView, clamp_volume, MAX_VOLUME};
use crate::text::{
    char_is_digit, decimal, decimal_string, is_digit, parse_unsigned, parse_usize, pop_char,
    push_char,
};
use crate::config::Config;
use crate::queue::QueueView;
use crate::search::watch_url_of;
use crate::ui::app::{
    next_step, page_end, page_start, start_request, ActionView, App, AppAction, Effect,
    FocusedPanel, InputMode, SettingsField,
};
use vstd::prelude::*;

verus! {

/// A key of the keyboard.
#[derive(Debug, Clone, Copy, PartialEq, Eq, Structural)]
pub enum KeyCode {
    Backspace,
    Enter,
    Left,
    Right,
    Up,
    Down,
    Tab,
    BackTab,
    Delete,
    Esc,
    /// A function key, by its number.
    F(u8),
    /// A key that types a character.
    Char(char),
    /// Any other key.
    Other,
}

/// The modifier keys held down with a key.
#[derive(Debug, Clone, Copy, PartialEq, Eq, Structural)]
pub struct KeyModifiers {
    pub shift: bool,
    pub control: bool,
    pub alt: bool,
    /// Any modifier besides these three.
    pub other: bool,
}

impl KeyModifiers {
    /// No modifier.
    pub fn none() -> (r: Self)
        ensures
            r == (KeyModifiers { shift: false, control: false, alt: false, other: false }),
    {
        KeyModifiers { shift: false, control: false, alt: false, other: false }
    }

    /// Control alone.
    pub fn control() -> (r: Self)
        ensures
            r == (KeyModifiers { shift: false, control: true, alt: false, other: false }),
    {
        KeyModifiers { shift: false, control: true, alt: false, other: false }
    }

    /// Shift alone.
    pub fn shift() -> (r: Self)
        ensures
            r == (KeyModifiers { shift: true, control: false, alt: false, other: false }),
    {
        KeyModifiers { shift: true, control: false, alt: false, other: false }
    }

    /// Whether control is held, and nothing else.
    pub open spec fn is_control(self) -> bool {
        self.control && !self.shift && !self.alt && !self.other
    }
}

/// A key press.
#[derive(Debug, Clone, Copy, PartialEq, Eq, Structural)]
pub struct KeyEvent {
    pub code: KeyCode,
    pub modifiers: KeyModifiers,
}

impl KeyEvent {
    /// The key `code` pressed with `modifiers` held.
    pub fn new(code: KeyCode, modifiers: KeyModifiers) -> (r: Self)
        ensures
            r == (KeyEvent { code, modifiers }),
    {
        KeyEvent { code, modifiers }
    }
}

impl From<KeyCode> for KeyEvent {
    fn from(code: KeyCode) -> (r: Self) {
        KeyEvent { code, modifiers: KeyModifiers::none() }
    }
}

impl vstd::std_specs::convert::FromSpecImpl<KeyCode> for KeyEvent {
    open spec fn obeys_from_spec() -> bool {
        true
    }

    open spec fn from_spec(code: KeyCode) -> Self {
        KeyEvent {
            code,
            modifiers: KeyModifiers { shift: false, control: false, alt: false, other: false },
        }
    }
}

/// The panel after `panel` in the order search bar, results, queue.
pub open spec fn panel_after(panel: FocusedPanel) -> FocusedPanel {
    match panel {
        FocusedPanel::SearchBar => FocusedPanel::Results,
        FocusedPanel::Results => FocusedPanel::Queue,
        FocusedPanel::Queue => FocusedPanel::SearchBar,
    }
}

/// The panel before `panel` in that order.
pub open spec fn panel_before(panel: FocusedPanel) -> FocusedPanel {
    match panel {
        FocusedPanel::SearchBar => FocusedPanel::Queue,
        FocusedPanel::Queue => FocusedPanel::Results,
        FocusedPanel::Results => FocusedPanel::SearchBar,
    }
}

/// Going round the panels one way and back the other way ends where it
/// began, and three steps the same way do too.
pub proof fn lemma_focus_cycle(panel: FocusedPanel)
    ensures
        panel_before(panel_after(panel)) == panel,
        panel_after(panel_before(panel)) == panel,
        panel_after(panel_after(panel_after(panel))) == panel,
        panel_before(panel_before(panel_before(panel))) == panel,
        panel_after(panel) != panel,
{
}

/// Moves the focus to the next panel.
pub fn cycle_focus_forward(app: &mut App)
    ensures
        *final(app) == (App { focused_panel: panel_after(old(app).focused_panel), ..*old(app) }),
{
    app.focused_panel =
    match app.focused_panel {
        FocusedPanel::SearchBar => FocusedPanel::Results,
        FocusedPanel::Results => FocusedPanel::Queue,
        FocusedPanel::Queue => FocusedPanel::SearchBar,
    };
}

/// Moves the focus to the panel before.
pub fn cycle_focus_backward(app: &mut App)
    ensures
        *final(app) == (App { focused_panel: panel_before(old(app).focused_panel), ..*old(app) }),
{
    app.focused_panel =
    match app.focused_panel {
        FocusedPanel::SearchBar => FocusedPanel::Queue,
        FocusedPanel::Queue => FocusedPanel::Results,
        FocusedPanel::Results => FocusedPanel::SearchBar,
    };
}

/// Whether `code` closes the help.
pub open spec fn closes_help(code: KeyCode) -> bool {
    code == KeyCode::Esc || code == KeyCode::Char('h') || code == KeyCode::Char('q')
}

/// The keys of the help: Esc, `h` and `q` go back to browsing.
pub fn handle_help_keys(app: &mut App, key: KeyEvent)
    ensures
        *final(app) == (App {
            input_mode: if closes_help(key.code) {
                InputMode::Browse
            } else {
                old(app).input_mode
            },
            ..*old(app)
        }),
{
    match key.code {
        KeyCode::Esc => {
            app.input_mode = InputMode::Browse;
        },
        KeyCode::Char(c) => {
            if c == 'h' || c == 'q' {
                app.input_mode = InputMode::Browse;
            }
        },
        _ => {},
    }
}

/// What a key of the search bar does: a character is typed, Backspace takes
/// the last one back, Esc gives up, and Enter on a query that is not empty
/// makes it the session's query and asks for the search.
pub open spec fn search_bar_step(pre: App, key: KeyEvent, post: App) -> bool {
    match key.code {
        KeyCode::Char(c) => post == (App { search_input: post.search_input, ..pre })
            && post.search_input@ == pre.search_input@.push(c),
        KeyCode::Backspace => post == (App { search_input: post.search_input, ..pre })
            && post.search_input@ == (if pre.search_input@.len() > 0 {
            pre.search_input@.drop_last()
        } else {
            pre.search_input@
        }),
        KeyCode::Enter => if pre.search_input@.len() > 0 {
            &&& post == (App {
                query: post.query,
                loading: true,
                pending_action: post.pending_action,
                search_input: post.search_input,
                focused_panel: FocusedPanel::Results,
                ..pre
            })
            &&& post.query@ == pre.search_input@
            &&& post.pending_action@ == ActionView::NewSearch(pre.search_input@)
            &&& post.search_input@.len() == 0
        } else {
            post == pre
        },
        KeyCode::Esc => post == (App {
            search_input: post.search_input,
            focused_panel: FocusedPanel::Results,
            ..pre
        }) && post.search_input@.len() == 0,
        _ => post == pre,
    }
}

/// The keys of the search bar.
pub fn handle_search_bar_keys(app: &mut App, key: KeyEvent)
    ensures
        search_bar_step(*old(app), key, *final(app)),
{
    match key.code {
        KeyCode::Char(c) => {
            push_char(&mut app.search_input, c);
        },
        KeyCode::Backspace => {
            pop_char(&mut app.search_input);
        },
        KeyCode::Enter => {
            if !app.search_input.as_str().is_empty() {
                app.query = app.search_input.clone();
                app.loading = true;
                app.pending_action = AppAction::NewSearch(app.search_input.clone());
                app.search_input = String::new();
                app.focused_panel = FocusedPanel::Results;
            }
        },
        KeyCode::Esc => {
            app.search_input = String::new();
            app.focused_panel = FocusedPanel::Results;
        },
        _ => {},
    }
}

/// The number of results on the page shown.
pub open spec fn shown(app: App) -> int {
    page_end(app.page as int, app.page_size as int, app.results@.len() as int) - page_start(
        app.page as int,
        app.page_size as int,
        app.results@.len() as int,
    )
}

/// Whether there is a page after the one shown.
pub open spec fn has_next(app: App) -> bool {
    (app.page + 1) * app.page_size < app.results@.len() || !app.exhausted
}

/// The result that Enter picks: the one whose number was typed, counted
/// from one, or the selected row of the page shown. `None` where there is no
/// such result.
pub open spec fn picked(app: App) -> Option<usize> {
    if app.number_input@.len() > 0 {
        match parse_unsigned(app.number_input@, usize::MAX as nat) {
            Some(n) if 0 < n <= app.results@.len() => Some((n - 1) as usize),
            _ => None,
        }
    } else if app.page * app.page_size + app.selected_index < app.results@.len() {
        Some((app.page * app.page_size + app.selected_index) as usize)
    } else {
        None
    }
}

/// What a key of the results does.
pub open spec fn results_step(pre: App, key: KeyEvent, post: App) -> bool {
    match key.code {
        KeyCode::Up => post == (App {
            selected_index: if pre.selected_index > 0 {
                (pre.selected_index - 1) as usize
            } else {
                pre.selected_index
            },
            ..pre
        }),
        KeyCode::Down => post == (App {
            selected_index: if pre.selected_index + 1 < shown(pre) {
                (pre.selected_index + 1) as usize
            } else {
                pre.selected_index
            },
            ..pre
        }),
        KeyCode::Char(c) => if c == 'n' && has_next(pre) && pre.page < usize::MAX {
            post == (App {
                page: (pre.page + 1) as usize,
                selected_index: 0,
                pending_action: post.pending_action,
                ..pre
            }) && (if (pre.page + 2) * pre.page_size > pre.results@.len() && !pre.exhausted {
                post.pending_action@ == ActionView::FetchNextPage
            } else {
                post.pending_action == pre.pending_action
            })
        } else if c == 'p' && pre.page > 0 {
            post == (App { page: (pre.page - 1) as usize, selected_index: 0, ..pre })
        } else if c == 'h' {
            post == (App { input_mode: InputMode::Help, ..pre })
        } else if c == 's' {
            post == (App { focused_panel: FocusedPanel::SearchBar, ..pre })
        } else if is_digit(c) {
            post == (App { number_input: post.number_input, ..pre }) && post.number_input@
                == pre.number_input@.push(c)
        } else {
            post == pre
        },
        KeyCode::Enter => {
            &&& post == (App {
                number_input: post.number_input,
                pending_action: post.pending_action,
                ..pre
            })
            &&& post.number_input@.len() == 0
            &&& match picked(pre) {
                Some(index) => post.pending_action@ == ActionView::Play(index),
                None => post.pending_action == pre.pending_action,
            }
        },
        KeyCode::Backspace => post == (App { number_input: post.number_input, ..pre })
            && post.number_input@ == (if pre.number_input@.len() > 0 {
            pre.number_input@.drop_last()
        } else {
            pre.number_input@
        }),
        _ => post == pre,
    }
}

/// The keys of the results: the arrows move the selection within the page,
/// `n` and `p` turn the page, digits pick a result by number, Enter asks for
/// the picked result to be played.
pub fn handle_results_keys(app: &mut App, key: KeyEvent)
    ensures
        results_step(*old(app), key, *final(app)),
{
    match key.code {
        KeyCode::Up => {
            if app.selected_index > 0 {
                app.selected_index = app.selected_index - 1;
            }
        },
        KeyCode::Down => {
            let (start, end) = app.page_bounds();
            if app.selected_index < usize::MAX && app.selected_index + 1 < end - start {
                app.selected_index = app.selected_index + 1;
            }
        },
        KeyCode::Char(c) => {
            if c == 'n' && app.has_next_page() && app.page < usize::MAX {
                app.page = app.page + 1;
                app.selected_index = 0;
                let (_, end) = app.page_bounds();
                proof {
                    let p = old(app).page as int;
                    let s = old(app).page_size as int;
                    assert((p + 1 + 1) * s == (p + 2) * s) by (nonlinear_arith);
                }
                let fits = match app.page.checked_add(1) {
                    Some(next) => match next.checked_mul(app.page_size) {
                        Some(wanted) => wanted <= app.results.len(),
                        None => false,
                    },
                    None => {
                        proof {
                            let s = old(app).page_size as int;
                            let p = old(app).page as int;
                            if s == 0 {
                                assert((p + 2) * s == 0) by (nonlinear_arith)
                                    requires
                                        s == 0,
                                ;
                            } else {
                                assert((p + 2) * s >= p + 2) by (nonlinear_arith)
                                    requires
                                        s >= 1,
                                        p >= 0,
                                ;
                            }
                        }
                        app.page_size == 0
                    },
                };
                if !fits && !app.exhausted {
                    app.pending_action = AppAction::FetchNextPage;
                }
            } else if c == 'p' && app.page > 0 {
                app.page = app.page - 1;
                app.selected_index = 0;
            } else if c == 'h' {
                app.input_mode = InputMode::Help;
            } else if c == 's' {
                app.focused_panel = FocusedPanel::SearchBar;
            } else if char_is_digit(c) {
                push_char(&mut app.number_input, c);
            }
        },
        KeyCode::Enter => {
            let picked: Option<usize> = if !app.number_input.as_str().is_empty() {
                let typed = parse_usize(app.number_input.as_str());
                app.number_input = String::new();
                let r = match typed {
                    Some(n) => if n > 0 && n <= app.results.len() {
                        Some(n - 1)
                    } else {
                        None
                    },
                    None => None,
                };
                r
            } else {
                proof {
                    let p = app.page as int;
                    let s = app.page_size as int;
                    assert(p * s >= 0) by (nonlinear_arith)
                        requires
                            p >= 0,
                            s >= 0,
                    ;
                }
                let len = app.results.len();
                let r = match app.page.checked_mul(app.page_size) {
                    Some(first) => match first.checked_add(app.selected_index) {
                        Some(index) => if index < len {
                            Some(index)
                        } else {
                            None
                        },
                        None => None,
                    },
                    None => None,
                };
                r
            };
            match picked {
                Some(index) => {
                    app.pending_action = AppAction::Play(index);
                },
                None => {},
            }
        },
        KeyCode::Backspace => {
            pop_char(&mut app.number_input);
        },
        _ => {},
    }
}

/// What a key of the queue does, and what it asks of the caller.
pub open spec fn queue_step(pre: App, key: KeyEvent, post: App, effect: Effect) -> bool {
    let cursor = pre.queue_selected_index;
    match key.code {
        KeyCode::Up => effect is Nothing && post == (App {
            queue_selected_index: if cursor > 0 {
                (cursor - 1) as usize
            } else {
                cursor
            },
            ..pre
        }),
        KeyCode::Down => effect is Nothing && post == (App {
            queue_selected_index: if cursor + 1 < pre.queue@.tracks.len() {
                (cursor + 1) as usize
            } else {
                cursor
            },
            ..pre
        }),
        KeyCode::Enter => if cursor < pre.queue@.tracks.len() {
            &&& post == (App { queue: post.queue, queue_selected_index: 0, ..pre })
            &&& post.queue@ == (if cursor > 0 {
                pre.queue@.promoted(cursor as nat)
            } else {
                pre.queue@
            })
            &&& match pre.player_manager {
                Some(pm) => {
                    &&& effect matches Effect::Send { dispatch, strict }
                    &&& !strict
                    &&& dispatch.request@ == start_request(
                        pre.queue@.tracks[cursor as int],
                        false,
                    )
                    &&& dispatch.connect_first == (pm@.link != Link::Connected)
                },
                None => effect is Nothing,
            }
        } else {
            effect is Nothing && post == pre
        },
        KeyCode::Delete | KeyCode::Backspace => {
            &&& effect is Nothing
            &&& post == (App {
                queue: post.queue,
                queue_selected_index: post.queue_selected_index,
                ..pre
            })
            &&& post.queue@ == pre.queue@.removed(cursor as nat)
            &&& post.queue_selected_index == (if cursor >= post.queue@.tracks.len() && cursor
                > 0 {
                (cursor - 1) as usize
            } else {
                cursor
            })
        },
        KeyCode::Char(c) => if c == 'c' {
            &&& effect is Nothing
            &&& post == (App { queue: post.queue, queue_selected_index: 0, ..pre })
            &&& post.queue@ == QueueView::empty()
        } else if c == 'n' && pre.player_manager is Some {
            next_step(pre, true, post, effect)
        } else if c == 'h' {
            effect is Nothing && post == (App { input_mode: InputMode::Help, ..pre })
        } else {
            effect is Nothing && post == pre
        },
        _ => effect is Nothing && post == pre,
    }
}

/// The keys of the queue: the arrows move the cursor, Enter jumps to the
/// track under it, Delete takes it out, `c` clears the queue, `n` moves on to
/// the next track.
pub fn handle_queue_keys(app: &mut App, key: KeyEvent) -> (effect: Effect)
    ensures
        queue_step(*old(app), key, *final(app), effect),
        old(app).queue.wf() ==> final(app).queue.wf(),
{
    match key.code {
        KeyCode::Up => {
            if app.queue_selected_index > 0 {
                app.queue_selected_index = app.queue_selected_index - 1;
            }
            Effect::Nothing
        },
        KeyCode::Down => {
            let len = app.queue.len();
            if app.queue_selected_index < usize::MAX && app.queue_selected_index + 1 < len {
                app.queue_selected_index = app.queue_selected_index + 1;
            }
            Effect::Nothing
        },
        KeyCode::Enter => {
            if app.queue_selected_index < app.queue.len() {
                if app.queue_selected_index > 0 {
                    app.queue.move_to_front(app.queue_selected_index);
                    app.queue_selected_index = 0;
                }
                match (&app.player_manager, app.queue.get(0)) {
                    (Some(pm), Some(track)) => {
                        let url = watch_url_of(track.id.as_str());
                        Effect::Send {
                            dispatch: pm.play(url.as_str(), track.title.as_str()),
                            strict: false,
                        }
                    },
                    _ => Effect::Nothing,
                }
            } else {
                Effect::Nothing
            }
        },
        KeyCode::Delete | KeyCode::Backspace => {
            app.queue.remove(app.queue_selected_index);
            if app.queue_selected_index >= app.queue.len() && app.queue_selected_index > 0 {
                app.queue_selected_index = app.queue_selected_index - 1;
            }
            Effect::Nothing
        },
        KeyCode::Char(c) => {
            if c == 'c' {
                app.queue.clear();
                app.queue_selected_index = 0;
                Effect::Nothing
            } else if c == 'n' && app.player_manager.is_some() {
                app.handle_next_video(true)
            } else if c == 'h' {
                app.input_mode = InputMode::Help;
                Effect::Nothing
            } else {
                Effect::Nothing
            }
        },
        _ => Effect::Nothing,
    }
}

/// The row that Down goes to from `current`. The rows that can be selected
/// are 2 to 5, 9, 10, 14 and 18; the others are headings and gaps. Down goes
/// to the next of them, and stays on the last one and on a row that is none
/// of them.
pub open spec fn setting_after(current: usize) -> usize {
    if current == 2 {
        3
    } else if current == 3 {
        4
    } else if current == 4 {
        5
    } else if current == 5 {
        9
    } else if current == 9 {
        10
    } else if current == 10 {
        14
    } else if current == 14 {
        18
    } else {
        current
    }
}

/// The row that Up goes to from `current`: the one before among the rows
/// that can be selected; it stays on the first one and on a row that is none
/// of them.
pub open spec fn setting_before(current: usize) -> usize {
    if current == 3 {
        2
    } else if current == 4 {
        3
    } else if current == 5 {
        4
    } else if current == 9 {
        5
    } else if current == 10 {
        9
    } else if current == 14 {
        10
    } else if current == 18 {
        14
    } else {
        current
    }
}

/// The page size that leaving the field settles on, given the digits typed:
/// the number they spell, the default where they spell none, brought into
/// the range from 1 to 100.
pub open spec fn settled_page_size(input: Seq<char>) -> usize {
    match parse_unsigned(input, usize::MAX as nat) {
        Some(n) => if n < 1 {
            1
        } else if n > 100 {
            100
        } else {
            n as usize
        },
        None => DEFAULT_RESULTS_PER_PAGE,
    }
}

/// `pre` with the settings `config`.
pub open spec fn with_config(pre: App, config: Config) -> App {
    App { config, ..pre }
}

/// `pre` with the settings `config` and the digits `input` typed for the
/// page size.
pub open spec fn with_page_size_input(pre: App, config: Config, input: Option<String>) -> App {
    App { config, results_per_page_input: input, ..pre }
}

/// `text` after the key `code` has edited it: a character is added at the
/// end, Backspace takes the last one off.
pub open spec fn edited(text: Seq<char>, code: KeyCode) -> Seq<char> {
    match code {
        KeyCode::Char(c) => text.push(c),
        KeyCode::Backspace => if text.len() > 0 {
            text.drop_last()
        } else {
            text
        },
        _ => text,
    }
}

/// Whether `code` edits a text: it types a character or is Backspace.
pub open spec fn edits(code: KeyCode) -> bool {
    code is Char || code == KeyCode::Backspace
}

/// What a key does to the download directory or the custom format while it
/// is edited: the text changes and the settings are to be stored.
pub open spec fn text_field_step(
    pre: App,
    field: SettingsField,
    code: KeyCode,
    post: App,
    effect: Effect,
) -> bool {
    &&& effect is SaveConfig
    &&& match field {
        SettingsField::CustomFormat => {
            &&& post == with_config(
                pre,
                Config { custom_format: post.config.custom_format, ..pre.config },
            )
            &&& post.config.custom_format@ == edited(pre.config.custom_format@, code)
        },
        _ => {
            &&& post == with_config(
                pre,
                Config { download_dir: post.config.download_dir, ..pre.config },
            )
            &&& post.config.download_dir@ == edited(pre.config.download_dir@, code)
        },
    }
}

/// Whether the page size field takes the key `code`: a digit or Backspace.
pub open spec fn page_size_takes(code: KeyCode) -> bool {
    match code {
        KeyCode::Char(c) => is_digit(c),
        KeyCode::Backspace => true,
        _ => false,
    }
}

/// The page size that the digits `typed` set at once, if any: a typed digit
/// sets a number up to 999, Backspace any number that is left.
pub open spec fn page_size_now(typed: Seq<char>, code: KeyCode) -> Option<usize> {
    match parse_unsigned(typed, usize::MAX as nat) {
        Some(n) => if code == KeyCode::Backspace || n <= 999 {
            Some(n as usize)
        } else {
            None
        },
        None => None,
    }
}

/// What a key does to the page size while it is edited.
pub open spec fn page_size_step(pre: App, code: KeyCode, post: App, effect: Effect) -> bool {
    match pre.results_per_page_input {
        Some(input) if page_size_takes(code) => {
            let typed = edited(input@, code);
            &&& post.results_per_page_input matches Some(now) && now@ == typed
            &&& match page_size_now(typed, code) {
                Some(n) => effect is SaveConfig && post == with_page_size_input(
                    pre,
                    Config { results_per_page: n, ..pre.config },
                    post.results_per_page_input,
                ),
                None => effect is Nothing && post == with_page_size_input(
                    pre,
                    pre.config,
                    post.results_per_page_input,
                ),
            }
        },
        _ => effect is Nothing && post == pre,
    }
}

/// What Enter or Esc does while the setting `field` is edited: the field is
/// closed, and a page size is settled and stored.
pub open spec fn leave_step(pre: App, field: SettingsField, post: App, effect: Effect) -> bool {
    match (field, pre.results_per_page_input) {
        (SettingsField::ResultsPerPage, Some(input)) => effect is SaveConfig && post == (App {
            settings_editing: None,
            ..with_page_size_input(
                pre,
                Config { results_per_page: settled_page_size(input@), ..pre.config },
                None,
            )
        }),
        (SettingsField::ResultsPerPage, None) => effect is Nothing && post == (App {
            settings_editing: None,
            results_per_page_input: None,
            ..pre
        }),
        _ => effect is Nothing && post == (App { settings_editing: None, ..pre }),
    }
}

/// What a key does while the setting `field` is edited.
pub open spec fn editing_step(
    pre: App,
    field: SettingsField,
    key: KeyEvent,
    post: App,
    effect: Effect,
) -> bool {
    if key.code == KeyCode::Enter || key.code == KeyCode::Esc {
        leave_step(pre, field, post, effect)
    } else if edits(key.code) {
        match field {
            SettingsField::ResultsPerPage => page_size_step(pre, key.code, post, effect),
            _ => text_field_step(pre, field, key.code, post, effect),
        }
    } else {
        effect is Nothing && post == pre
    }
}

/// The settings with the switch of row `row` flipped; the settings
/// themselves where the row holds no switch.
pub open spec fn flipped(c: Config, row: usize) -> Config {
    if row == 2 {
        Config { audio_only: !c.audio_only, ..c }
    } else if row == 3 {
        Config { bandwidth_limit: !c.bandwidth_limit, ..c }
    } else if row == 4 {
        Config { keep_temp: !c.keep_temp, ..c }
    } else if row == 5 {
        Config { include_shorts: !c.include_shorts, ..c }
    } else if row == 9 {
        Config { download_mode: !c.download_mode, ..c }
    } else {
        c
    }
}

/// Whether row `row` of the settings holds a switch.
pub open spec fn is_switch(row: usize) -> bool {
    row == 2 || row == 3 || row == 4 || row == 5 || row == 9
}

/// The text field on row `row` of the settings, if there is one.
pub open spec fn field_on(row: usize) -> Option<SettingsField> {
    if row == 10 {
        Some(SettingsField::DownloadDir)
    } else if row == 14 {
        Some(SettingsField::ResultsPerPage)
    } else if row == 18 {
        Some(SettingsField::CustomFormat)
    } else {
        None
    }
}

/// What Enter or the space bar does on the selected row of the settings: a
/// switch is flipped and stored, a text field is opened for editing, the
/// page size with its digits laid out.
pub open spec fn activate_step(pre: App, post: App, effect: Effect) -> bool {
    let row = pre.settings_selected_index;
    if is_switch(row) {
        effect is SaveConfig && post == with_config(pre, flipped(pre.config, row))
    } else if row == 14 {
        &&& effect is Nothing
        &&& post == (App {
            settings_editing: Some(SettingsField::ResultsPerPage),
            results_per_page_input: post.results_per_page_input,
            ..pre
        })
        &&& post.results_per_page_input matches Some(input) && input@ == decimal(
            pre.config.results_per_page as nat,
        )
    } else {
        effect is Nothing && post == (App {
            settings_editing: if field_on(row) is Some {
                field_on(row)
            } else {
                pre.settings_editing
            },
            ..pre
        })
    }
}

/// What a key does while the settings are open.
pub open spec fn settings_step(pre: App, key: KeyEvent, post: App, effect: Effect) -> bool {
    match pre.settings_editing {
        Some(field) => editing_step(pre, field, key, post, effect),
        None => match key.code {
            KeyCode::Esc => effect is Nothing && post == (App {
                settings_open: false,
                settings_editing: None,
                results_per_page_input: None,
                ..pre
            }),
            KeyCode::Up => effect is Nothing && post == (App {
                settings_selected_index: setting_before(pre.settings_selected_index),
                ..pre
            }),
            KeyCode::Down => effect is Nothing && post == (App {
                settings_selected_index: setting_after(pre.settings_selected_index),
                ..pre
            }),
            KeyCode::Enter => activate_step(pre, post, effect),
            KeyCode::Char(c) => if c == ' ' {
                activate_step(pre, post, effect)
            } else {
                effect is Nothing && post == pre
            },
            _ => effect is Nothing && post == pre,
        },
    }
}

/// Edits the text `text` with the key `code`.
fn edit_text(text: &mut String, code: KeyCode)
    ensures
        final(text)@ == edited(old(text)@, code),
{
    match code {
        KeyCode::Char(c) => {
            push_char(text, c);
        },
        KeyCode::Backspace => {
            pop_char(text);
        },
        _ => {},
    }
}

/// Edits the download directory or the custom format.
fn edit_text_field(app: &mut App, field: SettingsField, code: KeyCode) -> (effect: Effect)
    ensures
        text_field_step(*old(app), field, code, *final(app), effect),
{
    match field {
        SettingsField::CustomFormat => {
            edit_text(&mut app.config.custom_format, code);
        },
        _ => {
            edit_text(&mut app.config.download_dir, code);
        },
    }
    Effect::SaveConfig
}

/// Whether the page size field takes the key `code`.
fn takes_page_size_key(code: KeyCode) -> (r: bool)
    ensures
        r == page_size_takes(code),
{
    match code {
        KeyCode::Char(c) => char_is_digit(c),
        KeyCode::Backspace => true,
        _ => false,
    }
}

/// The page size that the digits `typed` set at once.
fn read_page_size(typed: &str, code: KeyCode) -> (r: Option<usize>)
    ensures
        r == page_size_now(typed@, code),
{
    let erasing = match code {
        KeyCode::Backspace => true,
        _ => false,
    };
    match parse_usize(typed) {
        Some(n) => if erasing || n <= 999 {
            Some(n)
        } else {
            None
        },
        None => None,
    }
}

/// Edits the digits of the page size.
fn edit_page_size(app: &mut App, code: KeyCode) -> (effect: Effect)
    ensures
        page_size_step(*old(app), code, *final(app), effect),
{
    if !takes_page_size_key(code) {
        return Effect::Nothing;
    }
    match app.results_per_page_input.take() {
        Some(input) => {
            let mut input = input;
            edit_text(&mut input, code);
            let now = read_page_size(input.as_str(), code);
            app.results_per_page_input = Some(input);
            match now {
                Some(n) => {
                    app.config.results_per_page = n;
                    Effect::SaveConfig
                },
                None => Effect::Nothing,
            }
        },
        None => Effect::Nothing,
    }
}

/// The page size that leaving the field settles on.
fn settle_page_size(input: &str) -> (r: usize)
    ensures
        r == settled_page_size(input@),
{
    match parse_usize(input) {
        Some(n) => if n < 1 {
            1
        } else if n > 100 {
            100
        } else {
            n
        },
        None => DEFAULT_RESULTS_PER_PAGE,
    }
}

/// Closes the field that is edited.
fn leave_field(app: &mut App, field: SettingsField) -> (effect: Effect)
    ensures
        leave_step(*old(app), field, *final(app), effect),
{
    let mut effect = Effect::Nothing;
    match field {
        SettingsField::ResultsPerPage => {
            match app.results_per_page_input.take() {
                Some(input) => {
                    app.config.results_per_page = settle_page_size(input.as_str());
                    effect = Effect::SaveConfig;
                },
                None => {},
            }
        },
        _ => {},
    }
    app.settings_editing = None;
    effect
}

/// Handles a key while a setting is edited as text.
fn handle_editing_keys(app: &mut App, field: SettingsField, key: KeyEvent) -> (effect: Effect)
    ensures
        editing_step(*old(app), field, key, *final(app), effect),
{
    match key.code {
        KeyCode::Enter | KeyCode::Esc => leave_field(app, field),
        KeyCode::Char(_) | KeyCode::Backspace => match field {
            SettingsField::ResultsPerPage => edit_page_size(app, key.code),
            _ => edit_text_field(app, field, key.code),
        },
        _ => Effect::Nothing,
    }
}

/// Flips the switch on row `row` of the settings.
fn flip_switch(config: &mut Config, row: usize)
    ensures
        *final(config) == flipped(*old(config), row),
{
    if row == 2 {
        config.toggle_audio_only();
    } else if row == 3 {
        config.toggle_bandwidth_limit();
    } else if row == 4 {
        config.toggle_keep_temp();
    } else if row == 5 {
        config.toggle_include_shorts();
    } else if row == 9 {
        config.toggle_download_mode();
    }
}

/// Acts on the selected row of the settings.
fn activate_setting(app: &mut App) -> (effect: Effect)
    ensures
        activate_step(*old(app), *final(app), effect),
{
    let row = app.settings_selected_index;
    if row == 2 || row == 3 || row == 4 || row == 5 || row == 9 {
        flip_switch(&mut app.config, row);
        Effect::SaveConfig
    } else if row == 10 {
        app.settings_editing = Some(SettingsField::DownloadDir);
        Effect::Nothing
    } else if row == 14 {
        app.settings_editing = Some(SettingsField::ResultsPerPage);
        app.results_per_page_input = Some(decimal_string(app.config.results_per_page as u128));
        Effect::Nothing
    } else if row == 18 {
        app.settings_editing = Some(SettingsField::CustomFormat);
        Effect::Nothing
    } else {
        Effect::Nothing
    }
}

/// The keys of the settings: the arrows move over the rows that can be
/// selected, Enter and the space bar flip a switch or open a text field, and
/// while a field is open the keys edit it. Every change is to be stored at
/// once.
pub fn handle_settings_keys(app: &mut App, key: KeyEvent) -> (effect: Effect)
    ensures
        settings_step(*old(app), key, *final(app), effect),
{
    match app.settings_editing {
        Some(field) => {
            return handle_editing_keys(app, field, key);
        },
        None => {},
    }
    match key.code {
        KeyCode::Esc => {
            app.settings_open = false;
            app.settings_editing = None;
            app.results_per_page_input = None;
            Effect::Nothing
        },
        KeyCode::Up => {
            let current = app.settings_selected_index;
            app.settings_selected_index =
            if current == 3 {
                2
            } else if current == 4 {
                3
            } else if current == 5 {
                4
            } else if current == 9 {
                5
            } else if current == 10 {
                9
            } else if current == 14 {
                10
            } else if current == 18 {
                14
            } else {
                current
            };
            Effect::Nothing
        },
        KeyCode::Down => {
            let current = app.settings_selected_index;
            app.settings_selected_index =
            if current == 2 {
                3
            } else if current == 3 {
                4
            } else if current == 4 {
                5
            } else if current == 5 {
                9
            } else if current == 9 {
                10
            } else if current == 10 {
                14
            } else if current == 14 {
                18
            } else {
                current
            };
            Effect::Nothing
        },
        KeyCode::Enter => activate_setting(app),
        KeyCode::Char(c) => {
            if c == ' ' {
                activate_setting(app)
            } else {
                Effect::Nothing
            }
        },
        _ => Effect::Nothing,
    }
}

/// Whether the key opens or closes the settings: `s` or `S` outside the
/// search bar, and F2 anywhere.
pub open spec fn toggles_settings(pre: App, code: KeyCode) -> bool {
    pre.input_mode != InputMode::Help && (((code == KeyCode::Char('s') || code == KeyCode::Char(
        'S',
    )) && pre.focused_panel != FocusedPanel::SearchBar) || code == KeyCode::F(2))
}

/// Whether the key ends the session: `q`, Esc outside the search bar, and
/// `c` with control.
pub open spec fn quits(pre: App, key: KeyEvent) -> bool {
    ||| key.code == KeyCode::Char('q')
    ||| (key.code == KeyCode::Esc && pre.focused_panel != FocusedPanel::SearchBar)
    ||| (key.code == KeyCode::Char('c') && key.modifiers.is_control())
}

/// The volume one step up from `v`.
pub open spec fn volume_up(v: i32) -> i32 {
    if v >= MAX_VOLUME - 5 {
        MAX_VOLUME
    } else {
        (v + 5) as i32
    }
}

/// The volume one step down from `v`.
pub open spec fn volume_down(v: i32) -> i32 {
    if v <= 5 {
        0
    } else {
        (v - 5) as i32
    }
}

/// The volume that the mute key goes to from `v`: silence, or full volume
/// from silence.
pub open spec fn volume_muted(v: i32) -> i32 {
    if v > 0 {
        0
    } else {
        MAX_VOLUME
    }
}

/// What the key asks of the player, if it is a playback key: the space bar
/// pauses and resumes, `<` and `>` seek ten seconds, `+`, `=` and `-` step
/// the volume, `m` mutes. The search bar keeps `-` and `m` for typing.
pub open spec fn player_key(code: KeyCode, focus: FocusedPanel, volume: i32) -> Option<
    RequestView,
> {
    match code {
        KeyCode::Char(c) => if c == ' ' {
            Some(RequestView::CyclePause)
        } else if c == '<' {
            Some(RequestView::Seek((-10) as i64))
        } else if c == '>' {
            Some(RequestView::Seek(10i64))
        } else if c == '=' || c == '+' {
            Some(RequestView::SetVolume(clamp_volume(volume_up(volume) as int)))
        } else if c == '-' && focus != FocusedPanel::SearchBar {
            Some(RequestView::SetVolume(clamp_volume(volume_down(volume) as int)))
        } else if c == 'm' && focus != FocusedPanel::SearchBar {
            Some(RequestView::SetVolume(clamp_volume(volume_muted(volume) as int)))
        } else {
            None
        },
        _ => None,
    }
}

/// Whether `effect` hands `request` to the player `pm`: it is sent where
/// the channel is open, and dropped where it is not; a failure to deliver
/// it changes nothing.
pub open spec fn control_effect(pm: PlayerView, request: RequestView, effect: Effect) -> bool {
    if pm.link == Link::Connected {
        &&& effect matches Effect::Send { dispatch, strict }
        &&& !strict
        &&& !dispatch.connect_first
        &&& dispatch.request@ == request
    } else {
        effect is Nothing
    }
}

/// What a key does while browsing. The settings, once open, take every
/// key. Otherwise the keys that open the settings come first, then the keys
/// that quit, then the playback keys where a player is active, then the
/// keys of the panel that has the focus.
pub open spec fn browse_step(pre: App, key: KeyEvent, post: App, effect: Effect) -> bool {
    if pre.settings_open {
        settings_step(pre, key, post, effect)
    } else if toggles_settings(pre, key.code) {
        effect is Nothing && post == (App { settings_open: !pre.settings_open, ..pre })
    } else if quits(pre, key) {
        effect is Nothing && post == (App { should_quit: true, ..pre })
    } else if key.code == KeyCode::Esc {
        &&& effect is Nothing
        &&& post == (App {
            search_input: post.search_input,
            focused_panel: FocusedPanel::Results,
            ..pre
        })
        &&& post.search_input@.len() == 0
    } else {
        match pre.player_manager {
            Some(pm) if player_key(key.code, pre.focused_panel, pm@.status.volume) is Some => {
                post == pre && control_effect(
                    pm@,
                    player_key(key.code, pre.focused_panel, pm@.status.volume)->0,
                    effect,
                )
            },
            _ => match pre.focused_panel {
                FocusedPanel::SearchBar => effect is Nothing && search_bar_step(pre, key, post),
                FocusedPanel::Results => effect is Nothing && results_step(pre, key, post),
                FocusedPanel::Queue => queue_step(pre, key, post, effect),
            },
        }
    }
}

/// The request that a playback key makes of the player `pm`, if the key is
/// one; the request itself is `None` where the channel is not open.
fn player_key_request(pm: &PlayerManager, code: KeyCode, focus: FocusedPanel) -> (r: Option<
    Option<Request>,
>)
    ensures
        r is Some == player_key(code, focus, pm@.status.volume) is Some,
        r matches Some(q) ==> (q is Some == (pm@.link == Link::Connected)),
        r matches Some(Some(request)) ==> request@ == player_key(
            code,
            focus,
            pm@.status.volume,
        )->0,
{
    let volume = pm.status().volume;
    let typing = match focus {
        FocusedPanel::SearchBar => true,
        _ => false,
    };
    match code {
        KeyCode::Char(c) => if c == ' ' {
            Some(pm.toggle_pause())
        } else if c == '<' {
            Some(pm.seek(-10))
        } else if c == '>' {
            Some(pm.seek(10))
        } else if c == '=' || c == '+' {
            let up: i32 = if volume >= MAX_VOLUME - 5 {
                MAX_VOLUME
            } else {
                volume + 5
            };
            Some(pm.set_volume(up))
        } else if c == '-' && !typing {
            let down: i32 = if volume <= 5 {
                0
            } else {
                volume - 5
            };
            Some(pm.set_volume(down))
        } else if c == 'm' && !typing {
            let muted: i32 = if volume > 0 {
                0
            } else {
                MAX_VOLUME
            };
            Some(pm.set_volume(muted))
        } else {
            None
        },
        _ => None,
    }
}

/// Whether the key opens or closes the settings.
fn is_settings_toggle(app: &App, code: KeyCode) -> (r: bool)
    ensures
        r == toggles_settings(*app, code),
{
    let helping = match app.input_mode {
        InputMode::Help => true,
        _ => false,
    };
    let typing = match app.focused_panel {
        FocusedPanel::SearchBar => true,
        _ => false,
    };
    !helping && match code {
        KeyCode::Char(c) => (c == 's' || c == 'S') && !typing,
        KeyCode::F(n) => n == 2,
        _ => false,
    }
}

/// Whether the key ends the session.
fn is_quit(app: &App, key: KeyEvent) -> (r: bool)
    ensures
        r == quits(*app, key),
{
    let typing = match app.focused_panel {
        FocusedPanel::SearchBar => true,
        _ => false,
    };
    let m = key.modifiers;
    match key.code {
        KeyCode::Char(c) => c == 'q' || (c == 'c' && m.control && !m.shift && !m.alt && !m.other),
        KeyCode::Esc => !typing,
        _ => false,
    }
}

/// The keys while browsing.
pub fn handle_browse_keys(app: &mut App, key: KeyEvent) -> (effect: Effect)
    ensures
        browse_step(*old(app), key, *final(app), effect),
        old(app).queue.wf() ==> final(app).queue.wf(),
{
    if app.settings_open {
        return handle_settings_keys(app, key);
    }
    if is_settings_toggle(app, key.code) {
        app.settings_open = !app.settings_open;
        return Effect::Nothing;
    }
    if is_quit(app, key) {
        app.should_quit = true;
        return Effect::Nothing;
    }
    match key.code {
        KeyCode::Esc => {
            app.search_input = String::new();
            app.focused_panel = FocusedPanel::Results;
            return Effect::Nothing;
        },
        _ => {},
    }
    match &app.player_manager {
        Some(pm) => {
            match player_key_request(pm, key.code, app.focused_panel) {
                Some(Some(request)) => {
                    return Effect::Send {
                        dispatch: Dispatch { request, connect_first: false },
                        strict: false,
                    };
                },
                Some(None) => {
                    return Effect::Nothing;
                },
                None => {},
            }
        },
        None => {},
    }
    match app.focused_panel {
        FocusedPanel::SearchBar => {
            handle_search_bar_keys(app, key);
            Effect::Nothing
        },
        FocusedPanel::Results => {
            handle_results_keys(app, key);
            Effect::Nothing
        },
        FocusedPanel::Queue => handle_queue_keys(app, key),
    }
}

/// What a key does to the session. Tab moves the focus round the panels,
/// backwards with shift; the help takes its own keys; everything else is
/// browsing.
pub open spec fn key_step(pre: App, key: KeyEvent, post: App, effect: Effect) -> bool {
    if pre.input_mode != InputMode::Help && key.code == KeyCode::Tab {
        effect is Nothing && post == (App {
            focused_panel: if key.modifiers.shift {
                panel_before(pre.focused_panel)
            } else {
                panel_after(pre.focused_panel)
            },
            ..pre
        })
    } else if pre.input_mode == InputMode::Help {
        effect is Nothing && post == (App {
            input_mode: if closes_help(key.code) {
                InputMode::Browse
            } else {
                pre.input_mode
            },
            ..pre
        })
    } else {
        browse_step(pre, key, post, effect)
    }
}

/// Takes one key. What the key asks of the player or of the settings' store
/// is returned for the caller to carry out.
pub fn handle_key_event(app: &mut App, key: KeyEvent) -> (effect: Effect)
    ensures
        key_step(*old(app), key, *final(app), effect),
        old(app).queue.wf() ==> final(app).queue.wf(),
{
    let helping = match app.input_mode {
        InputMode::Help => true,
        _ => false,
    };
    let tab = match key.code {
        KeyCode::Tab => true,
        _ => false,
    };
    if !helping && tab {
        if key.modifiers.shift {
            cycle_focus_backward(app);
        } else {
            cycle_focus_forward(app);
        }
        return Effect::Nothing;
    }
    if helping {
        handle_help_keys(app, key);
        Effect::Nothing
    } else {
        handle_browse_keys(app, key)
    }
}

} // verus!
