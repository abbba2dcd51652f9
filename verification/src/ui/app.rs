//! The state of a session, and the step from one track to the next.

use crate::config::Config;
use crate::player_manager::{
    releases, Dispatch, Link, PlayerManager, Request, RequestView, Teardown,
};
use crate::queue::{Queue, QueueView};
use crate::search::{watch_url, watch_url_of, SearchResult};
use vstd::prelude::*;
use vstd::slice::slice_subrange;

verus! {

/// What the keys mean at the moment.
#[derive(Debug, Clone, Copy, PartialEq, Eq, Structural)]
pub enum InputMode {
    Browse,
    Help,
}

/// The panel that takes the keys.
#[derive(Debug, Clone, Copy, PartialEq, Eq, Structural)]
pub enum FocusedPanel {
    SearchBar,
    Results,
    Queue,
}

/// A setting that is edited as text.
#[derive(Debug, Clone, Copy, PartialEq, Eq, Structural)]
pub enum SettingsField {
    DownloadDir,
    ResultsPerPage,
    CustomFormat,
}

/// What the session is to do at its next tick. There is one slot for it: a
/// new action takes the place of one that has not been acted on.
#[derive(Debug)]
pub enum AppAction {
    Nothing,
    /// Play the result at this index of the results.
    Play(usize),
    /// Search for this query.
    NewSearch(String),
    /// Fetch what the current page needs.
    FetchNextPage,
}

/// An action as plain values.
pub enum ActionView {
    Nothing,
    Play(usize),
    NewSearch(Seq<char>),
    FetchNextPage,
}

impl View for AppAction {
    type V = ActionView;

    open spec fn view(&self) -> ActionView {
        match self {
            AppAction::Nothing => ActionView::Nothing,
            AppAction::Play(i) => ActionView::Play(*i),
            AppAction::NewSearch(q) => ActionView::NewSearch(q@),
            AppAction::FetchNextPage => ActionView::FetchNextPage,
        }
    }
}

impl PartialEq for AppAction {
    fn eq(&self, other: &Self) -> (r: bool) {
        match (self, other) {
            (AppAction::Nothing, AppAction::Nothing) => true,
            (AppAction::Play(a), AppAction::Play(b)) => *a == *b,
            (AppAction::NewSearch(a), AppAction::NewSearch(b)) => *a == *b,
            (AppAction::FetchNextPage, AppAction::FetchNextPage) => true,
            _ => false,
        }
    }
}

impl vstd::std_specs::cmp::PartialEqSpecImpl for AppAction {
    open spec fn obeys_eq_spec() -> bool {
        true
    }

    open spec fn eq_spec(&self, other: &Self) -> bool {
        self@ == other@
    }
}

/// Work that the session hands to its caller, who alone can reach the
/// player.
#[derive(Debug)]
pub enum Effect {
    Nothing,
    /// Store the settings.
    SaveConfig,
    /// Send the request to the active player. Where `strict` holds and the
    /// request cannot be delivered, the player is given up.
    Send { dispatch: Dispatch, strict: bool },
    /// No player is active: start one and send it the request; it becomes the
    /// active player if that works.
    Launch(Request),
    /// The player has been given up: release what it held.
    Release(Teardown),
}

/// The state of a session.
pub struct App {
    /// All results found for the query.
    pub results: Vec<SearchResult>,
    /// The selected row of the page shown.
    pub selected_index: usize,
    pub page: usize,
    pub page_size: usize,
    pub total_results: usize,
    pub exhausted: bool,
    pub query: String,
    pub input_mode: InputMode,
    /// What has been typed into the search bar.
    pub search_input: String,
    /// The digits typed to pick a result by its number.
    pub number_input: String,
    pub pending_action: AppAction,
    pub should_quit: bool,
    pub player_manager: Option<PlayerManager>,
    pub queue: Queue,
    pub queue_selected_index: usize,
    pub focused_panel: FocusedPanel,
    pub loading: bool,
    pub settings_open: bool,
    /// The selected row of the settings.
    pub settings_selected_index: usize,
    pub settings_editing: Option<SettingsField>,
    /// The digits typed for the page size while it is edited.
    pub results_per_page_input: Option<String>,
    pub config: Config,
}

/// The row of the settings that is selected when they open.
pub const FIRST_SETTING: usize = 2;

/// The first index of page `page`, no further than `len`.
pub open spec fn page_start(page: int, page_size: int, len: int) -> int {
    if page * page_size < len {
        page * page_size
    } else {
        len
    }
}

/// The index after the last of page `page`, no further than `len`.
pub open spec fn page_end(page: int, page_size: int, len: int) -> int {
    if (page + 1) * page_size < len {
        (page + 1) * page_size
    } else {
        len
    }
}

/// The request that starts the track `track`.
pub open spec fn start_request(track: SearchResult, paused: bool) -> RequestView {
    RequestView::Load { url: watch_url(track.id@), title: track.title@, paused }
}

/// What moving on from the head of the queue does to the session `pre`, and
/// what it asks of the caller.
pub open spec fn next_step(pre: App, manual: bool, post: App, effect: Effect) -> bool {
    let paused = !(manual || pre.config.auto_play_queue);
    &&& post == (App {
        queue: post.queue,
        queue_selected_index: post.queue_selected_index,
        player_manager: post.player_manager,
        ..pre
    })
    &&& post.queue@ == pre.queue@.popped()
    &&& post.queue_selected_index == (if pre.queue@.tracks.len() > 0 && pre.queue_selected_index
        > 0 {
        (pre.queue_selected_index - 1) as usize
    } else {
        pre.queue_selected_index
    })
    &&& if post.queue@.tracks.len() > 0 {
        &&& post.player_manager == pre.player_manager
        &&& match pre.player_manager {
            Some(pm) => {
                &&& effect matches Effect::Send { dispatch, strict }
                &&& strict
                &&& dispatch.request@ == start_request(post.queue@.tracks[0], paused)
                &&& dispatch.connect_first == (pm@.link != Link::Connected)
            },
            None => effect matches Effect::Launch(request) && request@ == start_request(
                post.queue@.tracks[0],
                paused,
            ),
        }
    } else {
        &&& post.player_manager is None
        &&& match pre.player_manager {
            Some(pm) => effect matches Effect::Release(teardown) && releases(pm@, teardown),
            None => effect is Nothing,
        }
    }
}

/// `a * b`, or the largest number where it does not fit.
pub fn saturating_product(a: usize, b: usize) -> (r: usize)
    ensures
        r == (if a * b <= usize::MAX {
            a * b
        } else {
            usize::MAX as int
        }),
{
    match a.checked_mul(b) {
        Some(p) => p,
        None => usize::MAX,
    }
}

impl App {
    /// A session that has just started on `query`.
    pub fn new(query: String, page_size: usize, config: Config) -> (r: Self)
        ensures
            r.results@.len() == 0,
            r.selected_index == 0,
            r.page == 0,
            r.page_size == page_size,
            r.total_results == 0,
            !r.exhausted,
            r.query == query,
            r.input_mode == InputMode::Browse,
            r.search_input@.len() == 0,
            r.number_input@.len() == 0,
            r.pending_action@ == ActionView::Nothing,
            !r.should_quit,
            r.player_manager is None,
            r.queue@ == QueueView::empty(),
            r.queue_selected_index == 0,
            r.focused_panel == FocusedPanel::Results,
            !r.loading,
            !r.settings_open,
            r.settings_selected_index == FIRST_SETTING,
            r.settings_editing is None,
            r.results_per_page_input is None,
            r.config == config,
    {
        App {
            results: Vec::new(),
            selected_index: 0,
            page: 0,
            page_size,
            total_results: 0,
            exhausted: false,
            query,
            input_mode: InputMode::Browse,
            search_input: String::new(),
            number_input: String::new(),
            pending_action: AppAction::Nothing,
            should_quit: false,
            player_manager: None,
            queue: Queue::new(),
            queue_selected_index: 0,
            focused_panel: FocusedPanel::Results,
            loading: false,
            settings_open: false,
            settings_selected_index: FIRST_SETTING,
            settings_editing: None,
            results_per_page_input: None,
            config,
        }
    }

    /// The bounds of the page shown within the results.
    pub fn page_bounds(&self) -> (r: (usize, usize))
        ensures
            r.0 == page_start(self.page as int, self.page_size as int, self.results@.len() as int),
            r.1 == page_end(self.page as int, self.page_size as int, self.results@.len() as int),
            r.0 <= r.1 <= self.results@.len(),
    {
        let len = self.results.len();
        let first = saturating_product(self.page, self.page_size);
        let start = if first < len {
            first
        } else {
            len
        };
        let end = if first < len && self.page_size < len - first {
            first + self.page_size
        } else {
            len
        };
        proof {
            let p = self.page as int;
            let s = self.page_size as int;
            assert((p + 1) * s == p * s + s) by (nonlinear_arith);
            assert(p * s >= 0) by (nonlinear_arith)
                requires
                    p >= 0,
                    s >= 0,
            ;
        }
        (start, end)
    }

    /// The results of the page shown; none where the page lies past them.
    pub fn current_page_results(&self) -> (r: &[SearchResult])
        ensures
            r@ == self.results@.subrange(
                page_start(self.page as int, self.page_size as int, self.results@.len() as int),
                page_end(self.page as int, self.page_size as int, self.results@.len() as int),
            ),
    {
        let (start, end) = self.page_bounds();
        slice_subrange(self.results.as_slice(), start, end)
    }

    /// Whether there is a page after this one: more results are at hand, or
    /// more may be fetched.
    pub fn has_next_page(&self) -> (r: bool)
        ensures
            r == ((self.page + 1) * self.page_size < self.results@.len() || !self.exhausted),
    {
        let (_, end) = self.page_bounds();
        end < self.results.len() || !self.exhausted
    }

    /// Whether there is a page before this one.
    pub fn has_prev_page(&self) -> (r: bool)
        ensures
            r == (self.page > 0),
    {
        self.page > 0
    }

    /// Moves on from the track at the head of the queue: the head leaves,
    /// the queue cursor follows its track, and the new head is started,
    /// playing if `manual` or if the queue is set to play on, else held
    /// paused. With nothing left in the queue the active player is given up.
    pub fn handle_next_video(&mut self, manual: bool) -> (effect: Effect)
        ensures
            next_step(*old(self), manual, *final(self), effect),
            old(self).queue.wf() ==> final(self).queue.wf(),
    {
        if self.queue.pop_front().is_some() && self.queue_selected_index > 0 {
            self.queue_selected_index = self.queue_selected_index - 1;
        }
        match self.queue.get(0) {
            Some(track) => {
                let url = watch_url_of(track.id.as_str());
                let paused = !(manual || self.config.auto_play_queue);
                match &self.player_manager {
                    Some(pm) => {
                        let dispatch = if paused {
                            pm.load_paused(url.as_str(), track.title.as_str())
                        } else {
                            pm.play(url.as_str(), track.title.as_str())
                        };
                        Effect::Send { dispatch, strict: true }
                    },
                    None => Effect::Launch(
                        Request::Load { url, title: track.title.clone(), paused },
                    ),
                }
            },
            None => {
                match self.player_manager.take() {
                    Some(pm) => {
                        let mut pm = pm;
                        Effect::Release(pm.terminate())
                    },
                    None => Effect::Nothing,
                }
            },
        }
    }
}

} // verus!
