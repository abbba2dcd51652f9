//! What a tick of the session does, in the order it does it: the pending
//! action is taken and acted on, the player is polled, a finished track
//! makes way for the next, and a key is taken.
//!
//! The caller runs the loop. Each function here is one decision of it; what
//! it asks for — a search batch, a request to the player, a blocking
//! playback — the caller carries out and reports back.

use crate::player::{play_video, playback_plan, supports_background_playback, PlaybackPlan, PlayerType};
use crate::display::last_page;
use crate::player_manager::{releases, PlayerManager, Request, RequestView, Teardown};
use crate::search::{records_of, title_filter, watch_url_of, CacheModel, PaginatedSearch, SearchResult};
use crate::ui::app::{next_step, start_request, App, AppAction, Effect};
use vstd::prelude::*;

verus! {

/// The length of a tick in milliseconds.
pub const TICK_RATE_MS: u64 = 250;

/// How long to wait for a key, `elapsed_ms` into the tick: what is left of
/// the tick.
pub fn poll_timeout(elapsed_ms: u64) -> (r: u64)
    ensures
        r == (if elapsed_ms >= TICK_RATE_MS {
            0
        } else {
            TICK_RATE_MS - elapsed_ms
        }),
{
    if elapsed_ms >= TICK_RATE_MS {
        0
    } else {
        TICK_RATE_MS - elapsed_ms
    }
}

/// Whether the tick is over, `elapsed_ms` into it.
pub fn tick_over(elapsed_ms: u64) -> (r: bool)
    ensures
        r == (elapsed_ms >= TICK_RATE_MS),
{
    elapsed_ms >= TICK_RATE_MS
}

/// The steps of a tick, in the order they are taken.
#[derive(Debug, Clone, Copy, PartialEq, Eq, Structural)]
pub enum TickPhase {
    /// Draw the session as it stands.
    Render,
    /// Take the pending action and act on it.
    Act,
    /// Poll the active player.
    Poll,
    /// Move on from a track that has ended.
    Advance,
    /// Take at most one key.
    Input,
    /// See whether the session is over.
    Check,
}

impl TickPhase {
    /// The place of the step within the tick.
    pub open spec fn rank(self) -> nat {
        match self {
            TickPhase::Render => 0,
            TickPhase::Act => 1,
            TickPhase::Poll => 2,
            TickPhase::Advance => 3,
            TickPhase::Input => 4,
            TickPhase::Check => 5,
        }
    }

    /// The step after this one; after the last step the next tick begins.
    pub open spec fn spec_next(self) -> TickPhase {
        match self {
            TickPhase::Render => TickPhase::Act,
            TickPhase::Act => TickPhase::Poll,
            TickPhase::Poll => TickPhase::Advance,
            TickPhase::Advance => TickPhase::Input,
            TickPhase::Input => TickPhase::Check,
            TickPhase::Check => TickPhase::Render,
        }
    }

    /// The step that a tick begins with.
    pub fn first() -> (r: TickPhase)
        ensures
            r == TickPhase::Render,
    {
        TickPhase::Render
    }

    /// The step after this one.
    pub fn next(self) -> (r: TickPhase)
        ensures
            r == self.spec_next(),
    {
        match self {
            TickPhase::Render => TickPhase::Act,
            TickPhase::Act => TickPhase::Poll,
            TickPhase::Poll => TickPhase::Advance,
            TickPhase::Advance => TickPhase::Input,
            TickPhase::Input => TickPhase::Check,
            TickPhase::Check => TickPhase::Render,
        }
    }
}

/// Within a tick every step is taken once, in order: the pending action is
/// acted on before the player is polled, the poll comes before the move to
/// the next track, and a key is taken only after that.
pub proof fn lemma_tick_order(phase: TickPhase)
    ensures
        phase != TickPhase::Check ==> phase.spec_next().rank() == phase.rank() + 1,
        phase == TickPhase::Check ==> phase.spec_next().rank() == 0,
        TickPhase::Act.rank() < TickPhase::Poll.rank() < TickPhase::Advance.rank()
            < TickPhase::Input.rank(),
{
}

/// Whether the session is over: the user has quit, or an interrupt has
/// come.
pub fn session_over(app: &App, interrupted: bool) -> (r: bool)
    ensures
        r == (app.should_quit || interrupted),
{
    app.should_quit || interrupted
}

/// Takes the pending action out of its slot. The slot is empty afterwards:
/// an action is acted on once.
pub fn take_action(app: &mut App) -> (action: AppAction)
    ensures
        action == old(app).pending_action,
        *final(app) == (App { pending_action: AppAction::Nothing, ..*old(app) }),
{
    let mut action = AppAction::Nothing;
    std::mem::swap(&mut app.pending_action, &mut action);
    action
}

/// What acting on an action asks of the caller.
#[derive(Debug)]
pub enum ActionStep {
    Nothing,
    /// Fetch until `ensure_page(page)` is ready, then call `finish_search`
    /// with `fresh`.
    Search { page: usize, fresh: bool },
    /// Start a background player and send it the request; hand the player
    /// to `adopt`.
    Launch(Request),
    /// Leave the interactive view, carry out the plan for the item titled
    /// `title`, come back, and call `foreground_done`.
    Foreground { plan: PlaybackPlan, title: String },
}

/// The plan for playing `track` with a blocking player.
pub open spec fn foreground_plan(pre: App, track: SearchResult, temp_dir: Seq<char>) -> crate::player::PlanView {
    playback_plan(
        pre.config.player,
        pre.config.download_mode,
        pre.config.audio_only,
        pre.config.spec_format(),
        pre.config.download_dir@,
        track.id@,
        track.title@.filter(title_filter()),
        temp_dir,
    )
}

/// What acting on `action` does to the session and to the cache, and what it
/// asks of the caller.
pub open spec fn action_step(
    pre: App,
    cache: CacheModel,
    action: AppAction,
    temp_dir: Seq<char>,
    post: App,
    cache_after: CacheModel,
    step: ActionStep,
) -> bool {
    match action {
        AppAction::Nothing => post == pre && cache_after == cache && step is Nothing,
        AppAction::FetchNextPage => post == pre && cache_after == cache && step == (
        ActionStep::Search { page: pre.page, fresh: false }),
        AppAction::NewSearch(query) => post == (App { query, ..pre }) && cache_after
            == cache.reset(query@) && step == (ActionStep::Search { page: 0, fresh: true }),
        AppAction::Play(index) => cache_after == cache && if index < pre.results@.len() {
            let track = pre.results@[index as int];
            &&& post == (App { queue: post.queue, ..pre })
            &&& post.queue@ == pre.queue@.pushed(track)
            &&& if pre.config.player == PlayerType::Mpv {
                match pre.player_manager {
                    Some(_) => step is Nothing,
                    None => step matches ActionStep::Launch(request) && request@ == start_request(
                        track,
                        false,
                    ),
                }
            } else {
                step matches ActionStep::Foreground { plan, title } && plan@ == foreground_plan(
                    pre,
                    track,
                    temp_dir,
                ) && title@ == track.title@
            }
        } else {
            post == pre && step is Nothing
        },
    }
}

/// Acts on the action taken from the slot. A new search resets the cache
/// and asks for the first page; a next page asks for the page shown; a play
/// puts the result into the queue and starts it: on a background player if
/// the configured one can be one and none is active, else in the
/// foreground.
pub fn begin_action(
    app: &mut App,
    search: &mut PaginatedSearch,
    action: AppAction,
    temp_dir: &str,
) -> (step: ActionStep)
    ensures
        action_step(
            *old(app),
            old(search)@,
            action,
            temp_dir@,
            *final(app),
            final(search)@,
            step,
        ),
        old(app).queue.wf() ==> final(app).queue.wf(),
{
    match action {
        AppAction::Nothing => ActionStep::Nothing,
        AppAction::FetchNextPage => ActionStep::Search { page: app.page, fresh: false },
        AppAction::NewSearch(query) => {
            search.reset(query.as_str());
            app.query = query;
            ActionStep::Search { page: 0, fresh: true }
        },
        AppAction::Play(index) => {
            if index >= app.results.len() {
                return ActionStep::Nothing;
            }
            let track = app.results[index].clone();
            app.queue.push_back(track.clone());
            if supports_background_playback(app.config.player) {
                match &app.player_manager {
                    Some(_) => ActionStep::Nothing,
                    None => ActionStep::Launch(
                        Request::Load {
                            url: watch_url_of(track.id.as_str()),
                            title: track.title,
                            paused: false,
                        },
                    ),
                }
            } else {
                let safe_title = track.safe_title();
                let plan = play_video(
                    &app.config,
                    track.id.as_str(),
                    track.title.as_str(),
                    safe_title.as_str(),
                    temp_dir,
                );
                ActionStep::Foreground { plan, title: track.title }
            }
        },
    }
}

/// What the end of a fetch does to the session: it shows what the cache
/// holds. After a new search it shows the first page. After a fetch for the
/// next page, a page that got no result gives way to the last page that has
/// one, and the user is to be told that there are no more.
pub open spec fn search_step(pre: App, cache: CacheModel, fresh: bool, post: App, notice: bool) -> bool {
    let len = cache.results.len() as int;
    let beyond = !fresh && pre.page > last_page(len, pre.page_size as int);
    &&& post == (App {
        results: post.results,
        total_results: len as usize,
        exhausted: cache.exhausted,
        loading: false,
        page: if fresh {
            0
        } else if beyond {
            last_page(len, pre.page_size as int) as usize
        } else {
            pre.page
        },
        selected_index: if fresh {
            0
        } else {
            pre.selected_index
        },
        ..pre
    })
    &&& records_of(post.results@) == cache.results
    &&& notice == beyond
}

/// Shows what the cache holds once a fetch is over.
pub fn finish_search(app: &mut App, search: &PaginatedSearch, fresh: bool) -> (notice: bool)
    ensures
        search_step(*old(app), search@, fresh, *final(app), notice),
{
    let found = search.results();
    let copy = found.clone();
    let len = copy.len();
    app.results = copy;
    app.total_results = len;
    app.exhausted = search.exhausted();
    app.loading = false;
    if fresh {
        app.page = 0;
        app.selected_index = 0;
        return false;
    }
    let last = if len == 0 || app.page_size == 0 {
        0
    } else {
        (len - 1) / app.page_size
    };
    if app.page > last {
        app.page = last;
        true
    } else {
        false
    }
}

/// Takes the item that was played in the foreground out of the queue.
pub fn foreground_done(app: &mut App)
    ensures
        *final(app) == (App { queue: final(app).queue, ..*old(app) }),
        final(app).queue@ == old(app).queue@.popped(),
        old(app).queue.wf() ==> final(app).queue.wf(),
{
    app.queue.pop_front();
}

/// Whether the active player said at the last poll that its item has ended.
pub open spec fn track_finished(app: App) -> bool {
    app.player_manager matches Some(pm) && pm@.status.eof_reached
}

/// After the poll: where the player has reached the end of its item, the
/// session moves on from the head of the queue in the same tick; otherwise
/// nothing happens.
pub fn after_poll(app: &mut App) -> (effect: Effect)
    ensures
        track_finished(*old(app)) ==> next_step(*old(app), false, *final(app), effect),
        !track_finished(*old(app)) ==> *final(app) == *old(app) && effect is Nothing,
        old(app).queue.wf() ==> final(app).queue.wf(),
{
    let finished = match &app.player_manager {
        Some(pm) => pm.is_eof(),
        None => false,
    };
    if finished {
        app.handle_next_video(false)
    } else {
        Effect::Nothing
    }
}

/// What the outcome of a request does to the session: the active player
/// takes it in; where the request was strict and failed, the player is given
/// up and what it held is to be released.
pub open spec fn settle_step(
    pre: App,
    request: RequestView,
    delivered: bool,
    strict: bool,
    post: App,
    released: Option<Teardown>,
) -> bool {
    match pre.player_manager {
        None => post == pre && released is None,
        Some(pm) => {
            &&& post == (App { player_manager: post.player_manager, ..pre })
            &&& if strict && pm@.completion(delivered) is Err {
                &&& post.player_manager is None
                &&& released matches Some(teardown)
                &&& releases(pm@, teardown)
            } else {
                &&& post.player_manager matches Some(now)
                &&& now@ == pm@.completed(request, delivered)
                &&& released is None
            }
        },
    }
}

/// Records what became of a request to the active player.
pub fn settle(app: &mut App, request: &Request, delivered: bool, strict: bool) -> (released: Option<
    Teardown,
>)
    ensures
        settle_step(*old(app), request@, delivered, strict, *final(app), released),
{
    match app.player_manager.take() {
        Some(pm) => {
            let mut pm = pm;
            let outcome = pm.complete(request, delivered);
            if strict && outcome.is_err() {
                Some(pm.terminate())
            } else {
                app.player_manager = Some(pm);
                None
            }
        },
        None => None,
    }
}

/// Takes in the player that was started for the session: it becomes the
/// active player if starting it worked and none is active; otherwise it is
/// given up and what it held is to be released.
pub fn adopt(app: &mut App, player: PlayerManager, started: bool) -> (released: Option<Teardown>)
    ensures
        *final(app) == (App { player_manager: final(app).player_manager, ..*old(app) }),
        started && old(app).player_manager is None ==> final(app).player_manager == Some(player)
            && released is None,
        !(started && old(app).player_manager is None) ==> final(app).player_manager == old(app).player_manager,
        !(started && old(app).player_manager is None) ==> (released matches Some(teardown)
            && releases(player@, teardown)),
{
    if started && app.player_manager.is_none() {
        app.player_manager = Some(player);
        None
    } else {
        let mut player = player;
        Some(player.terminate())
    }
}

} // verus!
