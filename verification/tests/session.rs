use youtui::cleanup::{is_interrupted, temp_dir_fate, Interrupt, SignalResponse, TempDirFate};
use youtui::config::Config;
use youtui::display::{
    get_selection, new_search, page_info, result_label, settle_page, total_info, total_pages,
    Selection, UserAction,
};
use youtui::ipc::Property;
use youtui::player::{PlaybackPlan, PlayerType};
use youtui::player_manager::{Link, PlayerManager, Request};
use youtui::search::{FetchStep, PaginatedSearch, SearchResult};
use youtui::ui::app::{App, AppAction, Effect, FocusedPanel, InputMode};
use youtui::ui::events::{handle_key_event, KeyCode, KeyEvent};
use youtui::ui::layout::{format_duration, is_now_playing, progress_cells, results_title};
use youtui::ui::runner::{
    adopt, after_poll, begin_action, finish_search, foreground_done, poll_timeout,
    session_over, settle, take_action, tick_over, ActionStep, TickPhase, TICK_RATE_MS,
};

fn results(count: usize) -> Vec<SearchResult> {
    (0..count)
        .map(|i| SearchResult {
            title: format!("Video {}", i + 1),
            duration: "5:00".to_string(),
            channel: "Test Channel".to_string(),
            views: "1K".to_string(),
            id: format!("id{}", i + 1),
        })
        .collect()
}

fn output(from: usize, count: usize) -> String {
    (from..from + count).map(|n| format!("Video {n}|5:00|Ch|1|id{n}|300\n")).collect()
}

fn app() -> App {
    App::new("first".to_string(), 10, Config::with_home(None))
}

fn connected() -> PlayerManager {
    let mut pm = PlayerManager::new(7);
    pm.spawned();
    pm.opened(true).unwrap();
    pm
}

fn finished_player() -> PlayerManager {
    let mut pm = connected();
    pm.complete(&pm.play("u", "t").request, true).unwrap();
    pm.update(Property::EofReached, Some("{\"data\":true,\"error\":\"success\"}"));
    assert!(pm.is_eof());
    pm
}

fn queue_ids(app: &App) -> Vec<String> {
    app.queue.iter().map(|t| t.id.clone()).collect()
}

fn run_search(app: &mut App, search: &mut PaginatedSearch, page: usize, fresh: bool, per_batch: usize) -> bool {
    loop {
        match search.ensure_page(page) {
            FetchStep::Ready(_) => break,
            FetchStep::Fetch(request) => {
                let wanted = request.end + 1 - request.start;
                search.absorb(&output(request.start, wanted.min(per_batch)));
            }
        }
    }
    finish_search(app, search, fresh)
}

#[test]
fn a_new_session() {
    let a = app();
    assert_eq!(a.query, "first");
    assert_eq!(a.page_size, 10);
    assert_eq!((a.page, a.selected_index, a.total_results), (0, 0, 0));
    assert_eq!(a.focused_panel, FocusedPanel::Results);
    assert_eq!(a.input_mode, InputMode::Browse);
    assert_eq!(a.pending_action, AppAction::Nothing);
    assert_eq!(a.settings_selected_index, 2);
    assert!(a.player_manager.is_none() && a.queue.is_empty() && a.results.is_empty());
    assert!(!a.should_quit && !a.loading && !a.settings_open && !a.exhausted);
    assert!(a.settings_editing.is_none() && a.results_per_page_input.is_none());
}

#[test]
fn pages_of_results() {
    let mut a = app();
    a.results = results(25);
    assert_eq!(a.current_page_results().len(), 10);
    assert_eq!(a.current_page_results()[0].id, "id1");
    assert_eq!(a.page_bounds(), (0, 10));
    assert!(a.has_next_page() && !a.has_prev_page());
    a.page = 2;
    assert_eq!(a.current_page_results().len(), 5);
    assert_eq!(a.current_page_results()[4].id, "id25");
    assert!(a.has_next_page() && a.has_prev_page());
    a.exhausted = true;
    assert!(!a.has_next_page());
    a.page = 1;
    assert!(a.has_next_page());
    a.page = 7;
    assert!(a.current_page_results().is_empty());
    assert_eq!(a.page_bounds(), (25, 25));
    a.page = usize::MAX;
    a.page_size = usize::MAX;
    assert!(a.current_page_results().is_empty());
    assert!(!a.has_next_page());
}

#[test]
fn the_pending_action_is_taken_once() {
    let mut a = app();
    a.pending_action = AppAction::Play(3);
    assert_eq!(take_action(&mut a), AppAction::Play(3));
    assert_eq!(a.pending_action, AppAction::Nothing);
    assert_eq!(take_action(&mut a), AppAction::Nothing);
}

#[test]
fn a_new_search_resets_the_cache_and_shows_the_first_page() {
    let mut a = app();
    let mut search = PaginatedSearch::new("first", 10, false);
    run_search(&mut a, &mut search, 0, true, 100);
    a.page = 3;
    a.selected_index = 4;
    a.loading = true;
    let step = begin_action(&mut a, &mut search, AppAction::NewSearch("second".to_string()), "/tmp");
    assert!(matches!(step, ActionStep::Search { page: 0, fresh: true }));
    assert_eq!(a.query, "second");
    assert_eq!(search.query(), "second");
    assert!(search.results().is_empty());
    assert_eq!(a.results.len(), 10);
    let notice = run_search(&mut a, &mut search, 0, true, 7);
    assert!(!notice);
    assert_eq!((a.page, a.selected_index), (0, 0));
    assert_eq!(a.results.len(), 7);
    assert_eq!(a.total_results, 7);
    assert!(a.exhausted);
    assert!(!a.loading);
}

#[test]
fn a_next_page_without_results_falls_back_with_a_notice() {
    let mut a = app();
    let mut search = PaginatedSearch::new("first", 10, false);
    run_search(&mut a, &mut search, 0, true, 100);
    assert_eq!(a.results.len(), 10);
    handle_key_event(&mut a, KeyEvent::from(KeyCode::Char('n')));
    assert_eq!(a.page, 1);
    let action = take_action(&mut a);
    assert_eq!(action, AppAction::FetchNextPage);
    let step = begin_action(&mut a, &mut search, action, "/tmp");
    assert!(matches!(step, ActionStep::Search { page: 1, fresh: false }));
    let notice = run_search(&mut a, &mut search, 1, false, 0);
    assert!(notice);
    assert_eq!(a.page, 0);
    assert_eq!(a.results.len(), 10);
    assert!(a.exhausted);

    let mut b = app();
    let mut search = PaginatedSearch::new("first", 10, false);
    run_search(&mut b, &mut search, 0, true, 100);
    b.page = 1;
    b.selected_index = 2;
    assert!(!run_search(&mut b, &mut search, 1, false, 3));
    assert_eq!((b.page, b.selected_index), (1, 2));
    assert_eq!(b.total_results, 13);
}

#[test]
fn play_queues_the_result_and_launches_a_background_player() {
    let mut a = app();
    let mut search = PaginatedSearch::new("first", 10, false);
    a.results = results(3);
    match begin_action(&mut a, &mut search, AppAction::Play(1), "/tmp") {
        ActionStep::Launch(Request::Load { url, title, paused }) => {
            assert_eq!(url, "https://www.youtube.com/watch?v=id2");
            assert_eq!(title, "Video 2");
            assert!(!paused);
        }
        other => panic!("{:?}", other),
    }
    assert_eq!(queue_ids(&a), vec!["id2"]);
    assert_eq!(a.results.len(), 3);

    a.player_manager = Some(connected());
    assert!(matches!(
        begin_action(&mut a, &mut search, AppAction::Play(0), "/tmp"),
        ActionStep::Nothing
    ));
    assert_eq!(queue_ids(&a), vec!["id2", "id1"]);
    assert!(matches!(
        begin_action(&mut a, &mut search, AppAction::Play(3), "/tmp"),
        ActionStep::Nothing
    ));
    assert_eq!(a.queue.len(), 2);
    assert!(matches!(
        begin_action(&mut a, &mut search, AppAction::Nothing, "/tmp"),
        ActionStep::Nothing
    ));
}

#[test]
fn play_with_a_blocking_player_goes_to_the_foreground() {
    let mut a = app();
    a.config.player = PlayerType::Vlc;
    let mut search = PaginatedSearch::new("first", 10, false);
    a.results = results(2);
    a.results[0].title = "A/B: c".to_string();
    match begin_action(&mut a, &mut search, AppAction::Play(0), "/tmp/d") {
        ActionStep::Foreground { plan: PlaybackPlan::FetchThenPlay { output_path, player, .. }, title } => {
            assert_eq!(title, "A/B: c");
            assert_eq!(output_path, "/tmp/d/AB c.mp4");
            assert_eq!(player, PlayerType::Vlc);
        }
        other => panic!("{:?}", other),
    }
    assert_eq!(queue_ids(&a), vec!["id1"]);
    foreground_done(&mut a);
    assert!(a.queue.is_empty());
    foreground_done(&mut a);
    assert!(a.queue.is_empty());
}

#[test]
fn a_finished_track_makes_way_for_the_next_in_the_same_tick() {
    let mut a = app();
    for r in results(2) {
        a.queue.push_back(r);
    }
    a.queue_selected_index = 1;
    a.player_manager = Some(finished_player());
    match after_poll(&mut a) {
        Effect::Send { dispatch, strict } => {
            assert!(strict);
            assert!(!dispatch.connect_first);
            match &dispatch.request {
                Request::Load { url, title, paused } => {
                    assert_eq!(url, "https://www.youtube.com/watch?v=id2");
                    assert_eq!(title, "Video 2");
                    assert!(!paused);
                }
                other => panic!("{:?}", other),
            }
            assert!(settle(&mut a, &dispatch.request, true, strict).is_none());
        }
        other => panic!("{:?}", other),
    }
    assert_eq!(queue_ids(&a), vec!["id2"]);
    assert_eq!(a.queue_selected_index, 0);
    let pm = a.player_manager.as_ref().unwrap();
    assert!(!pm.is_eof());
    assert_eq!(pm.status().title, "Video 2");
    assert!(matches!(after_poll(&mut a), Effect::Nothing));
    assert_eq!(a.queue.len(), 1);
}

#[test]
fn the_next_track_is_held_paused_when_the_queue_does_not_play_on() {
    let mut a = app();
    a.config.auto_play_queue = false;
    for r in results(2) {
        a.queue.push_back(r);
    }
    a.player_manager = Some(finished_player());
    match after_poll(&mut a) {
        Effect::Send { dispatch, .. } => {
            assert!(matches!(dispatch.request, Request::Load { paused: true, .. }));
            assert_eq!(dispatch.request.commands().len(), 2);
        }
        other => panic!("{:?}", other),
    }
    let mut b = app();
    b.config.auto_play_queue = false;
    for r in results(2) {
        b.queue.push_back(r);
    }
    match b.handle_next_video(true) {
        Effect::Launch(Request::Load { paused, url, .. }) => {
            assert!(!paused);
            assert_eq!(url, "https://www.youtube.com/watch?v=id2");
        }
        other => panic!("{:?}", other),
    }
}

#[test]
fn the_player_is_given_up_when_the_queue_runs_out() {
    let mut a = app();
    for r in results(1) {
        a.queue.push_back(r);
    }
    a.player_manager = Some(finished_player());
    match after_poll(&mut a) {
        Effect::Release(teardown) => {
            assert!(teardown.kill);
            assert_eq!(teardown.remove.as_deref(), Some("/tmp/youtui-7.sock"));
        }
        other => panic!("{:?}", other),
    }
    assert!(a.player_manager.is_none());
    assert!(a.queue.is_empty());
    assert!(matches!(after_poll(&mut a), Effect::Nothing));
    assert!(matches!(a.handle_next_video(false), Effect::Nothing));
}

#[test]
fn a_strict_request_that_fails_gives_the_player_up() {
    let mut a = app();
    a.player_manager = Some(connected());
    let request = Request::CyclePause;
    assert!(settle(&mut a, &request, false, false).is_none());
    assert!(a.player_manager.is_some());
    assert!(!a.player_manager.as_ref().unwrap().status().paused);
    assert!(settle(&mut a, &request, true, true).is_none());
    assert!(a.player_manager.as_ref().unwrap().status().paused);
    let released = settle(&mut a, &request, false, true).unwrap();
    assert!(released.kill);
    assert!(a.player_manager.is_none());
    assert!(settle(&mut a, &request, true, true).is_none());
}

#[test]
fn a_launched_player_is_adopted_if_it_started() {
    let mut a = app();
    assert!(adopt(&mut a, connected(), true).is_none());
    assert_eq!(a.player_manager.as_ref().unwrap().link(), Link::Connected);
    let second = adopt(&mut a, connected(), true).unwrap();
    assert!(second.kill);
    let mut b = app();
    let mut failed = PlayerManager::new(9);
    failed.spawned();
    let released = adopt(&mut b, failed, false).unwrap();
    assert!(released.kill);
    assert_eq!(released.remove.as_deref(), Some("/tmp/youtui-9.sock"));
    assert!(b.player_manager.is_none());
    let never = adopt(&mut b, PlayerManager::new(9), false).unwrap();
    assert!(!never.kill);
}

#[test]
fn the_steps_of_a_tick_come_in_order() {
    let mut phase = TickPhase::first();
    let mut seen = vec![phase];
    for _ in 0..6 {
        phase = phase.next();
        seen.push(phase);
    }
    assert_eq!(
        seen,
        vec![
            TickPhase::Render,
            TickPhase::Act,
            TickPhase::Poll,
            TickPhase::Advance,
            TickPhase::Input,
            TickPhase::Check,
            TickPhase::Render,
        ]
    );
    let mut a = app();
    assert!(!session_over(&a, false));
    assert!(session_over(&a, true));
    a.should_quit = true;
    assert!(session_over(&a, false));
}

#[test]
fn ticks() {
    assert_eq!(TICK_RATE_MS, 250);
    assert_eq!(poll_timeout(0), 250);
    assert_eq!(poll_timeout(100), 150);
    assert_eq!(poll_timeout(250), 0);
    assert_eq!(poll_timeout(u64::MAX), 0);
    assert!(!tick_over(249) && tick_over(250));
}

#[test]
fn selections() {
    assert_eq!(get_selection("q\n", 0, 10, true, true), Selection::Quit);
    assert_eq!(get_selection(" n ", 0, 10, true, false), Selection::NextPage);
    assert_eq!(get_selection("n", 0, 10, false, false), Selection::Invalid);
    assert_eq!(get_selection("p", 10, 10, false, true), Selection::PrevPage);
    assert_eq!(get_selection("p", 0, 10, false, false), Selection::Invalid);
    assert_eq!(get_selection("s", 0, 10, false, false), Selection::AskQuery);
    assert_eq!(get_selection("11\n", 10, 10, false, false), Selection::Play(10));
    assert_eq!(get_selection("20", 10, 10, false, false), Selection::Play(19));
    assert_eq!(get_selection("+12", 10, 10, false, false), Selection::Play(11));
    assert_eq!(get_selection("10", 10, 10, false, false), Selection::OutOfRange);
    assert_eq!(get_selection("21", 10, 10, false, false), Selection::OutOfRange);
    assert_eq!(get_selection("0", 0, 10, false, false), Selection::OutOfRange);
    assert_eq!(get_selection("1", 0, 0, false, false), Selection::OutOfRange);
    assert_eq!(get_selection("", 0, 10, true, true), Selection::Invalid);
    assert_eq!(get_selection("Q", 0, 10, true, true), Selection::Invalid);
    assert_eq!(get_selection("1 2", 0, 10, true, true), Selection::Invalid);
    assert_eq!(get_selection("99999999999999999999999", 0, 10, true, true), Selection::Invalid);
    assert_eq!(get_selection("5", usize::MAX, usize::MAX, true, true), Selection::OutOfRange);

    assert!(matches!(Selection::Quit.action(), Some(UserAction::Quit)));
    assert!(matches!(Selection::NextPage.action(), Some(UserAction::NextPage)));
    assert!(matches!(Selection::PrevPage.action(), Some(UserAction::PrevPage)));
    assert!(matches!(Selection::Play(4).action(), Some(UserAction::Play(4))));
    assert!(Selection::AskQuery.action().is_none());
    assert!(Selection::OutOfRange.action().is_none());
    assert!(Selection::Invalid.action().is_none());
    match new_search("  lofi beats \n") {
        Some(UserAction::NewSearch(q)) => assert_eq!(q, "lofi beats"),
        other => panic!("{:?}", other),
    }
    assert!(new_search(" \n").is_none());
}

#[test]
fn headings() {
    assert_eq!(page_info(0, 10, 25, true), "(page 1/3)");
    assert_eq!(page_info(2, 10, 30, true), "(page 3/3)");
    assert_eq!(page_info(0, 10, 0, true), "(page 1/0)");
    assert_eq!(page_info(4, 10, 25, false), "(page 5)");
    assert_eq!(page_info(0, 0, 25, true), "(page 1/0)");
    assert_eq!(total_info(25, true), "[25 total]");
    assert_eq!(total_info(25, false), "[25+ loaded]");
    assert_eq!(result_label(0), "  1. ");
    assert_eq!(result_label(41), " 42. ");
    assert_eq!(result_label(998), "999. ");
    assert_eq!(result_label(999), "1000. ");
    assert_eq!(total_pages(0, 10), 0);
    assert_eq!(total_pages(1, 10), 1);
    assert_eq!(total_pages(10, 10), 1);
    assert_eq!(total_pages(11, 10), 2);
    assert_eq!(total_pages(usize::MAX, 1), usize::MAX);
    assert_eq!(settle_page(3, 25, 10), (2, true));
    assert_eq!(settle_page(2, 25, 10), (2, false));
    assert_eq!(settle_page(1, 0, 10), (0, true));
    assert_eq!(settle_page(0, 0, 10), (0, false));
    assert_eq!(settle_page(1, 10, 10), (0, true));
    assert_eq!(settle_page(1, 10, 0), (0, true));

    let mut a = app();
    a.total_results = 25;
    a.page = 1;
    assert_eq!(results_title(&a), "Page 2 | 25+ loaded");
    a.exhausted = true;
    assert_eq!(results_title(&a), "Page 2/3 | 25 total");
    assert!(!is_now_playing(&a, 0));
    a.player_manager = Some(connected());
    assert!(is_now_playing(&a, 0) && !is_now_playing(&a, 1));
}

#[test]
fn durations_and_progress() {
    assert_eq!(format_duration(0), "0:00");
    assert_eq!(format_duration(59), "0:59");
    assert_eq!(format_duration(61), "1:01");
    assert_eq!(format_duration(3599), "59:59");
    assert_eq!(format_duration(3600), "1:00:00");
    assert_eq!(format_duration(3725), "1:02:05");
    assert_eq!(format_duration(360000), "100:00:00");
    assert_eq!(progress_cells(0, 100, 40), (0, 40));
    assert_eq!(progress_cells(50, 100, 40), (20, 20));
    assert_eq!(progress_cells(99, 100, 40), (39, 1));
    assert_eq!(progress_cells(100, 100, 40), (40, 0));
    assert_eq!(progress_cells(500, 100, 40), (40, 0));
    assert_eq!(progress_cells(5, 0, 40), (0, 40));
    assert_eq!(progress_cells(1, 3, 0), (0, 0));
    assert_eq!(progress_cells(u64::MAX, 1, usize::MAX), (usize::MAX, 0));
}

#[test]
fn the_second_interrupt_forces_the_exit() {
    let mut token = Interrupt::new();
    assert!(!is_interrupted(&token));
    assert_eq!(token.signal(), SignalResponse::WindUp);
    assert!(is_interrupted(&token));
    assert_eq!(token.signal(), SignalResponse::ForceExit);
    assert_eq!(token.signal(), SignalResponse::ForceExit);
    assert!(is_interrupted(&token));
    assert_eq!(temp_dir_fate(true), TempDirFate::Keep);
    assert_eq!(temp_dir_fate(false), TempDirFate::Remove);
}
