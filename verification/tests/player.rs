use youtui::config::Config;
use youtui::ipc::{
    command_line, frame, get_property, property_value, send_command, IpcError, Property, Scalar,
};
use youtui::player::{
    after_exit, download_invocation, file_player_invocation, find_downloaded_file,
    interpret_exit, pick_player, play_video, supports_background_playback, usable_download,
    ExitKind, PlaybackPlan, PlaybackResult, PlayerType, RETURN_CODE,
};
use youtui::player_manager::{
    clamped_volume, ConnectStep, Link, Phase, PlaybackStatus, PlayerError, PlayerManager, Request,
    CONNECT_POLL_MS, CONNECT_TIMEOUT_MS,
};

fn connected() -> PlayerManager {
    let mut pm = PlayerManager::new(4242);
    pm.spawned();
    assert_eq!(pm.opened(true), Ok(()));
    pm
}

fn ok(data: &str) -> String {
    format!("{{\"data\":{data},\"error\":\"success\"}}\n")
}

#[test]
fn only_mpv_plays_in_the_background() {
    assert!(supports_background_playback(PlayerType::Mpv));
    assert!(!supports_background_playback(PlayerType::Vlc));
    assert!(!supports_background_playback(PlayerType::Mplayer));
    assert_eq!(PlayerType::Mpv.name(), "mpv");
    assert_eq!(PlayerType::Vlc.to_string(), "vlc");
    assert_eq!(PlayerType::Mplayer.to_string(), "mplayer");
}

#[test]
fn the_first_installed_player_is_picked() {
    assert_eq!(pick_player(true, true, true), Some(PlayerType::Mpv));
    assert_eq!(pick_player(false, true, true), Some(PlayerType::Vlc));
    assert_eq!(pick_player(false, false, true), Some(PlayerType::Mplayer));
    assert_eq!(pick_player(false, false, false), None);
}

#[test]
fn exit_codes() {
    assert_eq!(RETURN_CODE, 42);
    assert_eq!(interpret_exit(42), ExitKind::ReturnRequested);
    assert_eq!(interpret_exit(0), ExitKind::Completed);
    assert_eq!(interpret_exit(1), ExitKind::Failed(1));
    assert_eq!(interpret_exit(-1), ExitKind::Failed(-1));
    for kind in [ExitKind::ReturnRequested, ExitKind::Completed, ExitKind::Failed(9)] {
        assert!(matches!(after_exit(kind), PlaybackResult::ReturnToMenu));
    }
}

#[test]
fn download_mode_fetches_into_the_download_directory() {
    let mut config = Config::with_home(Some("/home/u"));
    config.download_mode = true;
    config.audio_only = true;
    match play_video(&config, "abc", "A title", "A title", "/tmp/t") {
        PlaybackPlan::Download { fetch } => {
            assert_eq!(fetch.program, "yt-dlp");
            assert_eq!(
                fetch.args,
                vec![
                    "-f",
                    "bestaudio/best",
                    "-x",
                    "--audio-format",
                    "mp3",
                    "--audio-quality",
                    "0",
                    "-o",
                    "/home/u/Downloads/%(title)s.%(ext)s",
                    "https://www.youtube.com/watch?v=abc",
                ]
            );
        }
        other => panic!("{:?}", other),
    }
}

#[test]
fn mpv_streams_with_a_return_binding() {
    let mut config = Config::with_home(None);
    config.bandwidth_limit = true;
    match play_video(&config, "abc", "t", "t", "/tmp/t") {
        PlaybackPlan::Stream { input_conf, bindings, play } => {
            assert_eq!(input_conf, "/tmp/t/mpv-input.conf");
            assert_eq!(bindings, "r quit 42\n");
            assert_eq!(play.program, "mpv");
            assert_eq!(
                play.args,
                vec![
                    "--ytdl-format=bestvideo[height<=360]+bestaudio/best[height<=360]/best",
                    "--input-conf=/tmp/t/mpv-input.conf",
                    "https://www.youtube.com/watch?v=abc",
                ]
            );
        }
        other => panic!("{:?}", other),
    }
    config.audio_only = true;
    config.custom_format = "mine".to_string();
    match play_video(&config, "abc", "t", "t", "/tmp/t/") {
        PlaybackPlan::Stream { play, .. } => assert_eq!(
            play.args,
            vec![
                "--no-video",
                "--ytdl-format=mine",
                "--input-conf=/tmp/t/mpv-input.conf",
                "https://www.youtube.com/watch?v=abc",
            ]
        ),
        other => panic!("{:?}", other),
    }
}

#[test]
fn other_players_play_a_fetched_file() {
    let mut config = Config::with_home(None);
    config.player = PlayerType::Vlc;
    match play_video(&config, "abc", "My: title", "My title", "/tmp/t") {
        PlaybackPlan::FetchThenPlay { fetch, output_path, player } => {
            assert_eq!(output_path, "/tmp/t/My title.mp4");
            assert_eq!(player, PlayerType::Vlc);
            assert_eq!(
                fetch.args,
                vec![
                    "-f",
                    "bestvideo+bestaudio/best",
                    "-o",
                    "/tmp/t/My title.mp4",
                    "https://www.youtube.com/watch?v=abc",
                ]
            );
        }
        other => panic!("{:?}", other),
    }
    config.player = PlayerType::Mplayer;
    config.audio_only = true;
    match play_video(&config, "abc", "x", "x", "/tmp/t") {
        PlaybackPlan::FetchThenPlay { output_path, player, .. } => {
            assert_eq!(output_path, "/tmp/t/x.mp3");
            assert_eq!(player, PlayerType::Mplayer);
        }
        other => panic!("{:?}", other),
    }
    let direct = download_invocation("f", false, "o", "u");
    assert_eq!(direct.args, vec!["-f", "f", "-o", "o", "u"]);
}

#[test]
fn file_players() {
    let vlc = file_player_invocation(PlayerType::Vlc, "/tmp/a.mp4").unwrap();
    assert_eq!(vlc.program, "vlc");
    assert_eq!(vlc.args, vec!["--play-and-exit", "--no-video-title-show", "/tmp/a.mp4"]);
    let mplayer = file_player_invocation(PlayerType::Mplayer, "/tmp/a.mp4").unwrap();
    assert_eq!(mplayer.program, "mplayer");
    assert_eq!(mplayer.args, vec!["-quiet", "/tmp/a.mp4"]);
    assert!(file_player_invocation(PlayerType::Mpv, "x").is_none());
}

#[test]
fn downloads_are_told_by_their_extension() {
    for name in ["a.mp4", "a.b.webm", ".a.b", "a.", "a.partx", "x.PART"] {
        assert!(usable_download(name), "{name}");
        let ext = std::path::Path::new(name).extension().and_then(|e| e.to_str());
        assert!(ext.is_some(), "{name}");
    }
    for name in ["a.part", "mpv-input.conf", "noext", ".hidden", "", "..", "a.b.part"] {
        assert!(!usable_download(name), "{name}");
    }
    for name in ["noext", ".hidden", "", ".."] {
        assert!(std::path::Path::new(name).extension().is_none());
    }
    let names: Vec<String> =
        ["mpv-input.conf", "x.part", "song.mp3", "other.mp4"].iter().map(|s| s.to_string()).collect();
    assert_eq!(find_downloaded_file(&names), Some(2));
    assert_eq!(find_downloaded_file(&names[..2].to_vec()), None);
    assert_eq!(find_downloaded_file(&Vec::new()), None);
}

#[test]
fn commands_are_framed_as_json_lines() {
    assert_eq!(
        send_command(&["loadfile", "https://x/?v=1"]).unwrap(),
        "{\"command\":[\"loadfile\",\"https://x/?v=1\"]}\n"
    );
    assert_eq!(send_command(&["stop"]).unwrap(), "{\"command\":[\"stop\"]}\n");
    assert_eq!(send_command(&[]).unwrap(), "{\"command\":[]}\n");
    let words = vec!["get_property".to_string(), "a\"b\\c\n".to_string()];
    assert_eq!(
        command_line(&words).unwrap(),
        "{\"command\":[\"get_property\",\"a\\\"b\\\\c\\n\"]}\n"
    );
}

#[test]
fn a_refusal_of_the_encoder_is_an_encoding_error() {
    let refusal = serde_json::from_str::<serde_json::Value>("{").unwrap_err();
    assert_eq!(frame(Err(refusal)), Err(IpcError::Encoding));
    assert_eq!(frame(Ok("{}".to_string())), Ok("{}\n".to_string()));
}

#[test]
fn property_names() {
    assert_eq!(Property::TimePos.name(), "time-pos");
    assert_eq!(Property::Duration.name(), "duration");
    assert_eq!(Property::Pause.name(), "pause");
    assert_eq!(Property::Volume.name(), "volume");
    assert_eq!(Property::EofReached.name(), "eof-reached");
}

#[test]
fn replies_are_read() {
    assert!(matches!(get_property(&ok("true")), Ok(Scalar::Flag(true))));
    assert!(matches!(get_property(&ok("false")), Ok(Scalar::Flag(false))));
    match get_property(&ok("12.5")) {
        Ok(Scalar::Number(n)) => assert_eq!(n, "12.5"),
        other => panic!("{:?}", other),
    }
    match get_property(&ok("75")) {
        Ok(Scalar::Number(n)) => assert_eq!(n, "75"),
        other => panic!("{:?}", other),
    }
    match get_property(&ok("-3")) {
        Ok(Scalar::Number(n)) => assert_eq!(n, "-3"),
        other => panic!("{:?}", other),
    }
    match get_property(&ok("\"a title\"")) {
        Ok(Scalar::Text(t)) => assert_eq!(t, "a title"),
        other => panic!("{:?}", other),
    }
    assert!(matches!(get_property(&ok("null")), Ok(Scalar::Other)));
    assert!(matches!(get_property(&ok("[1]")), Ok(Scalar::Other)));
    assert!(matches!(get_property("{\"error\":\"success\"}"), Ok(Scalar::Other)));
}

#[test]
fn replies_without_success_carry_no_value() {
    for reply in [
        "{\"error\":\"property unavailable\"}\n",
        "{\"data\":1,\"error\":\"property not found\"}",
        "{\"data\":1}",
        "{\"data\":1,\"error\":true}",
        "{\"data\":1,\"error\":null}",
        "[\"error\",\"success\"]",
        "\"success\"",
        "",
        "\n",
        "{\"error\":\"success\"",
        "not json",
        "{\"error\":\"Success\",\"data\":1}",
    ] {
        assert!(matches!(get_property(reply), Err(IpcError::Unavailable)), "{reply:?}");
    }
}

#[test]
fn property_value_goes_by_the_error_member() {
    let success = || Some(Scalar::Text("success".to_string()));
    assert!(matches!(property_value(success(), Some(Scalar::Flag(true))), Ok(Scalar::Flag(true))));
    assert!(matches!(property_value(success(), None), Ok(Scalar::Other)));
    assert!(matches!(
        property_value(Some(Scalar::Text("no".to_string())), Some(Scalar::Flag(true))),
        Err(IpcError::Unavailable)
    ));
    assert!(matches!(property_value(None, Some(Scalar::Flag(true))), Err(IpcError::Unavailable)));
    assert!(matches!(
        property_value(Some(Scalar::Flag(true)), Some(Scalar::Flag(true))),
        Err(IpcError::Unavailable)
    ));
}

#[test]
fn a_new_engine_has_its_own_endpoint_and_default_status() {
    let pm = PlayerManager::new(4242);
    assert_eq!(pm.socket_path(), "/tmp/youtui-4242.sock");
    assert_eq!(PlayerManager::new(0).socket_path(), "/tmp/youtui-0.sock");
    assert_eq!(PlayerManager::new(u32::MAX).socket_path(), "/tmp/youtui-4294967295.sock");
    assert_eq!(pm.link(), Link::Unstarted);
    assert_eq!(pm.phase(), Phase::Unstarted);
    let s = pm.status();
    assert!(!s.playing && !s.paused && !s.eof_reached);
    assert_eq!((s.time_pos, s.duration, s.volume), (0, 0, 100));
    assert!(s.title.is_empty());
    let launch = pm.launch();
    assert_eq!(launch.program, "mpv");
    assert_eq!(
        launch.args,
        vec!["--idle", "--input-ipc-server=/tmp/youtui-4242.sock", "--no-video"]
    );
    let d = PlaybackStatus::default();
    assert_eq!((d.volume, d.playing, d.title.as_str()), (100, false, ""));
}

#[test]
fn connecting_waits_for_the_endpoint_and_gives_up_after_the_timeout() {
    assert_eq!((CONNECT_TIMEOUT_MS, CONNECT_POLL_MS), (2000, 100));
    let mut pm = PlayerManager::new(1);
    assert_eq!(pm.connect(true, 0), ConnectStep::Failed(PlayerError::NotRunning));
    pm.spawned();
    assert_eq!(pm.phase(), Phase::Spawned);
    assert_eq!(pm.connect(false, 0), ConnectStep::Wait(100));
    assert_eq!(pm.connect(false, 2000), ConnectStep::Wait(100));
    assert_eq!(pm.connect(false, 2001), ConnectStep::Failed(PlayerError::ConnectionTimeout));
    assert_eq!(pm.connect(true, 5000), ConnectStep::Open);
    assert_eq!(pm.opened(false), Err(PlayerError::ConnectFailed));
    assert_eq!(pm.link(), Link::Spawned);
    assert_eq!(pm.opened(true), Ok(()));
    assert_eq!(pm.phase(), Phase::ConnectedIdle);
    assert_eq!(pm.connect(false, 9999), ConnectStep::Connected);
    assert_eq!(pm.opened(false), Ok(()));
    pm.spawned();
    assert_eq!(pm.link(), Link::Connected);
    assert_eq!(PlayerManager::new(1).opened(true), Err(PlayerError::NotRunning));
}

#[test]
fn play_before_connect_connects_first_and_a_timeout_leaves_the_status_alone() {
    let mut pm = PlayerManager::new(1);
    pm.spawned();
    let dispatch = pm.play("https://x", "Song");
    assert!(dispatch.connect_first);
    assert_eq!(pm.connect(false, 2100), ConnectStep::Failed(PlayerError::ConnectionTimeout));
    assert_eq!(pm.complete(&dispatch.request, false), Err(PlayerError::NotConnected));
    let s = pm.status();
    assert!(!s.playing && !s.paused && !s.eof_reached);
    assert!(s.title.is_empty());
    assert_eq!(s.volume, 100);
    assert_eq!(pm.phase(), Phase::Spawned);
    assert_eq!(pm.complete(&dispatch.request, true), Err(PlayerError::NotConnected));
    assert!(!pm.status().playing);
}

#[test]
fn play_and_load_paused() {
    let mut pm = connected();
    let dispatch = pm.play("https://x", "Song");
    assert!(!dispatch.connect_first);
    assert_eq!(dispatch.request.commands(), vec![vec!["loadfile", "https://x"]]);
    assert_eq!(
        dispatch.request.lines().unwrap(),
        vec!["{\"command\":[\"loadfile\",\"https://x\"]}\n"]
    );
    pm.update(Property::EofReached, Some(&ok("true")));
    assert!(pm.is_eof());
    assert_eq!(pm.complete(&dispatch.request, true), Ok(()));
    assert_eq!(pm.phase(), Phase::Playing);
    assert_eq!(pm.status().title, "Song");
    assert!(!pm.is_eof());

    let held = pm.load_paused("https://y", "Next");
    assert_eq!(
        held.request.commands(),
        vec![vec!["loadfile", "https://y"], vec!["set_property", "pause", "yes"]]
    );
    assert_eq!(pm.complete(&held.request, true), Ok(()));
    assert_eq!(pm.phase(), Phase::Paused);
    assert!(pm.status().playing && pm.status().paused);
    assert_eq!(pm.status().title, "Next");
}

#[test]
fn a_request_that_was_not_delivered_changes_nothing() {
    let mut pm = connected();
    let dispatch = pm.play("u", "t");
    assert_eq!(pm.complete(&dispatch.request, false), Err(PlayerError::SendFailed));
    assert!(!pm.status().playing);
    assert_eq!(pm.complete(&Request::CyclePause, false), Err(PlayerError::SendFailed));
    assert!(!pm.status().paused);
    assert_eq!(pm.complete(&Request::SetVolume(5), false), Err(PlayerError::SendFailed));
    assert_eq!(pm.status().volume, 100);
}

#[test]
fn pause_seek_stop() {
    let mut pm = connected();
    pm.complete(&pm.play("u", "t").request, true).unwrap();
    let toggle = pm.toggle_pause().unwrap();
    assert_eq!(toggle.commands(), vec![vec!["cycle", "pause"]]);
    pm.complete(&toggle, true).unwrap();
    assert_eq!(pm.phase(), Phase::Paused);
    pm.complete(&toggle, true).unwrap();
    assert_eq!(pm.phase(), Phase::Playing);

    let seek = pm.seek(-10).unwrap();
    assert_eq!(seek.commands(), vec![vec!["seek", "-10", "relative"]]);
    assert_eq!(pm.seek(10).unwrap().commands(), vec![vec!["seek", "10", "relative"]]);
    pm.update(Property::TimePos, Some(&ok("33.2")));
    pm.complete(&seek, true).unwrap();
    assert_eq!(pm.status().time_pos, 33);
    assert_eq!(pm.phase(), Phase::Playing);

    pm.complete(&Request::SetVolume(40), true).unwrap();
    let stop = pm.stop().unwrap();
    assert_eq!(stop.commands(), vec![vec!["stop"]]);
    pm.complete(&stop, true).unwrap();
    assert_eq!(pm.phase(), Phase::ConnectedIdle);
    let s = pm.status();
    assert_eq!((s.time_pos, s.volume, s.title.as_str(), s.playing), (0, 100, "", false));
}

#[test]
fn nothing_is_asked_without_a_channel() {
    let mut pm = PlayerManager::new(1);
    pm.spawned();
    assert!(pm.toggle_pause().is_none());
    assert!(pm.stop().is_none());
    assert!(pm.seek(5).is_none());
    assert!(pm.set_volume(5).is_none());
    assert!(pm.update_status().is_empty());
    pm.update(Property::Volume, Some(&ok("5")));
    assert_eq!(pm.status().volume, 100);
}

#[test]
fn volume_is_always_a_percentage() {
    let mut pm = connected();
    for (asked, stored) in [(50, 50), (0, 0), (100, 100), (101, 100), (-1, 0), (i32::MAX, 100), (i32::MIN, 0)] {
        let request = pm.set_volume(asked).unwrap();
        assert_eq!(request.commands(), vec![vec!["set_property".to_string(), "volume".to_string(), stored.to_string()]]);
        pm.complete(&request, true).unwrap();
        assert_eq!(pm.status().volume, stored);
        pm.complete(&Request::SetVolume(asked), true).unwrap();
        assert_eq!(pm.status().volume, stored);
        assert_eq!(clamped_volume(asked), stored);
    }
    for (told, stored) in [("130", 100), ("-5", 0), ("99.9", 99), ("100.0", 100), ("7", 7)] {
        pm.update(Property::Volume, Some(&ok(told)));
        assert_eq!(pm.status().volume, stored);
    }
}

#[test]
fn a_poll_asks_for_five_properties() {
    let pm = connected();
    assert_eq!(
        pm.update_status(),
        vec![
            Property::TimePos,
            Property::Duration,
            Property::Pause,
            Property::Volume,
            Property::EofReached
        ]
    );
    let lines: Vec<String> = pm
        .update_status()
        .into_iter()
        .map(|p| Request::Get(p).lines().unwrap().remove(0))
        .collect();
    assert_eq!(lines[0], "{\"command\":[\"get_property\",\"time-pos\"]}\n");
    assert_eq!(lines[4], "{\"command\":[\"get_property\",\"eof-reached\"]}\n");
}

#[test]
fn a_failed_property_leaves_what_was_known() {
    let mut pm = connected();
    pm.complete(&Request::SetVolume(60), true).unwrap();
    pm.update(Property::TimePos, Some(&ok("12.75")));
    pm.update(Property::Duration, Some(&ok("240.0")));
    pm.update(Property::Pause, Some(&ok("true")));
    pm.update(Property::Volume, Some("{\"error\":\"property unavailable\"}\n"));
    pm.update(Property::EofReached, None);
    let s = pm.status();
    assert_eq!((s.time_pos, s.duration, s.paused, s.volume, s.eof_reached), (12, 240, true, 60, false));

    pm.update(Property::TimePos, Some("garbage"));
    pm.update(Property::TimePos, Some(&ok("true")));
    pm.update(Property::TimePos, Some(&ok("\"13\"")));
    pm.update(Property::TimePos, Some(&ok("[1]")));
    pm.update(Property::Pause, Some(&ok("0")));
    pm.update(Property::EofReached, Some(&ok("\"yes\"")));
    let s = pm.status();
    assert_eq!((s.time_pos, s.paused, s.eof_reached), (12, true, false));
    pm.update(Property::TimePos, Some(&ok("-0.5")));
    assert_eq!(pm.status().time_pos, 0);
    pm.update(Property::Duration, Some(&ok("7")));
    assert_eq!(pm.status().duration, 7);
    pm.update(Property::TimePos, Some(&ok("1.5e-7")));
    assert_eq!(pm.status().time_pos, 0);
    pm.update(Property::Duration, Some(&ok("1.25e21")));
    assert_eq!(pm.status().duration, u64::MAX);
    pm.update(Property::TimePos, Some(&ok("1.5e3")));
    assert_eq!(pm.status().time_pos, 1500);
}

#[test]
fn status_records_by_property() {
    let mut s = PlaybackStatus::default();
    s.record(Property::Volume, &Scalar::Number("55".to_string()));
    s.record(Property::Volume, &Scalar::Flag(true));
    s.record(Property::Pause, &Scalar::Number("1".to_string()));
    s.record(Property::EofReached, &Scalar::Flag(true));
    s.record(Property::Duration, &Scalar::Text("9".to_string()));
    s.record(Property::Duration, &Scalar::Other);
    assert_eq!((s.volume, s.paused, s.eof_reached, s.duration), (55, false, true, 0));
    let c = s.clone();
    assert_eq!((c.volume, c.eof_reached), (55, true));
}

#[test]
fn terminating_releases_what_was_started() {
    let mut fresh = PlayerManager::new(1);
    let t = fresh.terminate();
    assert!(!t.kill);
    assert!(t.remove.is_none());
    assert_eq!(fresh.phase(), Phase::Terminated);

    let mut pm = connected();
    let t = pm.terminate();
    assert!(t.kill);
    assert_eq!(t.remove.as_deref(), Some("/tmp/youtui-4242.sock"));
    assert_eq!(pm.link(), Link::Terminated);
    assert!(pm.toggle_pause().is_none());
    assert!(pm.update_status().is_empty());
    assert!(pm.play("u", "t").connect_first);
    assert_eq!(pm.connect(true, 0), ConnectStep::Failed(PlayerError::NotRunning));
    assert_eq!(pm.opened(true), Err(PlayerError::NotRunning));
    let again = pm.terminate();
    assert!(!again.kill && again.remove.is_none());
}
