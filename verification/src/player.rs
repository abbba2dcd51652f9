//! The players the tool can hand an item to, and what to run for each.

use crate::config::Config;
use crate::search::{watch_url, watch_url_of};
use crate::text::{concat2, concat3, join_path, path_in, same, string_of, string_views, to_chars};
use vstd::prelude::*;

verus! {

/// A media player that the tool knows how to drive.
#[derive(Debug, Clone, Copy, PartialEq, Eq, Structural)]
pub enum PlayerType {
    Mpv,
    Vlc,
    Mplayer,
}

impl PlayerType {
    /// The name of the player's program.
    pub open spec fn spec_name(self) -> Seq<char> {
        match self {
            PlayerType::Mpv => "mpv"@,
            PlayerType::Vlc => "vlc"@,
            PlayerType::Mplayer => "mplayer"@,
        }
    }

    /// The name of the player's program.
    pub fn name(&self) -> (r: &'static str)
        ensures
            r@ == self.spec_name(),
    {
        match self {
            PlayerType::Mpv => "mpv",
            PlayerType::Vlc => "vlc",
            PlayerType::Mplayer => "mplayer",
        }
    }

    /// The name of the player's program, as its own text.
    pub fn to_string(&self) -> (r: String)
        ensures
            r@ == self.spec_name(),
    {
        self.name().to_owned()
    }
}

/// How a blocking playback ended, as far as the session cares.
#[derive(Debug)]
pub enum PlaybackResult {
    Finished,
    ReturnToMenu,
    Error(String),
}

/// Whether `player` can be controlled while the interactive view stays up.
pub fn supports_background_playback(player: PlayerType) -> (r: bool)
    ensures
        r == (player == PlayerType::Mpv),
{
    match player {
        PlayerType::Mpv => true,
        _ => false,
    }
}

/// The player to use, given which of them are installed: the first of mpv,
/// vlc and mplayer that is.
pub fn pick_player(mpv: bool, vlc: bool, mplayer: bool) -> (r: Option<PlayerType>)
    ensures
        r == (if mpv {
            Some(PlayerType::Mpv)
        } else if vlc {
            Some(PlayerType::Vlc)
        } else if mplayer {
            Some(PlayerType::Mplayer)
        } else {
            None::<PlayerType>
        }),
{
    if mpv {
        Some(PlayerType::Mpv)
    } else if vlc {
        Some(PlayerType::Vlc)
    } else if mplayer {
        Some(PlayerType::Mplayer)
    } else {
        None
    }
}

/// A program and the arguments to run it with.
#[derive(Debug)]
pub struct Invocation {
    pub program: String,
    pub args: Vec<String>,
}

/// An invocation as plain text.
pub struct InvocationView {
    pub program: Seq<char>,
    pub args: Seq<Seq<char>>,
}

impl View for Invocation {
    type V = InvocationView;

    open spec fn view(&self) -> InvocationView {
        InvocationView { program: self.program@, args: string_views(self.args@) }
    }
}

/// The exit code by which mpv says that the user asked for the menu.
pub const RETURN_CODE: i32 = 42;

/// The key binding that makes mpv quit with `RETURN_CODE`.
pub open spec fn return_binding() -> Seq<char> {
    "r quit 42\n"@
}

/// What a blocking player's exit code means.
#[derive(Debug, Clone, Copy, PartialEq, Eq, Structural)]
pub enum ExitKind {
    /// The user asked to go back to the menu.
    ReturnRequested,
    /// The item played to its end.
    Completed,
    /// The player failed with this code.
    Failed(i32),
}

/// Reads a blocking player's exit code.
pub fn interpret_exit(code: i32) -> (r: ExitKind)
    ensures
        r == (if code == RETURN_CODE {
            ExitKind::ReturnRequested
        } else if code == 0 {
            ExitKind::Completed
        } else {
            ExitKind::Failed(code)
        }),
{
    if code == RETURN_CODE {
        ExitKind::ReturnRequested
    } else if code == 0 {
        ExitKind::Completed
    } else {
        ExitKind::Failed(code)
    }
}

/// What the session does after a blocking player has exited: whatever the
/// code, it goes back to the menu; no exit ends the session.
pub fn after_exit(kind: ExitKind) -> (r: PlaybackResult)
    ensures
        r is ReturnToMenu,
{
    PlaybackResult::ReturnToMenu
}

/// The arguments that make the downloader fetch `url` to `output`.
pub open spec fn download_args(
    format: Seq<char>,
    audio_only: bool,
    output: Seq<char>,
    url: Seq<char>,
) -> Seq<Seq<char>> {
    seq!["-f"@, format] + (if audio_only {
        seq!["-x"@, "--audio-format"@, "mp3"@, "--audio-quality"@, "0"@]
    } else {
        Seq::<Seq<char>>::empty()
    }) + seq!["-o"@, output, url]
}

/// The downloader's invocation for `url`.
pub fn download_invocation(format: &str, audio_only: bool, output: &str, url: &str) -> (r:
    Invocation)
    ensures
        r@ == (InvocationView {
            program: "yt-dlp"@,
            args: download_args(format@, audio_only, output@, url@),
        }),
{
    let mut args: Vec<String> = Vec::new();
    args.push("-f".to_owned());
    args.push(format.to_owned());
    if audio_only {
        args.push("-x".to_owned());
        args.push("--audio-format".to_owned());
        args.push("mp3".to_owned());
        args.push("--audio-quality".to_owned());
        args.push("0".to_owned());
    }
    args.push("-o".to_owned());
    args.push(output.to_owned());
    args.push(url.to_owned());
    assert(string_views(args@) =~= download_args(format@, audio_only, output@, url@));
    Invocation { program: "yt-dlp".to_owned(), args }
}

/// The arguments that make mpv stream `url`.
pub open spec fn mpv_args(
    format: Seq<char>,
    audio_only: bool,
    input_conf: Seq<char>,
    url: Seq<char>,
) -> Seq<Seq<char>> {
    (if audio_only {
        seq!["--no-video"@]
    } else {
        Seq::<Seq<char>>::empty()
    }) + seq!["--ytdl-format="@ + format, "--input-conf="@ + input_conf, url]
}

/// The extension of the file that a temporary download leaves.
pub open spec fn media_extension(audio_only: bool) -> Seq<char> {
    if audio_only {
        "mp3"@
    } else {
        "mp4"@
    }
}

/// What to run to play one item without a background player.
#[derive(Debug)]
pub enum PlaybackPlan {
    /// Download mode: fetch the item into the download directory, play
    /// nothing.
    Download { fetch: Invocation },
    /// Write `bindings` to the file `input_conf`, then let mpv stream the
    /// item.
    Stream { input_conf: String, bindings: String, play: Invocation },
    /// Fetch the item to `output_path`, then play that file with `player`.
    FetchThenPlay { fetch: Invocation, output_path: String, player: PlayerType },
}

/// A playback plan as plain text.
pub enum PlanView {
    Download { fetch: InvocationView },
    Stream { input_conf: Seq<char>, bindings: Seq<char>, play: InvocationView },
    FetchThenPlay { fetch: InvocationView, output_path: Seq<char>, player: PlayerType },
}

impl View for PlaybackPlan {
    type V = PlanView;

    open spec fn view(&self) -> PlanView {
        match self {
            PlaybackPlan::Download { fetch } => PlanView::Download { fetch: fetch@ },
            PlaybackPlan::Stream { input_conf, bindings, play } => PlanView::Stream {
                input_conf: input_conf@,
                bindings: bindings@,
                play: play@,
            },
            PlaybackPlan::FetchThenPlay { fetch, output_path, player } => PlanView::FetchThenPlay {
                fetch: fetch@,
                output_path: output_path@,
                player: *player,
            },
        }
    }
}

/// The plan that `play_video` makes.
pub open spec fn playback_plan(
    player: PlayerType,
    download_mode: bool,
    audio_only: bool,
    format: Seq<char>,
    download_dir: Seq<char>,
    video_id: Seq<char>,
    safe_title: Seq<char>,
    temp_dir: Seq<char>,
) -> PlanView {
    let url = watch_url(video_id);
    if download_mode {
        PlanView::Download {
            fetch: InvocationView {
                program: "yt-dlp"@,
                args: download_args(format, audio_only, download_dir + "/%(title)s.%(ext)s"@, url),
            },
        }
    } else if player == PlayerType::Mpv {
        let input_conf = join_path(temp_dir, "mpv-input.conf"@);
        PlanView::Stream {
            input_conf,
            bindings: return_binding(),
            play: InvocationView {
                program: "mpv"@,
                args: mpv_args(format, audio_only, input_conf, url),
            },
        }
    } else {
        let output_path = join_path(
            temp_dir,
            safe_title + seq!['.'] + media_extension(audio_only),
        );
        PlanView::FetchThenPlay {
            fetch: InvocationView {
                program: "yt-dlp"@,
                args: download_args(format, audio_only, output_path, url),
            },
            output_path,
            player,
        }
    }
}

/// Plans the playing of the item `video_id` by a blocking player: what to
/// fetch, what to write and what to run, by the configured player and mode.
/// `safe_title` names the temporary file; `temp_dir` is where it goes.
pub fn play_video(
    config: &Config,
    video_id: &str,
    video_title: &str,
    safe_title: &str,
    temp_dir: &str,
) -> (r: PlaybackPlan)
    ensures
        r@ == playback_plan(
            config.player,
            config.download_mode,
            config.audio_only,
            config.spec_format(),
            config.download_dir@,
            video_id@,
            safe_title@,
            temp_dir@,
        ),
{
    let url = watch_url_of(video_id);
    let format = config.format();
    if config.download_mode {
        let output = concat2(config.download_dir.as_str(), "/%(title)s.%(ext)s");
        return PlaybackPlan::Download {
            fetch: download_invocation(
                format.as_str(),
                config.audio_only,
                output.as_str(),
                url.as_str(),
            ),
        };
    }
    match config.player {
        PlayerType::Mpv => {
            let input_conf = path_in(temp_dir, "mpv-input.conf");
            let mut args: Vec<String> = Vec::new();
            if config.audio_only {
                args.push("--no-video".to_owned());
            }
            args.push(concat2("--ytdl-format=", format.as_str()));
            args.push(concat2("--input-conf=", input_conf.as_str()));
            args.push(url.clone());
            assert(string_views(args@) =~= mpv_args(
                format@,
                config.audio_only,
                input_conf@,
                url@,
            ));
            PlaybackPlan::Stream {
                input_conf,
                bindings: "r quit 42\n".to_owned(),
                play: Invocation { program: "mpv".to_owned(), args },
            }
        },
        _ => {
            let ext = if config.audio_only {
                "mp3"
            } else {
                "mp4"
            };
            let name = concat3(safe_title, ".", ext);
            proof {
                reveal_strlit(".");
                assert("."@ =~= seq!['.']);
            }
            let output_path = path_in(temp_dir, name.as_str());
            PlaybackPlan::FetchThenPlay {
                fetch: download_invocation(
                    format.as_str(),
                    config.audio_only,
                    output_path.as_str(),
                    url.as_str(),
                ),
                output_path,
                player: config.player,
            }
        },
    }
}

/// What plays the file `file` with `player`; mpv streams and plays no file.
pub open spec fn file_player(player: PlayerType, file: Seq<char>) -> Option<InvocationView> {
    match player {
        PlayerType::Mpv => None,
        PlayerType::Vlc => Some(
            InvocationView {
                program: "vlc"@,
                args: seq!["--play-and-exit"@, "--no-video-title-show"@, file],
            },
        ),
        PlayerType::Mplayer => Some(
            InvocationView { program: "mplayer"@, args: seq!["-quiet"@, file] },
        ),
    }
}

/// The invocation that plays the downloaded file `file` with `player`.
pub fn file_player_invocation(player: PlayerType, file: &str) -> (r: Option<Invocation>)
    ensures
        match file_player(player, file@) {
            Some(v) => r is Some && r->0@ == v,
            None => r is None,
        },
{
    match player {
        PlayerType::Mpv => None,
        PlayerType::Vlc => {
            let mut args: Vec<String> = Vec::new();
            args.push("--play-and-exit".to_owned());
            args.push("--no-video-title-show".to_owned());
            args.push(file.to_owned());
            assert(string_views(args@) =~= seq![
                "--play-and-exit"@,
                "--no-video-title-show"@,
                file@,
            ]);
            Some(Invocation { program: "vlc".to_owned(), args })
        },
        PlayerType::Mplayer => {
            let mut args: Vec<String> = Vec::new();
            args.push("-quiet".to_owned());
            args.push(file.to_owned());
            assert(string_views(args@) =~= seq!["-quiet"@, file@]);
            Some(Invocation { program: "mplayer".to_owned(), args })
        },
    }
}

/// The index of the last `.` in `name`, or -1 where there is none.
pub open spec fn last_dot(name: Seq<char>) -> int
    decreases name.len(),
{
    if name.len() == 0 {
        -1
    } else if name.last() == '.' {
        name.len() - 1
    } else {
        last_dot(name.drop_last())
    }
}

/// The extension of the file name `name`: what follows its last `.`. A name
/// without `.`, or with its only `.` in front, has none, and neither has
/// `..`.
pub open spec fn extension(name: Seq<char>) -> Option<Seq<char>> {
    if last_dot(name) <= 0 || name == ".."@ {
        None
    } else {
        Some(name.skip(last_dot(name) + 1))
    }
}

/// Whether a file of this name can be what the downloader left: it has an
/// extension, and not that of a partial download or of a configuration.
pub open spec fn is_download(name: Seq<char>) -> bool {
    extension(name) matches Some(e) && e != "part"@ && e != "conf"@
}

proof fn lemma_last_dot(name: Seq<char>, k: int)
    requires
        -1 <= k < name.len(),
        k >= 0 ==> name[k] == '.',
        forall|i: int| k < i < name.len() ==> name[i] != '.',
    ensures
        last_dot(name) == k,
    decreases name.len(),
{
    if name.len() > 0 && name.last() != '.' {
        let t = name.drop_last();
        lemma_last_dot(t, k);
    }
}

/// Whether a file named `name` can be what the downloader left.
pub fn usable_download(name: &str) -> (r: bool)
    ensures
        r == is_download(name@),
{
    let v = to_chars(name);
    let mut i: usize = v.len();
    while i > 0 && v[i - 1] != '.'
        invariant
            i <= v.len(),
            forall|k: int| i <= k < v.len() ==> v@[k] != '.',
        decreases i,
    {
        i -= 1;
    }
    proof {
        lemma_last_dot(v@, i - 1);
    }
    if i <= 1 || same(name, "..") {
        return false;
    }
    let ext = string_of(&v, i, v.len());
    !same(ext.as_str(), "part") && !same(ext.as_str(), "conf")
}

/// The file that the downloader left, among the regular files `names` of
/// the temporary directory in the order the directory lists them: the first
/// one that can be it.
pub fn find_downloaded_file(names: &Vec<String>) -> (r: Option<usize>)
    ensures
        match r {
            Some(i) => i < names.len() && is_download(names@[i as int]@) && forall|k: int|
                0 <= k < i ==> !is_download(#[trigger] names@[k]@),
            None => forall|k: int| 0 <= k < names.len() ==> !is_download(#[trigger] names@[k]@),
        },
{
    let mut i: usize = 0;
    while i < names.len()
        invariant
            i <= names.len(),
            forall|k: int| 0 <= k < i ==> !is_download(#[trigger] names@[k]@),
        decreases names.len() - i,
    {
        if usable_download(names[i].as_str()) {
            return Some(i);
        }
        i += 1;
    }
    None
}

} // verus!
