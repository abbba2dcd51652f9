//! The settings that the session runs by.

use crate::player::PlayerType;
use crate::text::{join_path, path_in};
use vstd::prelude::*;

verus! {

/// The number of results on a page unless the user says otherwise.
pub const DEFAULT_RESULTS_PER_PAGE: usize = 20;

/// The settings of a session.
#[derive(Debug)]
pub struct Config {
    /// The player in use; found at start, never stored.
    pub player: PlayerType,
    pub audio_only: bool,
    pub bandwidth_limit: bool,
    pub keep_temp: bool,
    pub include_shorts: bool,
    pub download_mode: bool,
    pub download_dir: String,
    pub results_per_page: usize,
    pub custom_format: String,
    pub auto_play_queue: bool,
}

impl Clone for Config {
    fn clone(&self) -> (r: Self)
        ensures
            r == *self,
    {
        Config {
            player: self.player,
            audio_only: self.audio_only,
            bandwidth_limit: self.bandwidth_limit,
            keep_temp: self.keep_temp,
            include_shorts: self.include_shorts,
            download_mode: self.download_mode,
            download_dir: self.download_dir.clone(),
            results_per_page: self.results_per_page,
            custom_format: self.custom_format.clone(),
            auto_play_queue: self.auto_play_queue,
        }
    }
}

/// Whether the queue plays on by itself where the settings do not say.
pub fn default_auto_play_queue() -> (r: bool)
    ensures
        r,
{
    true
}

/// The format to ask the downloader for, by the two flags.
pub open spec fn resolved_format(audio_only: bool, limit: bool) -> Seq<char> {
    if audio_only && limit {
        "bestaudio[abr<=128]/bestaudio/best"@
    } else if audio_only {
        "bestaudio/best"@
    } else if limit {
        "bestvideo[height<=360]+bestaudio/best[height<=360]/best"@
    } else {
        "bestvideo+bestaudio/best"@
    }
}

/// The format to ask the downloader for, by the two flags.
pub fn resolve_format(audio_only: bool, limit: bool) -> (r: String)
    ensures
        r@ == resolved_format(audio_only, limit),
{
    if audio_only && limit {
        "bestaudio[abr<=128]/bestaudio/best".to_owned()
    } else if audio_only {
        "bestaudio/best".to_owned()
    } else if limit {
        "bestvideo[height<=360]+bestaudio/best[height<=360]/best".to_owned()
    } else {
        "bestvideo+bestaudio/best".to_owned()
    }
}

/// Where downloads go by default: `Downloads` in the home directory, or in
/// the working directory where there is no home.
pub open spec fn default_download_dir(home: Option<Seq<char>>) -> Seq<char> {
    join_path(
        match home {
            Some(h) => h,
            None => "."@,
        },
        "Downloads"@,
    )
}

/// Whether `c` holds the default settings, with downloads going to
/// `download_dir`.
pub open spec fn is_default(c: Config, download_dir: Seq<char>) -> bool {
    &&& c.player == PlayerType::Mpv
    &&& !c.audio_only
    &&& !c.bandwidth_limit
    &&& !c.keep_temp
    &&& !c.include_shorts
    &&& !c.download_mode
    &&& c.download_dir@ == download_dir
    &&& c.results_per_page == DEFAULT_RESULTS_PER_PAGE
    &&& c.custom_format@.len() == 0
    &&& c.auto_play_queue
}

/// `dirs::home_dir`: the user's home directory, if the system names one.
/// Nothing is claimed of it.
#[verifier::external_body]
fn home_dir() -> (r: Option<String>) {
    dirs::home_dir().map(|p| p.to_string_lossy().into_owned())
}

impl Config {
    /// The default settings for a user whose home directory is `home`.
    pub fn with_home(home: Option<&str>) -> (r: Self)
        ensures
            is_default(
                r,
                default_download_dir(
                    match home {
                        Some(h) => Some(h@),
                        None => None,
                    },
                ),
            ),
    {
        let base = match home {
            Some(h) => h,
            None => ".",
        };
        Config {
            player: PlayerType::Mpv,
            audio_only: false,
            bandwidth_limit: false,
            keep_temp: false,
            include_shorts: false,
            download_mode: false,
            download_dir: path_in(base, "Downloads"),
            results_per_page: DEFAULT_RESULTS_PER_PAGE,
            custom_format: String::new(),
            auto_play_queue: default_auto_play_queue(),
        }
    }

    /// Flips the audio-only switch.
    pub fn toggle_audio_only(&mut self)
        ensures
            *final(self) == (Config { audio_only: !old(self).audio_only, ..*old(self) }),
    {
        self.audio_only = !self.audio_only;
    }

    /// Flips the bandwidth limit.
    pub fn toggle_bandwidth_limit(&mut self)
        ensures
            *final(self) == (Config { bandwidth_limit: !old(self).bandwidth_limit, ..*old(self) }),
    {
        self.bandwidth_limit = !self.bandwidth_limit;
    }

    /// Flips the keeping of temporary files.
    pub fn toggle_keep_temp(&mut self)
        ensures
            *final(self) == (Config { keep_temp: !old(self).keep_temp, ..*old(self) }),
    {
        self.keep_temp = !self.keep_temp;
    }

    /// Flips the inclusion of short items.
    pub fn toggle_include_shorts(&mut self)
        ensures
            *final(self) == (Config { include_shorts: !old(self).include_shorts, ..*old(self) }),
    {
        self.include_shorts = !self.include_shorts;
    }

    /// Flips the download mode.
    pub fn toggle_download_mode(&mut self)
        ensures
            *final(self) == (Config { download_mode: !old(self).download_mode, ..*old(self) }),
    {
        self.download_mode = !self.download_mode;
    }

    /// Flips whether the queue plays on by itself.
    pub fn toggle_auto_play_queue(&mut self)
        ensures
            *final(self) == (Config { auto_play_queue: !old(self).auto_play_queue, ..*old(self) }),
    {
        self.auto_play_queue = !self.auto_play_queue;
    }

    /// The format that `format` returns.
    pub open spec fn spec_format(&self) -> Seq<char> {
        if self.custom_format@.len() > 0 {
            self.custom_format@
        } else {
            resolved_format(self.audio_only, self.bandwidth_limit)
        }
    }

    /// The format to ask the downloader for: the custom one where one is
    /// set, else the one that the flags call for.
    pub fn format(&self) -> (r: String)
        ensures
            r@ == self.spec_format(),
    {
        if !self.custom_format.as_str().is_empty() {
            self.custom_format.clone()
        } else {
            resolve_format(self.audio_only, self.bandwidth_limit)
        }
    }
}

impl Default for Config {
    /// The default settings, with downloads going to `Downloads` under the
    /// user's home directory, whatever that is.
    fn default() -> (r: Self)
        ensures
            exists|home: Option<Seq<char>>| is_default(r, default_download_dir(home)),
    {
        let home = home_dir();
        let r = match &home {
            Some(h) => Config::with_home(Some(h.as_str())),
            None => Config::with_home(None),
        };
        proof {
            let h: Option<Seq<char>> = match home {
                Some(h) => Some(h@),
                None => None,
            };
        }
        r
    }
}

} // verus!
