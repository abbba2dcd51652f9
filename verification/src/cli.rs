//! The command line, once parsed.

use crate::config::Config;
use crate::text::{join, string_views};
use vstd::prelude::*;
use vstd::string::StringExecFns;

verus! {

/// What the user asked for on the command line.
#[derive(Debug)]
pub struct Cli {
    /// The number of results on a page.
    pub num: usize,
    pub audio_only: bool,
    /// Limit the bandwidth.
    pub limit: bool,
    /// Download for good instead of playing.
    pub download: bool,
    /// Keep temporary files.
    pub keep: bool,
    /// A format of the user's own.
    pub format: Option<String>,
    pub include_shorts: bool,
    /// The words of the query.
    pub query: Vec<String>,
}

impl Cli {
    /// The query: its words with a blank between neighbours.
    pub fn query_text(&self) -> (r: String)
        ensures
            r@ == join(string_views(self.query@), " "@),
    {
        let mut r = String::new();
        let mut i: usize = 0;
        while i < self.query.len()
            invariant
                i <= self.query.len(),
                r@ == join(string_views(self.query@).take(i as int), " "@),
            decreases self.query.len() - i,
        {
            let ghost before = string_views(self.query@).take(i as int);
            let ghost after = string_views(self.query@).take(i + 1);
            assert(after.drop_last() =~= before);
            if i > 0 {
                r.append(" ");
            }
            r.append(self.query[i].as_str());
            i += 1;
        }
        assert(string_views(self.query@).take(self.query.len() as int) =~= string_views(
            self.query@,
        ));
        r
    }

    /// The settings for this run: the stored ones, with every switch on
    /// that the command line turns on, the page size of the command line,
    /// and its format where it gives one.
    pub fn apply(&self, config: &mut Config)
        ensures
            *final(config) == (Config {
                audio_only: old(config).audio_only || self.audio_only,
                bandwidth_limit: old(config).bandwidth_limit || self.limit,
                download_mode: old(config).download_mode || self.download,
                keep_temp: old(config).keep_temp || self.keep,
                include_shorts: old(config).include_shorts || self.include_shorts,
                results_per_page: self.num,
                custom_format: final(config).custom_format,
                ..*old(config)
            }),
            final(config).custom_format@ == (match self.format {
                Some(f) => f@,
                None => old(config).custom_format@,
            }),
    {
        config.audio_only = config.audio_only || self.audio_only;
        config.bandwidth_limit = config.bandwidth_limit || self.limit;
        config.download_mode = config.download_mode || self.download;
        config.keep_temp = config.keep_temp || self.keep;
        config.include_shorts = config.include_shorts || self.include_shorts;
        config.results_per_page = self.num;
        match &self.format {
            Some(f) => {
                config.custom_format = f.clone();
            },
            None => {},
        }
    }
}

} // verus!
