//! Search results, the format of the search command's output, and the cache
//! that grows page by page.

use crate::text::{
    decimal, find_char, position, push_char, push_decimal, split, split_n,
    string_of, string_views, to_chars, trim, trim_range,
};
use crate::number::{numeral, read_numeral, Numeral, Reading};
use vstd::prelude::*;
use vstd::string::StringExecFns;

verus! {

/// Items shorter than this many seconds are left out when shorts are filtered.
pub const MIN_DURATION: u64 = 180;

/// No more raw items than this are ever asked of the search command.
pub const SEARCH_CEILING: usize = 500;

/// The number of fields in a line of search output.
pub const FIELD_COUNT: usize = 6;

/// One item of a search: what is shown of it, and the identifier it is played by.
#[derive(Debug)]
pub struct SearchResult {
    pub title: String,
    pub duration: String,
    pub channel: String,
    pub views: String,
    pub id: String,
}

/// A search result as plain text.
pub struct Record {
    pub title: Seq<char>,
    pub duration: Seq<char>,
    pub channel: Seq<char>,
    pub views: Seq<char>,
    pub id: Seq<char>,
}

impl View for SearchResult {
    type V = Record;

    open spec fn view(&self) -> Record {
        Record {
            title: self.title@,
            duration: self.duration@,
            channel: self.channel@,
            views: self.views@,
            id: self.id@,
        }
    }
}

impl Clone for SearchResult {
    fn clone(&self) -> (r: Self)
        ensures
            r == *self,
    {
        SearchResult {
            title: self.title.clone(),
            duration: self.duration.clone(),
            channel: self.channel.clone(),
            views: self.views.clone(),
            id: self.id.clone(),
        }
    }
}

/// The records of `results`, in order.
pub open spec fn records_of(results: Seq<SearchResult>) -> Seq<Record> {
    results.map_values(|r: SearchResult| r@)
}

/// Whether `c` is alphabetic or numeric by the Unicode tables that
/// `char::is_alphanumeric` reads.
pub uninterp spec fn alphanumeric(c: char) -> bool;

/// `char::is_alphanumeric`: the answer is a fixed property of the character.
#[verifier::external_body]
fn is_alphanumeric(c: char) -> (b: bool)
    ensures
        b == alphanumeric(c),
{
    c.is_alphanumeric()
}

/// Whether a title keeps `c` when it is made into a file name.
pub open spec fn title_keeps(c: char) -> bool {
    alphanumeric(c) || c == '.' || c == '_' || c == ' ' || c == '-'
}

/// `title_keeps` as a predicate.
pub open spec fn title_filter() -> spec_fn(char) -> bool {
    |c: char| title_keeps(c)
}

/// Whether a file name keeps `c`, given whether `c` is alphanumeric.
pub fn keeps_char(c: char, alphanumeric: bool) -> (b: bool)
    ensures
        b == (alphanumeric || c == '.' || c == '_' || c == ' ' || c == '-'),
{
    alphanumeric || c == '.' || c == '_' || c == ' ' || c == '-'
}

/// The address under which the catalog serves the item `id`.
pub open spec fn watch_url(id: Seq<char>) -> Seq<char> {
    "https://www.youtube.com/watch?v="@ + id
}

/// The address under which the catalog serves the item `id`.
pub fn watch_url_of(id: &str) -> (r: String)
    ensures
        r@ == watch_url(id@),
{
    let mut r = "https://www.youtube.com/watch?v=".to_owned();
    r.append(id);
    r
}

impl SearchResult {
    /// A result has an identifier.
    pub open spec fn wf(&self) -> bool {
        self.id@.len() > 0
    }

    /// Makes a result of the fields of a line. The identifier is trimmed, and
    /// there is no result without one.
    pub fn from_line_parts(title: &str, duration: &str, channel: &str, views: &str, id: &str) -> (r:
        Option<Self>)
        ensures
            trim(id@).len() == 0 ==> r is None,
            trim(id@).len() > 0 ==> r is Some && r->0@ == (Record {
                title: title@,
                duration: duration@,
                channel: channel@,
                views: views@,
                id: trim(id@),
            }),
            r matches Some(x) ==> x.wf(),
    {
        let v = to_chars(id);
        assert(v@.subrange(0, v.len() as int) =~= id@);
        let (a, b) = trim_range(&v, 0, v.len());
        if a == b {
            return None;
        }
        Some(
            SearchResult {
                title: title.to_owned(),
                duration: duration.to_owned(),
                channel: channel.to_owned(),
                views: views.to_owned(),
                id: string_of(&v, a, b),
            },
        )
    }

    /// The address the item is played from.
    pub fn url(&self) -> (r: String)
        ensures
            r@ == watch_url(self.id@),
    {
        watch_url_of(self.id.as_str())
    }

    /// The title with nothing in it but letters, digits, `.`, `_`, `-` and
    /// blanks, so that it can name a file.
    pub fn safe_title(&self) -> (r: String)
        ensures
            r@ == self.title@.filter(title_filter()),
    {
        let v = to_chars(self.title.as_str());
        let mut r = String::new();
        let mut i: usize = 0;
        proof {
            reveal(Seq::filter);
        }
        while i < v.len()
            invariant
                i <= v.len(),
                v@ == self.title@,
                r@ == v@.take(i as int).filter(title_filter()),
            decreases v.len() - i,
        {
            let c = v[i];
            proof {
                reveal(Seq::filter);
                assert(v@.take(i + 1).drop_last() =~= v@.take(i as int));
            }
            if keeps_char(c, is_alphanumeric(c)) {
                push_char(&mut r, c);
            }
            i += 1;
        }
        assert(v@.take(v.len() as int) =~= v@);
        r
    }
}

/// Whether the duration field `field` tells of less than `MIN_DURATION`
/// seconds. A field that is no number tells of none; one that says that it
/// holds no number is not below anything.
pub open spec fn is_short(field: Seq<char>) -> bool {
    match numeral(trim(field)) {
        Some(Numeral::Finite { negative, whole }) => negative || whole < MIN_DURATION,
        Some(Numeral::Infinite { negative }) => negative,
        Some(Numeral::NotANumber) => false,
        None => true,
    }
}

/// The result that one line of search output stands for: six fields between
/// pipes (title, duration, channel, views, identifier, seconds), the last one
/// taking whatever follows the fifth pipe.
pub open spec fn parse_line(line: Seq<char>, filter_shorts: bool) -> Option<Record> {
    let f = split_n(trim(line), '|', FIELD_COUNT as nat);
    if f.len() == FIELD_COUNT && !(filter_shorts && is_short(f[5])) && trim(f[4]).len() > 0 {
        Some(Record { title: f[0], duration: f[1], channel: f[2], views: f[3], id: trim(f[4]) })
    } else {
        None
    }
}

/// Whether a line counts as a raw item: any line that is not blank does.
pub open spec fn is_raw_item(line: Seq<char>) -> bool {
    trim(line).len() > 0
}

/// The results that `lines` stand for, in order; lines that stand for none
/// are passed over.
pub open spec fn records(lines: Seq<Seq<char>>, filter_shorts: bool) -> Seq<Record>
    decreases lines.len(),
{
    if lines.len() == 0 {
        Seq::empty()
    } else {
        let before = records(lines.drop_last(), filter_shorts);
        match parse_line(lines.last(), filter_shorts) {
            Some(r) => before.push(r),
            None => before,
        }
    }
}

/// How many of `lines` count as raw items.
pub open spec fn raw_count(lines: Seq<Seq<char>>) -> nat
    decreases lines.len(),
{
    if lines.len() == 0 {
        0
    } else {
        raw_count(lines.drop_last()) + if is_raw_item(lines.last()) {
            1nat
        } else {
            0nat
        }
    }
}

/// The lines of `text`.
pub open spec fn lines(text: Seq<char>) -> Seq<Seq<char>> {
    split(text, '\n')
}

/// The pieces that `ranges` cut out of `v`.
pub open spec fn pieces(v: Seq<char>, ranges: Seq<(usize, usize)>) -> Seq<Seq<char>> {
    ranges.map_values(|r: (usize, usize)| v.subrange(r.0 as int, r.1 as int))
}

/// The bounds of the pieces of `split_n` on `v[from..to]`.
pub fn split_n_ranges(v: &Vec<char>, from: usize, to: usize, sep: char, limit: usize) -> (r: Vec<
    (usize, usize),
>)
    requires
        from <= to <= v.len(),
    ensures
        pieces(v@, r@) == split_n(v@.subrange(from as int, to as int), sep, limit as nat),
        forall|i: int| 0 <= i < r.len() ==> from <= (#[trigger] r[i]).0 <= r[i].1 <= to,
{
    let mut out: Vec<(usize, usize)> = Vec::new();
    if limit == 0 {
        return out;
    }
    let ghost whole = split_n(v@.subrange(from as int, to as int), sep, limit as nat);
    let mut a: usize = from;
    let mut left: usize = limit;
    while left > 1
        invariant
            1 <= left <= limit,
            from <= a <= to <= v.len(),
            whole == pieces(v@, out@) + split_n(v@.subrange(a as int, to as int), sep, left as nat),
            forall|i: int| 0 <= i < out.len() ==> from <= (#[trigger] out[i]).0 <= out[i].1 <= to,
        ensures
            left == 1 || position(v@.subrange(a as int, to as int), sep) == to - a,
        decreases left,
    {
        let p = find_char(v, a, to, sep);
        if p == to {
            break ;
        }
        let ghost rest = v@.subrange(a as int, to as int);
        proof {
            assert(rest.take(p - a) =~= v@.subrange(a as int, p as int));
            assert(rest.skip(p - a + 1) =~= v@.subrange(p + 1, to as int));
        }
        out.push((a, p));
        a = p + 1;
        left -= 1;
    }
    out.push((a, to));
    out
}

/// Whether the duration field `v[from..to]` tells of a short item.
pub fn short_field(v: &Vec<char>, from: usize, to: usize) -> (b: bool)
    requires
        from <= to <= v.len(),
    ensures
        b == is_short(v@.subrange(from as int, to as int)),
{
    let (a, b) = trim_range(v, from, to);
    match read_numeral(v, a, b) {
        Some(Reading::Finite { negative, whole }) => negative || whole < MIN_DURATION,
        Some(Reading::Infinite { negative }) => negative,
        Some(Reading::NotANumber) => false,
        None => true,
    }
}

/// Reads the line `v[from..to]`.
pub fn read_line(v: &Vec<char>, from: usize, to: usize, filter_shorts: bool) -> (r: Option<
    SearchResult,
>)
    requires
        from <= to <= v.len(),
    ensures
        match parse_line(v@.subrange(from as int, to as int), filter_shorts) {
            Some(record) => r is Some && r->0@ == record && r->0.wf(),
            None => r is None,
        },
{
    let (a, b) = trim_range(v, from, to);
    let f = split_n_ranges(v, a, b, '|', FIELD_COUNT);
    if f.len() != FIELD_COUNT {
        return None;
    }
    if filter_shorts && short_field(v, f[5].0, f[5].1) {
        return None;
    }
    let (c, d) = trim_range(v, f[4].0, f[4].1);
    if c == d {
        return None;
    }
    Some(
        SearchResult {
            title: string_of(v, f[0].0, f[0].1),
            duration: string_of(v, f[1].0, f[1].1),
            channel: string_of(v, f[2].0, f[2].1),
            views: string_of(v, f[3].0, f[3].1),
            id: string_of(v, c, d),
        },
    )
}

/// Reads the output of one run of the search command: the results its lines
/// stand for, and the number of raw items among the lines. A line that cannot
/// be read is passed over; it never fails the batch.
pub fn parse_batch(text: &str, filter_shorts: bool) -> (r: (Vec<SearchResult>, usize))
    ensures
        records_of(r.0@) == records(lines(text@), filter_shorts),
        r.1 == raw_count(lines(text@)),
        forall|i: int| 0 <= i < r.0.len() ==> (#[trigger] r.0[i]).wf(),
{
    let v = to_chars(text);
    let n = v.len();
    let mut out: Vec<SearchResult> = Vec::new();
    let mut count: usize = 0;
    let mut a: usize = 0;
    let ghost mut done: Seq<Seq<char>> = Seq::empty();
    proof {
        assert(v@.subrange(0, n as int) =~= v@);
    }
    loop
        invariant_except_break
            a <= n,
            lines(v@) == done + lines(v@.subrange(a as int, n as int)),
            records_of(out@) == records(done, filter_shorts),
            count == raw_count(done),
            count <= a,
        invariant
            n == v.len(),
            v@ == text@,
            forall|i: int| 0 <= i < out.len() ==> (#[trigger] out[i]).wf(),
        ensures
            records_of(out@) == records(lines(v@), filter_shorts),
            count == raw_count(lines(v@)),
        decreases n - a,
    {
        let e = find_char(&v, a, n, '\n');
        let ghost rest = v@.subrange(a as int, n as int);
        let ghost line = v@.subrange(a as int, e as int);
        proof {
            assert(rest.take(e - a) =~= line);
            assert(done.push(line).drop_last() =~= done);
        }
        let (ta, tb) = trim_range(&v, a, e);
        if ta < tb {
            count += 1;
        }
        match read_line(&v, a, e, filter_shorts) {
            Some(r) => {
                out.push(r);
            },
            None => {},
        }
        proof {
            done = done.push(line);
        }
        if e == n {
            proof {
                assert(lines(v@) =~= done);
            }
            break ;
        }
        proof {
            assert(rest.skip(e - a + 1) =~= v@.subrange(e + 1, n as int));
        }
        a = e + 1;
    }
    (out, count)
}

/// What the cache asks of the search command for one batch.
#[derive(Debug)]
pub struct BatchRequest {
    /// The search to run: the provider, the ceiling and the query.
    pub search_id: String,
    /// The raw items wanted, first and last, counted from one.
    pub range: String,
    pub start: usize,
    pub end: usize,
    /// Nothing has been found for the query so far.
    pub first: bool,
}

/// A batch request as plain values.
pub struct BatchView {
    pub search_id: Seq<char>,
    pub range: Seq<char>,
    pub start: nat,
    pub end: nat,
    pub first: bool,
}

impl View for BatchRequest {
    type V = BatchView;

    open spec fn view(&self) -> BatchView {
        BatchView {
            search_id: self.search_id@,
            range: self.range@,
            start: self.start as nat,
            end: self.end as nat,
            first: self.first,
        }
    }
}

/// The template that makes the search command print one line of six fields
/// per item.
pub open spec fn print_template() -> Seq<char> {
    "%(title)s|%(duration_string|N/A)s|%(channel|Unknown)s|%(view_count|0)s|%(id)s|%(duration|0)s"@
}

/// The arguments of the search command for the request `r`.
pub open spec fn request_args(r: BatchView) -> Seq<Seq<char>> {
    seq![
        "--flat-playlist"@,
        "--no-warnings"@,
        "--playlist-items"@,
        r.range,
        r.search_id,
        "--print"@,
        print_template(),
    ]
}

impl BatchRequest {
    /// The program that searches.
    pub fn program(&self) -> (r: &'static str)
        ensures
            r@ == "yt-dlp"@,
    {
        "yt-dlp"
    }

    /// The arguments to run the search command with.
    pub fn args(&self) -> (r: Vec<String>)
        ensures
            string_views(r@) == request_args(self@),
    {
        let mut r: Vec<String> = Vec::new();
        r.push("--flat-playlist".to_owned());
        r.push("--no-warnings".to_owned());
        r.push("--playlist-items".to_owned());
        r.push(self.range.clone());
        r.push(self.search_id.clone());
        r.push("--print".to_owned());
        r.push(
            "%(title)s|%(duration_string|N/A)s|%(channel|Unknown)s|%(view_count|0)s|%(id)s|%(duration|0)s".to_owned(),
        );
        r
    }
}

/// The cache as plain values.
pub struct CacheModel {
    pub query: Seq<char>,
    pub page_size: nat,
    pub filter_shorts: bool,
    /// What has been found, in the order it came.
    pub results: Seq<Record>,
    /// How many raw items have been asked for.
    pub raw_cursor: nat,
    /// Nothing more will be fetched for this query.
    pub exhausted: bool,
}

impl CacheModel {
    /// The cache of a query that nothing has been fetched for.
    pub open spec fn fresh(query: Seq<char>, page_size: nat, filter_shorts: bool) -> CacheModel {
        CacheModel {
            query,
            page_size,
            filter_shorts,
            results: Seq::empty(),
            raw_cursor: 0,
            exhausted: false,
        }
    }

    /// The cache after `reset`: as fresh as a new one.
    pub open spec fn reset(self, query: Seq<char>) -> CacheModel {
        CacheModel::fresh(query, self.page_size, self.filter_shorts)
    }

    /// The cursor is within the ceiling and every result has an identifier.
    pub open spec fn wf(self) -> bool {
        &&& self.raw_cursor <= SEARCH_CEILING
        &&& forall|i: int| 0 <= i < self.results.len() ==> (#[trigger] self.results[i]).id.len() > 0
    }

    /// How many results the pages up to `page` hold when full.
    pub open spec fn needed(self, page: nat) -> nat {
        (page + 1) * self.page_size
    }

    /// Whether page `page` can be shown in full, or never will be.
    pub open spec fn settled(self, page: nat) -> bool {
        self.results.len() >= self.needed(page) || self.exhausted
    }

    /// Whether the ceiling on raw items has been reached.
    pub open spec fn at_ceiling(self) -> bool {
        self.raw_cursor >= SEARCH_CEILING
    }

    /// Whether `ensure_page` asks for a batch.
    pub open spec fn wants_batch(self, page: nat) -> bool {
        !self.settled(page) && !self.at_ceiling()
    }

    /// The cache after `ensure_page`: it only ever learns that it is
    /// exhausted.
    pub open spec fn ensured(self, page: nat) -> CacheModel {
        if !self.settled(page) && self.at_ceiling() {
            CacheModel { exhausted: true, ..self }
        } else {
            self
        }
    }

    /// The number of raw items in a batch: three pages' worth where shorts
    /// are filtered, one page's worth where they are not.
    pub open spec fn batch_size(self) -> nat {
        if self.filter_shorts {
            self.page_size * 3
        } else {
            self.page_size
        }
    }

    /// The last raw item of the next batch.
    pub open spec fn batch_end(self) -> nat {
        if self.raw_cursor + self.batch_size() < SEARCH_CEILING {
            self.raw_cursor + self.batch_size()
        } else {
            SEARCH_CEILING as nat
        }
    }

    /// The next batch request.
    pub open spec fn request(self) -> BatchView {
        BatchView {
            search_id: "ytsearch"@ + decimal(SEARCH_CEILING as nat) + seq![':'] + self.query,
            range: decimal(self.raw_cursor + 1) + seq![':'] + decimal(self.batch_end()),
            start: self.raw_cursor + 1,
            end: self.batch_end(),
            first: self.results.len() == 0,
        }
    }

    /// The cache after the output of the next batch has been taken in. At the
    /// ceiling no batch is outstanding, and output is dropped.
    pub open spec fn absorbed(self, output: Seq<char>) -> CacheModel {
        if self.at_ceiling() {
            CacheModel { exhausted: true, ..self }
        } else {
            CacheModel {
                results: self.results + records(lines(output), self.filter_shorts),
                raw_cursor: self.batch_end(),
                exhausted: self.exhausted || raw_count(lines(output)) < self.batch_size()
                    || self.batch_end() >= SEARCH_CEILING,
                ..self
            }
        }
    }
}

/// What `ensure_page` tells its caller to do.
#[derive(Debug)]
pub enum FetchStep {
    /// The page is there, or never will be; the number of results so far.
    Ready(usize),
    /// Run the search command on this, hand its output to `absorb`, and ask
    /// again.
    Fetch(BatchRequest),
}

/// Search results that arrive in batches and are kept for paging.
pub struct PaginatedSearch {
    query: String,
    page_size: usize,
    filter_shorts: bool,
    results: Vec<SearchResult>,
    raw_cursor: usize,
    exhausted: bool,
}

impl View for PaginatedSearch {
    type V = CacheModel;

    closed spec fn view(&self) -> CacheModel {
        CacheModel {
            query: self.query@,
            page_size: self.page_size as nat,
            filter_shorts: self.filter_shorts,
            results: records_of(self.results@),
            raw_cursor: self.raw_cursor as nat,
            exhausted: self.exhausted,
        }
    }
}

impl PaginatedSearch {
    /// A cache for `query` with nothing in it.
    pub fn new(query: &str, page_size: usize, filter_shorts: bool) -> (r: Self)
        ensures
            r@ == CacheModel::fresh(query@, page_size as nat, filter_shorts),
            r@.wf(),
    {
        let r = PaginatedSearch {
            query: query.to_owned(),
            page_size,
            filter_shorts,
            results: Vec::new(),
            raw_cursor: 0,
            exhausted: false,
        };
        assert(records_of(r.results@) =~= Seq::<Record>::empty());
        r
    }

    /// Starts over for `query`: results, cursor and exhaustion are cleared
    /// together.
    pub fn reset(&mut self, query: &str)
        ensures
            final(self)@ == old(self)@.reset(query@),
            final(self)@.wf(),
    {
        self.query = query.to_owned();
        self.results.clear();
        self.raw_cursor = 0;
        self.exhausted = false;
        assert(records_of(self.results@) =~= Seq::<Record>::empty());
    }

    /// The query that the cache holds results for.
    pub fn query(&self) -> (r: &str)
        ensures
            r@ == self@.query,
    {
        self.query.as_str()
    }

    /// The number of results on a page.
    pub fn page_size(&self) -> (r: usize)
        ensures
            r == self@.page_size,
    {
        self.page_size
    }

    /// Whether short items are left out.
    pub fn filter_shorts(&self) -> (r: bool)
        ensures
            r == self@.filter_shorts,
    {
        self.filter_shorts
    }

    /// How many raw items have been asked for.
    pub fn raw_cursor(&self) -> (r: usize)
        ensures
            r == self@.raw_cursor,
    {
        self.raw_cursor
    }

    /// Whether nothing more will be fetched for the query.
    pub fn exhausted(&self) -> (r: bool)
        ensures
            r == self@.exhausted,
    {
        self.exhausted
    }

    /// Everything found so far, in the order it came.
    pub fn results(&self) -> (r: &Vec<SearchResult>)
        ensures
            records_of(r@) == self@.results,
    {
        &self.results
    }

    /// Whether the pages up to `page` are full.
    fn has_page(&self, page: usize) -> (b: bool)
        ensures
            b == (self@.results.len() >= self@.needed(page as nat)),
    {
        let pages: u128 = page as u128 + 1;
        let size: u128 = self.page_size as u128;
        assert(pages * size <= 0x1_0000_0000_0000_0000 * 0xffff_ffff_ffff_ffff) by (nonlinear_arith)
            requires
                0 <= pages <= 0x1_0000_0000_0000_0000,
                0 <= size <= 0xffff_ffff_ffff_ffff,
        ;
        self.results.len() as u128 >= pages * size
    }

    /// The number of raw items in a batch.
    fn batch_size(&self) -> (r: u128)
        ensures
            r == self@.batch_size(),
    {
        if self.filter_shorts {
            self.page_size as u128 * 3
        } else {
            self.page_size as u128
        }
    }

    /// The last raw item of the next batch.
    fn batch_end(&self) -> (r: usize)
        requires
            self.raw_cursor < SEARCH_CEILING,
        ensures
            r == self@.batch_end(),
            r <= SEARCH_CEILING,
    {
        let room: u128 = (SEARCH_CEILING - self.raw_cursor) as u128;
        let size = self.batch_size();
        if size < room {
            self.raw_cursor + size as usize
        } else {
            SEARCH_CEILING
        }
    }

    /// The next batch request.
    fn request(&self) -> (r: BatchRequest)
        requires
            self.raw_cursor < SEARCH_CEILING,
        ensures
            r@ == self@.request(),
    {
        let start = self.raw_cursor + 1;
        let end = self.batch_end();
        let mut search_id = "ytsearch".to_owned();
        push_decimal(&mut search_id, SEARCH_CEILING as u128);
        push_char(&mut search_id, ':');
        search_id.append(self.query.as_str());
        let mut range = String::new();
        push_decimal(&mut range, start as u128);
        push_char(&mut range, ':');
        push_decimal(&mut range, end as u128);
        let r = BatchRequest { search_id, range, start, end, first: self.results.len() == 0 };
        proof {
            assert(r.search_id@ =~= self@.request().search_id);
            assert(r.range@ =~= self@.request().range);
        }
        r
    }

    /// Sees to it that page `page` (counted from zero) can be shown. `Ready`
    /// says that the results fill the page or that the cache is exhausted;
    /// `Fetch` says which batch to run first.
    pub fn ensure_page(&mut self, page: usize) -> (step: FetchStep)
        ensures
            final(self)@ == old(self)@.ensured(page as nat),
            old(self)@.wf() ==> final(self)@.wf(),
            match step {
                FetchStep::Ready(n) => {
                    &&& !old(self)@.wants_batch(page as nat)
                    &&& n == final(self)@.results.len()
                    &&& final(self)@.settled(page as nat)
                },
                FetchStep::Fetch(request) => {
                    &&& old(self)@.wants_batch(page as nat)
                    &&& request@ == old(self)@.request()
                },
            },
    {
        if !self.has_page(page) && !self.exhausted {
            if self.raw_cursor >= SEARCH_CEILING {
                self.exhausted = true;
            } else {
                return FetchStep::Fetch(self.request());
            }
        }
        FetchStep::Ready(self.results.len())
    }

    /// Takes in the output of the batch that `ensure_page` asked for: the
    /// results its lines stand for are added, the cursor moves to the end of
    /// the batch, and the cache is exhausted where fewer raw items came than
    /// were asked for or the ceiling is reached. Returns the number of raw
    /// items that came.
    pub fn absorb(&mut self, output: &str) -> (raw: usize)
        ensures
            final(self)@ == old(self)@.absorbed(output@),
            old(self)@.wf() ==> final(self)@.wf(),
            raw == raw_count(lines(output@)),
    {
        let (mut batch, raw) = parse_batch(output, self.filter_shorts);
        if self.raw_cursor >= SEARCH_CEILING {
            self.exhausted = true;
            return raw;
        }
        let end = self.batch_end();
        let size = self.batch_size();
        let ghost before = self.results@;
        let ghost added = batch@;
        self.results.append(&mut batch);
        self.raw_cursor = end;
        if (raw as u128) < size || end >= SEARCH_CEILING {
            self.exhausted = true;
        }
        proof {
            assert(records_of(before + added) =~= records_of(before) + records_of(added));
        }
        raw
    }
}

/// One call on the cache between two resets.
pub enum CacheStep {
    /// `ensure_page` for a page.
    Ensure(nat),
    /// `absorb` of an output.
    Absorb(Seq<char>),
}

/// The cache after `steps`, taken in order from `m`.
pub open spec fn run(m: CacheModel, steps: Seq<CacheStep>) -> CacheModel
    decreases steps.len(),
{
    if steps.len() == 0 {
        m
    } else {
        let before = run(m, steps.drop_last());
        match steps.last() {
            CacheStep::Ensure(page) => before.ensured(page),
            CacheStep::Absorb(output) => before.absorbed(output),
        }
    }
}

/// Whether `a` is `b` or `b` cut short.
pub open spec fn is_prefix(a: Seq<Record>, b: Seq<Record>) -> bool {
    a.len() <= b.len() && b.take(a.len() as int) == a
}

/// When `ensure_page` asks for no batch, the page is full or the cache is
/// exhausted.
pub proof fn lemma_page_settled(m: CacheModel, page: nat)
    ensures
        m.wants_batch(page) || m.ensured(page).settled(page),
        m.wants_batch(page) ==> m.ensured(page) == m,
{
}

/// A batch that `ensure_page` asked for moves the cursor forward, and never
/// past the ceiling: the cache asks for a batch only so many times.
pub proof fn lemma_fetch_progress(m: CacheModel, page: nat, output: Seq<char>)
    requires
        m.wants_batch(page),
    ensures
        m.raw_cursor < m.absorbed(output).raw_cursor <= SEARCH_CEILING,
{
    assert(m.page_size > 0) by {
        if m.page_size == 0 {
            assert(m.needed(page) == 0) by (nonlinear_arith)
                requires
                    m.needed(page) == (page + 1) * m.page_size,
                    m.page_size == 0,
            ;
        }
    }
}

/// The cache once `ensure_page(page)` has been seen through: as long as it
/// asks for a batch, the next output of `supply` is absorbed; `round` counts
/// the outputs used so far.
pub open spec fn driven(
    m: CacheModel,
    page: nat,
    supply: spec_fn(nat) -> Seq<char>,
    round: nat,
) -> CacheModel
    decreases SEARCH_CEILING - m.raw_cursor,
{
    if m.wants_batch(page) {
        proof {
            lemma_fetch_progress(m, page, supply(round));
        }
        driven(m.absorbed(supply(round)), page, supply, round + 1)
    } else {
        m.ensured(page)
    }
}

/// Whatever the search command puts out, seeing `ensure_page(page)` through
/// ends, and it ends with the page full or the cache exhausted. It takes no
/// more batches than the ceiling has raw items.
pub proof fn lemma_driven_settles(
    m: CacheModel,
    page: nat,
    supply: spec_fn(nat) -> Seq<char>,
    round: nat,
)
    ensures
        driven(m, page, supply, round).settled(page),
        !driven(m, page, supply, round).wants_batch(page),
    decreases SEARCH_CEILING - m.raw_cursor,
{
    if m.wants_batch(page) {
        lemma_fetch_progress(m, page, supply(round));
        lemma_driven_settles(m.absorbed(supply(round)), page, supply, round + 1);
    }
}

/// No call but `reset` takes anything back: the results only grow, at their
/// end; the cursor only grows; an exhausted cache stays exhausted; the query
/// and the settings stay.
pub proof fn lemma_step_monotone(m: CacheModel, step: CacheStep)
    ensures
        ({
            let n = run(m, seq![step]);
            &&& is_prefix(m.results, n.results)
            &&& m.raw_cursor <= n.raw_cursor
            &&& m.exhausted ==> n.exhausted
            &&& n.query == m.query
            &&& n.page_size == m.page_size
            &&& n.filter_shorts == m.filter_shorts
            &&& m.wf() ==> n.wf()
        }),
{
    let steps = seq![step];
    assert(run(m, steps.drop_last()) == m);
    let n = run(m, steps);
    assert(n.results.take(m.results.len() as int) =~= m.results);
    match step {
        CacheStep::Ensure(page) => {},
        CacheStep::Absorb(output) => {
            lemma_records_have_ids(lines(output), m.filter_shorts);
        },
    }
}

/// The same over any number of calls.
pub proof fn lemma_run_monotone(m: CacheModel, steps: Seq<CacheStep>)
    ensures
        ({
            let n = run(m, steps);
            &&& is_prefix(m.results, n.results)
            &&& m.raw_cursor <= n.raw_cursor
            &&& m.exhausted ==> n.exhausted
            &&& n.query == m.query
            &&& n.page_size == m.page_size
            &&& n.filter_shorts == m.filter_shorts
            &&& m.wf() ==> n.wf()
        }),
    decreases steps.len(),
{
    if steps.len() == 0 {
        assert(m.results.take(m.results.len() as int) =~= m.results);
    } else {
        let before = run(m, steps.drop_last());
        lemma_run_monotone(m, steps.drop_last());
        lemma_step_monotone(before, steps.last());
        let one = seq![steps.last()];
        assert(run(before, one.drop_last()) == before);
        let n = run(m, steps);
        assert(n.results.take(m.results.len() as int) =~= before.results.take(
            m.results.len() as int,
        ));
    }
}

/// After `reset` nothing is left of what the cache held: whatever two caches
/// with the same settings held before, the same calls after a `reset` for the
/// same query leave them the same.
pub proof fn lemma_reset_forgets(
    a: CacheModel,
    b: CacheModel,
    query: Seq<char>,
    steps: Seq<CacheStep>,
)
    requires
        a.page_size == b.page_size,
        a.filter_shorts == b.filter_shorts,
    ensures
        a.reset(query).results.len() == 0,
        a.reset(query).raw_cursor == 0,
        !a.reset(query).exhausted,
        run(a.reset(query), steps) == run(b.reset(query), steps),
{
}

/// Every result that lines stand for has an identifier.
pub proof fn lemma_records_have_ids(lines: Seq<Seq<char>>, filter_shorts: bool)
    ensures
        forall|i: int|
            0 <= i < records(lines, filter_shorts).len() ==> (#[trigger] records(
                lines,
                filter_shorts,
            )[i]).id.len() > 0,
    decreases lines.len(),
{
    if lines.len() > 0 {
        lemma_records_have_ids(lines.drop_last(), filter_shorts);
        let before = records(lines.drop_last(), filter_shorts);
    }
}

} // verus!
