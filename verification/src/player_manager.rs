//! The playback engine: what is known of one background player, which
//! requests to send it, and what each delivered request and each reply change.
//!
//! The engine never touches the process or the socket. It says what to run
//! and what to send; the caller reports what was delivered and what came back.

use crate::ipc::{command_line, get_property, IpcError, Property, Scalar, ScalarView, command_text, json_member, reply_value};
use crate::player::{Invocation, InvocationView};
use crate::text::{
    concat2, decimal, lemma_decimal_reads_back, push_decimal, signed_decimal,
    signed_decimal_string, string_views,
};
use crate::number::{numeral, parse_numeral, saturated, Numeral, Reading};
use vstd::prelude::*;
use vstd::string::StringExecFns;

verus! {

/// How long to wait for the player's endpoint to appear, in milliseconds.
pub const CONNECT_TIMEOUT_MS: u64 = 2000;

/// How long to sleep between two looks for the endpoint, in milliseconds.
pub const CONNECT_POLL_MS: u64 = 100;

/// The loudest volume, in percent.
pub const MAX_VOLUME: i32 = 100;

/// What was last known of the playback.
#[derive(Debug)]
pub struct PlaybackStatus {
    pub playing: bool,
    pub paused: bool,
    /// Whole seconds played.
    pub time_pos: u64,
    /// Whole seconds that the item lasts.
    pub duration: u64,
    /// Percent, from 0 to 100.
    pub volume: i32,
    pub title: String,
    pub eof_reached: bool,
}

/// A playback status as plain values.
pub struct StatusView {
    pub playing: bool,
    pub paused: bool,
    pub time_pos: u64,
    pub duration: u64,
    pub volume: i32,
    pub title: Seq<char>,
    pub eof_reached: bool,
}

impl View for PlaybackStatus {
    type V = StatusView;

    open spec fn view(&self) -> StatusView {
        StatusView {
            playing: self.playing,
            paused: self.paused,
            time_pos: self.time_pos,
            duration: self.duration,
            volume: self.volume,
            title: self.title@,
            eof_reached: self.eof_reached,
        }
    }
}

/// `v` brought into the range of a volume.
pub open spec fn clamp_volume(v: int) -> i32 {
    if v < 0 {
        0
    } else if v > MAX_VOLUME {
        MAX_VOLUME
    } else {
        v as i32
    }
}

/// The whole seconds that the numeral `n` tells of: none below zero and
/// none for what is no number, and no more than a `u64` holds.
pub open spec fn seconds_of(n: Numeral) -> u64 {
    match n {
        Numeral::Finite { negative, whole } => if negative {
            0
        } else {
            saturated(whole)
        },
        Numeral::Infinite { negative } => if negative {
            0
        } else {
            u64::MAX
        },
        Numeral::NotANumber => 0,
    }
}

/// The volume that the numeral `n` tells of: its whole units, brought into
/// range.
pub open spec fn volume_of(n: Numeral) -> i32 {
    clamp_volume(seconds_of(n) as int)
}

impl StatusView {
    /// The status before anything is loaded, and after a stop.
    pub open spec fn initial() -> StatusView {
        StatusView {
            playing: false,
            paused: false,
            time_pos: 0,
            duration: 0,
            volume: MAX_VOLUME,
            title: Seq::empty(),
            eof_reached: false,
        }
    }

    /// The volume is a percentage.
    pub open spec fn wf(self) -> bool {
        0 <= self.volume <= MAX_VOLUME
    }

    /// The status once `title` has been loaded.
    pub open spec fn loaded(self, title: Seq<char>, paused: bool) -> StatusView {
        StatusView { title, playing: true, paused, eof_reached: false, ..self }
    }

    /// The status once the player has told `value` of `property`. A value of
    /// the wrong kind, or a number that cannot be read, changes
    /// nothing; no property touches another's field.
    pub open spec fn recorded(self, property: Property, value: ScalarView) -> StatusView {
        match (property, value) {
            (Property::TimePos, ScalarView::Number(t)) => match numeral(t) {
                Some(n) => StatusView { time_pos: seconds_of(n), ..self },
                None => self,
            },
            (Property::Duration, ScalarView::Number(t)) => match numeral(t) {
                Some(n) => StatusView { duration: seconds_of(n), ..self },
                None => self,
            },
            (Property::Volume, ScalarView::Number(t)) => match numeral(t) {
                Some(n) => StatusView { volume: volume_of(n), ..self },
                None => self,
            },
            (Property::Pause, ScalarView::Flag(b)) => StatusView { paused: b, ..self },
            (Property::EofReached, ScalarView::Flag(b)) => StatusView { eof_reached: b, ..self },
            _ => self,
        }
    }
}

impl Default for PlaybackStatus {
    fn default() -> (r: Self)
        ensures
            r@ == StatusView::initial(),
    {
        PlaybackStatus {
            playing: false,
            paused: false,
            time_pos: 0,
            duration: 0,
            volume: MAX_VOLUME,
            title: String::new(),
            eof_reached: false,
        }
    }
}

impl Clone for PlaybackStatus {
    fn clone(&self) -> (r: Self)
        ensures
            r == *self,
    {
        PlaybackStatus {
            playing: self.playing,
            paused: self.paused,
            time_pos: self.time_pos,
            duration: self.duration,
            volume: self.volume,
            title: self.title.clone(),
            eof_reached: self.eof_reached,
        }
    }
}

/// `v` brought into the range of a volume.
pub fn clamped_volume(v: i32) -> (r: i32)
    ensures
        r == clamp_volume(v as int),
        0 <= r <= MAX_VOLUME,
{
    if v < 0 {
        0
    } else if v > MAX_VOLUME {
        MAX_VOLUME
    } else {
        v
    }
}

impl PlaybackStatus {
    /// Takes in what the player told of `property`.
    pub fn record(&mut self, property: Property, value: &Scalar)
        ensures
            final(self)@ == old(self)@.recorded(property, value@),
            old(self)@.wf() ==> final(self)@.wf(),
    {
        match value {
            Scalar::Number(text) => {
                match parse_numeral(text.as_str()) {
                    Some(reading) => {
                        let seconds: u64 = match reading {
                            Reading::Finite { negative, whole } => if negative {
                                0
                            } else {
                                whole
                            },
                            Reading::Infinite { negative } => if negative {
                                0
                            } else {
                                u64::MAX
                            },
                            Reading::NotANumber => 0,
                        };
                        match property {
                            Property::TimePos => {
                                self.time_pos = seconds;
                            },
                            Property::Duration => {
                                self.duration = seconds;
                            },
                            Property::Volume => {
                                self.volume = if seconds > MAX_VOLUME as u64 {
                                    MAX_VOLUME
                                } else {
                                    seconds as i32
                                };
                            },
                            _ => {},
                        }
                    },
                    None => {},
                }
            },
            Scalar::Flag(b) => {
                match property {
                    Property::Pause => {
                        self.paused = *b;
                    },
                    Property::EofReached => {
                        self.eof_reached = *b;
                    },
                    _ => {},
                }
            },
            _ => {},
        }
    }
}

/// Something to ask of the player.
#[derive(Debug)]
pub enum Request {
    /// Load the item at `url` and play it, or hold it paused.
    Load { url: String, title: String, paused: bool },
    /// Pause if playing, resume if paused.
    CyclePause,
    Stop,
    /// Move by so many seconds from where the playback is.
    Seek(i64),
    /// Set the volume to so many percent.
    SetVolume(i32),
    /// Tell the value of a property.
    Get(Property),
}

/// A request as plain values.
pub enum RequestView {
    Load { url: Seq<char>, title: Seq<char>, paused: bool },
    CyclePause,
    Stop,
    Seek(i64),
    SetVolume(i32),
    Get(Property),
}

impl View for Request {
    type V = RequestView;

    open spec fn view(&self) -> RequestView {
        match self {
            Request::Load { url, title, paused } => RequestView::Load {
                url: url@,
                title: title@,
                paused: *paused,
            },
            Request::CyclePause => RequestView::CyclePause,
            Request::Stop => RequestView::Stop,
            Request::Seek(s) => RequestView::Seek(*s),
            Request::SetVolume(v) => RequestView::SetVolume(*v),
            Request::Get(p) => RequestView::Get(*p),
        }
    }
}

/// The commands that carry the request `r`, in the order they are sent; each
/// is a verb and its arguments.
pub open spec fn request_commands(r: RequestView) -> Seq<Seq<Seq<char>>> {
    match r {
        RequestView::Load { url, title, paused } => if paused {
            seq![seq!["loadfile"@, url], seq!["set_property"@, "pause"@, "yes"@]]
        } else {
            seq![seq!["loadfile"@, url]]
        },
        RequestView::CyclePause => seq![seq!["cycle"@, "pause"@]],
        RequestView::Stop => seq![seq!["stop"@]],
        RequestView::Seek(s) => seq![seq!["seek"@, signed_decimal(s as int), "relative"@]],
        RequestView::SetVolume(v) => seq![
            seq!["set_property"@, "volume"@, signed_decimal(v as int)],
        ],
        RequestView::Get(p) => seq![seq!["get_property"@, p.spec_name()]],
    }
}

/// The views of commands.
pub open spec fn command_views(commands: Seq<Vec<String>>) -> Seq<Seq<Seq<char>>> {
    commands.map_values(|c: Vec<String>| string_views(c@))
}

fn words1(a: &str) -> (r: Vec<String>)
    ensures
        string_views(r@) == seq![a@],
{
    let mut r: Vec<String> = Vec::new();
    r.push(a.to_owned());
    r
}

fn words2(a: &str, b: &str) -> (r: Vec<String>)
    ensures
        string_views(r@) == seq![a@, b@],
{
    let mut r: Vec<String> = Vec::new();
    r.push(a.to_owned());
    r.push(b.to_owned());
    r
}

fn words3(a: &str, b: &str, c: &str) -> (r: Vec<String>)
    ensures
        string_views(r@) == seq![a@, b@, c@],
{
    let mut r: Vec<String> = Vec::new();
    r.push(a.to_owned());
    r.push(b.to_owned());
    r.push(c.to_owned());
    r
}

impl Request {
    /// The commands that carry the request, in the order they are sent.
    pub fn commands(&self) -> (r: Vec<Vec<String>>)
        ensures
            command_views(r@) == request_commands(self@),
    {
        let mut r: Vec<Vec<String>> = Vec::new();
        match self {
            Request::Load { url, title, paused } => {
                r.push(words2("loadfile", url.as_str()));
                if *paused {
                    r.push(words3("set_property", "pause", "yes"));
                }
            },
            Request::CyclePause => {
                r.push(words2("cycle", "pause"));
            },
            Request::Stop => {
                r.push(words1("stop"));
            },
            Request::Seek(s) => {
                let amount = signed_decimal_string(*s);
                r.push(words3("seek", amount.as_str(), "relative"));
            },
            Request::SetVolume(v) => {
                let amount = signed_decimal_string(*v as i64);
                r.push(words3("set_property", "volume", amount.as_str()));
            },
            Request::Get(p) => {
                r.push(words2("get_property", p.name()));
            },
        }
        r
    }

    /// The lines to write for the request, in order. Every request can be
    /// framed.
    pub fn lines(&self) -> (r: Result<Vec<String>, IpcError>)
        ensures
            r is Ok,
            string_views(r->Ok_0@) == request_commands(self@).map_values(
                |c: Seq<Seq<char>>| command_text(c),
            ),
    {
        let commands = self.commands();
        let ghost wanted = request_commands(self@).map_values(
            |c: Seq<Seq<char>>| command_text(c),
        );
        let mut lines: Vec<String> = Vec::new();
        let mut i: usize = 0;
        while i < commands.len()
            invariant
                i <= commands.len(),
                command_views(commands@) == request_commands(self@),
                wanted == request_commands(self@).map_values(|c: Seq<Seq<char>>| command_text(c)),
                string_views(lines@) == wanted.take(i as int),
            decreases commands.len() - i,
        {
            let ghost before = string_views(lines@);
            match command_line(&commands[i]) {
                Ok(line) => {
                    lines.push(line);
                    proof {
                        assert(wanted.take(i + 1) =~= wanted.take(i as int).push(line@));
                    }
                },
                Err(e) => {
                    return Err(e);
                },
            }
            i += 1;
        }
        Ok(lines)
    }
}

/// How far the engine has come with its player.
#[derive(Debug, Clone, Copy, PartialEq, Eq, Structural)]
pub enum Link {
    /// No process yet.
    Unstarted,
    /// The process runs; no channel to it yet.
    Spawned,
    /// The channel is open.
    Connected,
    /// The process has been given up.
    Terminated,
}

/// The state of the engine, playback included.
#[derive(Debug, Clone, Copy, PartialEq, Eq, Structural)]
pub enum Phase {
    Unstarted,
    Spawned,
    /// Connected with nothing loaded; also the state after a stop.
    ConnectedIdle,
    Playing,
    Paused,
    Terminated,
}

/// Why the engine could not do what was asked.
#[derive(Debug, Clone, Copy, PartialEq, Eq, Structural)]
pub enum PlayerError {
    /// The endpoint did not appear in time.
    ConnectionTimeout,
    /// The endpoint was there but the channel could not be opened.
    ConnectFailed,
    /// There is no open channel.
    NotConnected,
    /// A request could not be written.
    SendFailed,
    /// There is no process to talk to.
    NotRunning,
}

/// What to do next on the way to an open channel.
#[derive(Debug, Clone, Copy, PartialEq, Eq, Structural)]
pub enum ConnectStep {
    /// The channel is open already.
    Connected,
    /// The endpoint is there: open the channel and report with `opened`.
    Open,
    /// Sleep for so many milliseconds and look again.
    Wait(u64),
    /// Give up.
    Failed(PlayerError),
}

/// A request together with the engine's word on the channel.
#[derive(Debug)]
pub struct Dispatch {
    pub request: Request,
    /// The channel is not open yet: connect before sending.
    pub connect_first: bool,
}

/// What to release when the engine goes.
#[derive(Debug)]
pub struct Teardown {
    /// Kill the process.
    pub kill: bool,
    /// Remove the endpoint at this path.
    pub remove: Option<String>,
}

/// The engine as plain values.
pub struct PlayerView {
    pub socket_path: Seq<char>,
    pub link: Link,
    pub status: StatusView,
}

/// The endpoint of the player that the process `pid` starts.
pub open spec fn socket_path_of(pid: u32) -> Seq<char> {
    "/tmp/youtui-"@ + decimal(pid as nat) + ".sock"@
}

/// The step that `connect` answers with.
pub open spec fn connect_step(link: Link, endpoint_exists: bool, waited_ms: u64) -> ConnectStep {
    match link {
        Link::Connected => ConnectStep::Connected,
        Link::Spawned => if endpoint_exists {
            ConnectStep::Open
        } else if waited_ms > CONNECT_TIMEOUT_MS {
            ConnectStep::Failed(PlayerError::ConnectionTimeout)
        } else {
            ConnectStep::Wait(CONNECT_POLL_MS)
        },
        _ => ConnectStep::Failed(PlayerError::NotRunning),
    }
}

impl PlayerView {
    /// The engine before its process is started.
    pub open spec fn fresh(pid: u32) -> PlayerView {
        PlayerView {
            socket_path: socket_path_of(pid),
            link: Link::Unstarted,
            status: StatusView::initial(),
        }
    }

    /// The state of the engine, playback included.
    pub open spec fn phase(self) -> Phase {
        match self.link {
            Link::Unstarted => Phase::Unstarted,
            Link::Spawned => Phase::Spawned,
            Link::Terminated => Phase::Terminated,
            Link::Connected => if !self.status.playing {
                Phase::ConnectedIdle
            } else if self.status.paused {
                Phase::Paused
            } else {
                Phase::Playing
            },
        }
    }

    /// The status once the request `r` has been delivered.
    pub open spec fn applied(self, r: RequestView) -> StatusView {
        match r {
            RequestView::Load { url, title, paused } => self.status.loaded(title, paused),
            RequestView::CyclePause => StatusView { paused: !self.status.paused, ..self.status },
            RequestView::Stop => StatusView::initial(),
            RequestView::Seek(_) => self.status,
            RequestView::SetVolume(v) => StatusView {
                volume: clamp_volume(v as int),
                ..self.status
            },
            RequestView::Get(_) => self.status,
        }
    }

    /// How `complete` answers.
    pub open spec fn completion(self, delivered: bool) -> Result<(), PlayerError> {
        if self.link != Link::Connected {
            Err(PlayerError::NotConnected)
        } else if !delivered {
            Err(PlayerError::SendFailed)
        } else {
            Ok(())
        }
    }

    /// The engine after `complete`: only a request that was delivered over an
    /// open channel changes anything.
    pub open spec fn completed(self, r: RequestView, delivered: bool) -> PlayerView {
        if self.completion(delivered) is Ok {
            PlayerView { status: self.applied(r), ..self }
        } else {
            self
        }
    }

    /// The engine after the reply `reply` to a poll of `property`: a reply
    /// that is missing or carries no value changes nothing.
    pub open spec fn updated(self, property: Property, reply: Option<Seq<char>>) -> PlayerView {
        match reply {
            Some(line) if self.link == Link::Connected => match reply_value(
                json_member(line, "error"@),
                json_member(line, "data"@),
            ) {
                Ok(value) => PlayerView { status: self.status.recorded(property, value), ..self },
                Err(_) => self,
            },
            _ => self,
        }
    }
}

/// Whether `teardown` releases all that the engine `pm` had started: a
/// process that runs is killed and its endpoint removed, and where no
/// process runs there is nothing to kill or to remove.
pub open spec fn releases(pm: PlayerView, teardown: Teardown) -> bool {
    &&& teardown.kill == (pm.link == Link::Spawned || pm.link == Link::Connected)
    &&& teardown.remove is Some == teardown.kill
    &&& teardown.remove matches Some(path) ==> path@ == pm.socket_path
}

/// The properties that a poll asks for, in order.
pub open spec fn polled() -> Seq<Property> {
    seq![
        Property::TimePos,
        Property::Duration,
        Property::Pause,
        Property::Volume,
        Property::EofReached,
    ]
}

/// The engine of one background player.
pub struct PlayerManager {
    socket_path: String,
    link: Link,
    status: PlaybackStatus,
}

impl View for PlayerManager {
    type V = PlayerView;

    closed spec fn view(&self) -> PlayerView {
        PlayerView { socket_path: self.socket_path@, link: self.link, status: self.status@ }
    }
}

impl PlayerManager {
    /// The engine for the session that runs as process `pid`. Nothing is
    /// started yet; the endpoint's path is the session's own.
    pub fn new(pid: u32) -> (r: Self)
        ensures
            r@ == PlayerView::fresh(pid),
    {
        let mut socket_path = "/tmp/youtui-".to_owned();
        push_decimal(&mut socket_path, pid as u128);
        socket_path.append(".sock");
        PlayerManager { socket_path, link: Link::Unstarted, status: PlaybackStatus::default() }
    }

    /// The path of the player's endpoint.
    pub fn socket_path(&self) -> (r: &str)
        ensures
            r@ == self@.socket_path,
    {
        self.socket_path.as_str()
    }

    /// How far the engine has come with its player.
    pub fn link(&self) -> (r: Link)
        ensures
            r == self@.link,
    {
        self.link
    }

    /// What was last known of the playback.
    pub fn status(&self) -> (r: &PlaybackStatus)
        ensures
            r@ == self@.status,
    {
        &self.status
    }

    /// The state of the engine, playback included.
    pub fn phase(&self) -> (r: Phase)
        ensures
            r == self@.phase(),
    {
        match self.link {
            Link::Unstarted => Phase::Unstarted,
            Link::Spawned => Phase::Spawned,
            Link::Terminated => Phase::Terminated,
            Link::Connected => if !self.status.playing {
                Phase::ConnectedIdle
            } else if self.status.paused {
                Phase::Paused
            } else {
                Phase::Playing
            },
        }
    }

    /// What starts the player: idle, without video, listening on the
    /// engine's endpoint.
    pub fn launch(&self) -> (r: Invocation)
        ensures
            r@ == (InvocationView {
                program: "mpv"@,
                args: seq![
                    "--idle"@,
                    "--input-ipc-server="@ + self@.socket_path,
                    "--no-video"@,
                ],
            }),
    {
        let mut args: Vec<String> = Vec::new();
        args.push("--idle".to_owned());
        args.push(concat2("--input-ipc-server=", self.socket_path.as_str()));
        args.push("--no-video".to_owned());
        assert(string_views(args@) =~= seq![
            "--idle"@,
            "--input-ipc-server="@ + self@.socket_path,
            "--no-video"@,
        ]);
        Invocation { program: "mpv".to_owned(), args }
    }

    /// Records that the process runs.
    pub fn spawned(&mut self)
        ensures
            final(self)@ == (PlayerView {
                link: if old(self)@.link == Link::Unstarted {
                    Link::Spawned
                } else {
                    old(self)@.link
                },
                ..old(self)@
            }),
    {
        match self.link {
            Link::Unstarted => {
                self.link = Link::Spawned;
            },
            _ => {},
        }
    }

    /// The next step towards an open channel, given whether the endpoint is
    /// there and how long the caller has waited for it.
    pub fn connect(&self, endpoint_exists: bool, waited_ms: u64) -> (r: ConnectStep)
        ensures
            r == connect_step(self@.link, endpoint_exists, waited_ms),
    {
        match self.link {
            Link::Connected => ConnectStep::Connected,
            Link::Spawned => if endpoint_exists {
                ConnectStep::Open
            } else if waited_ms > CONNECT_TIMEOUT_MS {
                ConnectStep::Failed(PlayerError::ConnectionTimeout)
            } else {
                ConnectStep::Wait(CONNECT_POLL_MS)
            },
            _ => ConnectStep::Failed(PlayerError::NotRunning),
        }
    }

    /// Records whether the channel could be opened.
    pub fn opened(&mut self, ok: bool) -> (r: Result<(), PlayerError>)
        ensures
            r == (match old(self)@.link {
                Link::Connected => Ok::<(), PlayerError>(()),
                Link::Spawned => if ok {
                    Ok(())
                } else {
                    Err(PlayerError::ConnectFailed)
                },
                _ => Err(PlayerError::NotRunning),
            }),
            final(self)@ == (PlayerView {
                link: if r is Ok {
                    Link::Connected
                } else {
                    old(self)@.link
                },
                ..old(self)@
            }),
    {
        match self.link {
            Link::Connected => Ok(()),
            Link::Spawned => if ok {
                self.link = Link::Connected;
                Ok(())
            } else {
                Err(PlayerError::ConnectFailed)
            },
            _ => Err(PlayerError::NotRunning),
        }
    }

    /// The request that loads and plays `url`. Without an open channel the
    /// caller connects first.
    pub fn play(&self, url: &str, title: &str) -> (r: Dispatch)
        ensures
            r.request@ == (RequestView::Load { url: url@, title: title@, paused: false }),
            r.connect_first == (self@.link != Link::Connected),
    {
        Dispatch {
            request: Request::Load { url: url.to_owned(), title: title.to_owned(), paused: false },
            connect_first: !self.is_connected(),
        }
    }

    /// The request that loads `url` and holds it paused.
    pub fn load_paused(&self, url: &str, title: &str) -> (r: Dispatch)
        ensures
            r.request@ == (RequestView::Load { url: url@, title: title@, paused: true }),
            r.connect_first == (self@.link != Link::Connected),
    {
        Dispatch {
            request: Request::Load { url: url.to_owned(), title: title.to_owned(), paused: true },
            connect_first: !self.is_connected(),
        }
    }

    /// Whether the channel is open.
    pub fn is_connected(&self) -> (r: bool)
        ensures
            r == (self@.link == Link::Connected),
    {
        match self.link {
            Link::Connected => true,
            _ => false,
        }
    }

    /// The request that pauses or resumes; none without an open channel.
    pub fn toggle_pause(&self) -> (r: Option<Request>)
        ensures
            r is Some == (self@.link == Link::Connected),
            r matches Some(q) ==> q@ == RequestView::CyclePause,
    {
        if self.is_connected() {
            Some(Request::CyclePause)
        } else {
            None
        }
    }

    /// The request that stops the playback; none without an open channel.
    pub fn stop(&self) -> (r: Option<Request>)
        ensures
            r is Some == (self@.link == Link::Connected),
            r matches Some(q) ==> q@ == RequestView::Stop,
    {
        if self.is_connected() {
            Some(Request::Stop)
        } else {
            None
        }
    }

    /// The request that moves the playback by `seconds`; none without an
    /// open channel.
    pub fn seek(&self, seconds: i64) -> (r: Option<Request>)
        ensures
            r is Some == (self@.link == Link::Connected),
            r matches Some(q) ==> q@ == RequestView::Seek(seconds),
    {
        if self.is_connected() {
            Some(Request::Seek(seconds))
        } else {
            None
        }
    }

    /// The request that sets the volume to `volume` percent, brought into
    /// range; none without an open channel.
    pub fn set_volume(&self, volume: i32) -> (r: Option<Request>)
        ensures
            r is Some == (self@.link == Link::Connected),
            r matches Some(q) ==> q@ == RequestView::SetVolume(clamp_volume(volume as int)),
    {
        if self.is_connected() {
            Some(Request::SetVolume(clamped_volume(volume)))
        } else {
            None
        }
    }

    /// Records what became of `request`. A request that was delivered takes
    /// effect on the status; one that was not leaves everything as it was.
    pub fn complete(&mut self, request: &Request, delivered: bool) -> (r: Result<(), PlayerError>)
        ensures
            r == old(self)@.completion(delivered),
            final(self)@ == old(self)@.completed(request@, delivered),
            old(self)@.status.wf() ==> final(self)@.status.wf(),
    {
        if !self.is_connected() {
            return Err(PlayerError::NotConnected);
        }
        if !delivered {
            return Err(PlayerError::SendFailed);
        }
        match request {
            Request::Load { url, title, paused } => {
                self.status.title = title.clone();
                self.status.playing = true;
                self.status.paused = *paused;
                self.status.eof_reached = false;
            },
            Request::CyclePause => {
                self.status.paused = !self.status.paused;
            },
            Request::Stop => {
                self.status = PlaybackStatus::default();
            },
            Request::SetVolume(v) => {
                self.status.volume = clamped_volume(*v);
            },
            _ => {},
        }
        Ok(())
    }

    /// The properties to poll, in order; none without an open channel.
    pub fn update_status(&self) -> (r: Vec<Property>)
        ensures
            r@ == (if self@.link == Link::Connected {
                polled()
            } else {
                Seq::<Property>::empty()
            }),
    {
        let mut r: Vec<Property> = Vec::new();
        if self.is_connected() {
            r.push(Property::TimePos);
            r.push(Property::Duration);
            r.push(Property::Pause);
            r.push(Property::Volume);
            r.push(Property::EofReached);
        }
        r
    }

    /// Takes in the reply to the poll of `property`; `None` where none came.
    /// A poll that fails leaves what was known of the property, and of every
    /// other.
    pub fn update(&mut self, property: Property, reply: Option<&str>)
        ensures
            final(self)@ == old(self)@.updated(
                property,
                match reply {
                    Some(line) => Some(line@),
                    None => None,
                },
            ),
            old(self)@.status.wf() ==> final(self)@.status.wf(),
    {
        if !self.is_connected() {
            return ;
        }
        match reply {
            Some(line) => {
                match get_property(line) {
                    Ok(value) => {
                        self.status.record(property, &value);
                    },
                    Err(_) => {},
                }
            },
            None => {},
        }
    }

    /// Whether the player said at the last poll that the item has ended.
    pub fn is_eof(&self) -> (r: bool)
        ensures
            r == self@.status.eof_reached,
    {
        self.status.eof_reached
    }

    /// Gives the player up. Whatever the engine had started is to be
    /// released, and nothing is asked of the player afterwards.
    pub fn terminate(&mut self) -> (r: Teardown)
        ensures
            final(self)@ == (PlayerView { link: Link::Terminated, ..old(self)@ }),
            releases(old(self)@, r),
    {
        let running = match self.link {
            Link::Spawned => true,
            Link::Connected => true,
            _ => false,
        };
        self.link = Link::Terminated;
        Teardown {
            kill: running,
            remove: if running {
                Some(self.socket_path.clone())
            } else {
                None
            },
        }
    }
}

/// Two sessions that run as different processes have different endpoints.
pub proof fn lemma_socket_paths_differ(a: u32, b: u32)
    requires
        a != b,
    ensures
        socket_path_of(a) != socket_path_of(b),
{
    let head = "/tmp/youtui-"@;
    let tail = ".sock"@;
    let da = decimal(a as nat);
    let db = decimal(b as nat);
    lemma_decimal_reads_back(a as nat);
    lemma_decimal_reads_back(b as nat);
    if socket_path_of(a) == socket_path_of(b) {
        let pa = head + da + tail;
        let pb = head + db + tail;
        assert(pa.len() == pb.len());
        assert(db =~= pb.subrange(head.len() as int, (head.len() + db.len()) as int));
        assert(da == db);
    }
}

/// A volume that was set is a percentage, whatever was asked for.
pub proof fn lemma_volume_clamped(v: PlayerView, volume: i32, delivered: bool)
    requires
        v.status.wf(),
    ensures
        v.completed(RequestView::SetVolume(volume), delivered).status.wf(),
        v.completion(delivered) is Ok ==> v.completed(
            RequestView::SetVolume(volume),
            delivered,
        ).status.volume == clamp_volume(volume as int),
        0 <= clamp_volume(volume as int) <= MAX_VOLUME,
{
}

/// No request and no reply takes the volume out of range.
pub proof fn lemma_status_stays_wf(v: PlayerView, r: RequestView, property: Property, value: ScalarView)
    requires
        v.status.wf(),
    ensures
        v.applied(r).wf(),
        v.status.recorded(property, value).wf(),
{
}

} // verus!
