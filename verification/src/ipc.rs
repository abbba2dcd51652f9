//! The player's control protocol: one JSON object per line, a request going
//! out and a reply coming back. This module frames requests and reads
//! replies; the socket belongs to the caller.

use crate::text::{push_char, string_views, views};
use vstd::prelude::*;

verus! {

#[verifier::external_type_specification]
#[verifier::external_body]
pub struct ExJsonError(serde_json::Error);

/// Why a request could not be framed or a reply not used.
#[derive(Debug, Clone, Copy, PartialEq, Eq, Structural)]
pub enum IpcError {
    /// The encoder refused the request.
    Encoding,
    /// The reply does not report success: the property cannot be had now.
    Unavailable,
}

/// A property of the player that the session polls.
#[derive(Debug, Clone, Copy, PartialEq, Eq, Structural)]
pub enum Property {
    TimePos,
    Duration,
    Pause,
    Volume,
    EofReached,
}

impl Property {
    /// The name of the property on the wire.
    pub open spec fn spec_name(self) -> Seq<char> {
        match self {
            Property::TimePos => "time-pos"@,
            Property::Duration => "duration"@,
            Property::Pause => "pause"@,
            Property::Volume => "volume"@,
            Property::EofReached => "eof-reached"@,
        }
    }

    /// The name of the property on the wire.
    pub fn name(&self) -> (r: &'static str)
        ensures
            r@ == self.spec_name(),
    {
        match self {
            Property::TimePos => "time-pos",
            Property::Duration => "duration",
            Property::Pause => "pause",
            Property::Volume => "volume",
            Property::EofReached => "eof-reached",
        }
    }
}

/// The JSON text that `serde_json::to_string` gives for an object with the
/// one member `key`, an array of the strings `items`.
pub uninterp spec fn json_object_text(key: Seq<char>, items: Seq<Seq<char>>) -> Seq<char>;

/// `serde_json::to_string` on the object `{key: items}`. It succeeds: the
/// encoder writes into memory, and it refuses only a map key that is no
/// string, which an object with one string key over an array of strings has
/// none of. The text is the one that the encoder gives for these values, and
/// for no others.
#[verifier::external_body]
fn encode_object(key: &str, items: &Vec<String>) -> (r: Result<String, serde_json::Error>)
    ensures
        r is Ok,
        r matches Ok(text) ==> text@ == json_object_text(key@, string_views(items@)),
{
    let mut object = serde_json::Map::new();
    object.insert(key.to_owned(), serde_json::Value::from(items.clone()));
    serde_json::to_string(&serde_json::Value::Object(object))
}

/// The line that carries the command `words` to the player.
pub open spec fn command_text(words: Seq<Seq<char>>) -> Seq<char> {
    json_object_text("command"@, words).push('\n')
}

/// Makes a line of an encoded request: the text and a line feed, or the
/// encoder's refusal.
pub fn frame(encoded: Result<String, serde_json::Error>) -> (r: Result<String, IpcError>)
    ensures
        match encoded {
            Ok(text) => r is Ok && r->Ok_0@ == text@.push('\n'),
            Err(_) => r == Err::<String, IpcError>(IpcError::Encoding),
        },
{
    match encoded {
        Ok(text) => {
            let mut line = text;
            push_char(&mut line, '\n');
            Ok(line)
        },
        Err(_) => Err(IpcError::Encoding),
    }
}

/// The line to send for the command `words`: a verb and its arguments.
/// Every command can be framed.
pub fn command_line(words: &Vec<String>) -> (r: Result<String, IpcError>)
    ensures
        r is Ok,
        r->Ok_0@ == command_text(string_views(words@)),
{
    frame(encode_object("command", words))
}

/// The line to send for the command `command`. Every command can be
/// framed.
pub fn send_command(command: &[&str]) -> (r: Result<String, IpcError>)
    ensures
        r is Ok,
        r->Ok_0@ == command_text(views(command@)),
{
    let mut words: Vec<String> = Vec::new();
    let mut i: usize = 0;
    while i < command.len()
        invariant
            i <= command.len(),
            string_views(words@) == views(command@).take(i as int),
        decreases command.len() - i,
    {
        let word = command[i].to_owned();
        words.push(word);
        proof {
            assert(views(command@).take(i + 1) =~= views(command@).take(i as int).push(word@));
        }
        i += 1;
    }
    assert(views(command@).take(command.len() as int) =~= views(command@));
    command_line(&words)
}

/// A member of a reply, as far as the session reads it.
#[derive(Debug)]
pub enum Scalar {
    /// `true` or `false`.
    Flag(bool),
    /// A number, as the decimal text that spells it.
    Number(String),
    /// A string.
    Text(String),
    /// Anything else: null, an array, an object.
    Other,
}

/// A member of a reply as plain values.
pub enum ScalarView {
    Flag(bool),
    Number(Seq<char>),
    Text(Seq<char>),
    Other,
}

impl View for Scalar {
    type V = ScalarView;

    open spec fn view(&self) -> ScalarView {
        match self {
            Scalar::Flag(b) => ScalarView::Flag(*b),
            Scalar::Number(n) => ScalarView::Number(n@),
            Scalar::Text(t) => ScalarView::Text(t@),
            Scalar::Other => ScalarView::Other,
        }
    }
}

/// The views of an optional member.
pub open spec fn member_view(m: Option<Scalar>) -> Option<ScalarView> {
    match m {
        Some(s) => Some(s@),
        None => None,
    }
}

/// What `serde_json` finds under `key` in the JSON object that `text`
/// spells; `None` where `text` is no JSON, no object, or has no such member.
pub uninterp spec fn json_member(text: Seq<char>, key: Seq<char>) -> Option<ScalarView>;

/// `serde_json::from_str` to a `Value`, then `Value::get`: the member `key`
/// of the object that `text` spells. A number comes back as the text that
/// `Number` displays for it.
#[verifier::external_body]
fn member(text: &str, key: &str) -> (r: Option<Scalar>)
    ensures
        member_view(r) == json_member(text@, key@),
{
    let value: serde_json::Value = serde_json::from_str(text).ok()?;
    Some(
        match value.get(key)? {
            serde_json::Value::Bool(b) => Scalar::Flag(*b),
            serde_json::Value::Number(n) => Scalar::Number(n.to_string()),
            serde_json::Value::String(s) => Scalar::Text(s.clone()),
            _ => Scalar::Other,
        },
    )
}

/// Whether the member `error` of a reply reports success.
pub open spec fn reports_success(error: Option<ScalarView>) -> bool {
    error == Some(ScalarView::Text("success"@))
}

/// The value that a reply carries, given its members `error` and `data`:
/// the data where the reply reports success (nothing in particular where it
/// carries none), and no value otherwise.
pub open spec fn reply_value(error: Option<ScalarView>, data: Option<ScalarView>) -> Result<
    ScalarView,
    IpcError,
> {
    if reports_success(error) {
        match data {
            Some(d) => Ok(d),
            None => Ok(ScalarView::Other),
        }
    } else {
        Err(IpcError::Unavailable)
    }
}

/// The views of a read reply.
pub open spec fn value_view(r: Result<Scalar, IpcError>) -> Result<ScalarView, IpcError> {
    match r {
        Ok(s) => Ok(s@),
        Err(e) => Err(e),
    }
}

/// The value that a reply carries, given its members `error` and `data`.
pub fn property_value(error: Option<Scalar>, data: Option<Scalar>) -> (r: Result<Scalar, IpcError>)
    ensures
        value_view(r) == reply_value(member_view(error), member_view(data)),
{
    let success = match &error {
        Some(Scalar::Text(t)) => crate::text::same(t.as_str(), "success"),
        _ => false,
    };
    if success {
        match data {
            Some(d) => Ok(d),
            None => Ok(Scalar::Other),
        }
    } else {
        Err(IpcError::Unavailable)
    }
}

/// Reads the reply to a `get_property` request. A reply that is missing,
/// malformed or reports anything but success yields no value; this is no
/// failure of the channel.
pub fn get_property(reply: &str) -> (r: Result<Scalar, IpcError>)
    ensures
        value_view(r) == reply_value(json_member(reply@, "error"@), json_member(reply@, "data"@)),
{
    property_value(member(reply, "error"), member(reply, "data"))
}

} // verus!
