//! The state that the radio stream player reports, and what is read from it.
//!
//! The player answers a state query with a piece of JSON text. The text is
//! parsed anew for every query. A track is read from the members of the
//! parsed object; the player can play when it has the address of a stream.

use crate::dict::{Dict, Entry};
use crate::error::McError;
use crate::track::{MusicInfo, MusicInfoView};
use vstd::prelude::*;
use vstd::string::*;

verus! {

/// The member that holds the artist.
pub const ARTIST_FIELD: &'static str = "artist";

/// The member that holds the title.
pub const TITLE_FIELD: &'static str = "title";

/// The member that holds the station, which stands for the album.
pub const STATION_FIELD: &'static str = "station";

/// The member that holds the address of the stream.
pub const URL_FIELD: &'static str = "url";

/// The value of a member of a JSON object, as far as a state is read.
#[derive(Debug, PartialEq, Eq)]
pub enum Member {
    /// A JSON string.
    Text(String),
    /// Any other JSON value.
    Other,
}

impl View for Member {
    type V = Option<Seq<char>>;

    /// The text of the member, if it is a string.
    open spec fn view(&self) -> Option<Seq<char>> {
        match self {
            Member::Text(text) => Some(text@),
            Member::Other => None,
        }
    }
}

/// A parsed player state, as far as it is read.
#[derive(Debug, PartialEq, Eq)]
pub enum StateBlob {
    /// The JSON value `null`.
    Null,
    /// A JSON object, with its members.
    Object(Dict<Member>),
    /// Any other JSON value: a flag, a number, a string, an array.
    Other,
}

/// A parsed player state with its members as a map from their names to
/// their text.
pub enum StateBlobView {
    Null,
    Object(Map<Seq<char>, Option<Seq<char>>>),
    Other,
}

impl View for StateBlob {
    type V = StateBlobView;

    open spec fn view(&self) -> StateBlobView {
        match self {
            StateBlob::Null => StateBlobView::Null,
            StateBlob::Object(members) => StateBlobView::Object(
                members@.map_values(|member: Member| member@),
            ),
            StateBlob::Other => StateBlobView::Other,
        }
    }
}

/// What `serde_json::from_str` makes of a text when it is asked for a
/// `serde_json::Value`: the value, as far as a state is read, or the message
/// of the error that it reports.
pub uninterp spec fn json_state(text: Seq<char>) -> Result<StateBlobView, Seq<char>>;

/// Parses a text with `serde_json::from_str` into a `serde_json::Value` and
/// hands the value over as a `StateBlob`: `null` as `Null`, an object with
/// each member under its name, a string member as `Text`, anything else as
/// `Other`. An error is handed over as its message. Nothing is claimed of
/// the outcome but that the same text always gives the same.
#[verifier::external_body]
fn parse_json(text: &str) -> (parsed: Result<StateBlob, String>)
    ensures
        match json_state(text@) {
            Ok(blob) => parsed matches Ok(made) && made@ == blob,
            Err(message) => parsed matches Err(told) && told@ == message,
        },
{
    match serde_json::from_str::<serde_json::Value>(text) {
        Ok(serde_json::Value::Null) => Ok(StateBlob::Null),
        Ok(serde_json::Value::Object(members)) => Ok(StateBlob::Object(Dict {
            entries: members.into_iter().map(|(key, value)| Entry { key, value: match value {
                serde_json::Value::String(text) => Member::Text(text),
                _ => Member::Other,
            } }).collect(),
        })),
        Ok(_) => Ok(StateBlob::Other),
        Err(error) => Err(error.to_string()),
    }
}

/// The text of a member: there is one where the state is an object that has
/// a string under that name.
pub open spec fn text_member(blob: StateBlobView, name: Seq<char>) -> Option<Seq<char>> {
    match blob {
        StateBlobView::Object(members) => if members.contains_key(name) {
            members[name]
        } else {
            None
        },
        _ => None,
    }
}

/// The text of a member, and the empty text where there is none.
pub open spec fn json_string(blob: StateBlobView, name: Seq<char>) -> Seq<char> {
    match text_member(blob, name) {
        Some(text) => text,
        None => Seq::empty(),
    }
}

/// Looks up the text of a member.
fn member_text<'a>(blob: &'a StateBlob, name: &str) -> (found: Option<&'a String>)
    ensures
        match found {
            Some(text) => text_member(blob@, name@) == Some(text@),
            None => text_member(blob@, name@) is None,
        },
{
    match blob {
        StateBlob::Object(members) => match members.get(name) {
            Some(Member::Text(text)) => Some(text),
            _ => None,
        },
        _ => None,
    }
}

/// Reads a member of the state as text. A member that is missing or is not
/// a string reads as the empty text, and so does every member of a state
/// that is not an object.
pub fn get_json_string(blob: &StateBlob, name: &str) -> (text: String)
    ensures
        text@ == json_string(blob@, name@),
{
    match member_text(blob, name) {
        Some(text) => text.clone(),
        None => String::new(),
    }
}

/// The track that a state describes: none for `null`; else the artist, the
/// title and, as the album, the station, each as far as the state holds it.
/// The radio has no cover art.
pub open spec fn track_in(blob: StateBlobView) -> Option<MusicInfoView> {
    if blob is Null {
        None
    } else {
        Some(
            MusicInfoView {
                artist: json_string(blob, ARTIST_FIELD@),
                title: json_string(blob, TITLE_FIELD@),
                album: json_string(blob, STATION_FIELD@),
                cover: Seq::empty(),
            },
        )
    }
}

/// Reads the track from a parsed state.
pub fn info_from_blob(blob: &StateBlob) -> (found: Option<MusicInfo>)
    ensures
        match track_in(blob@) {
            Some(track) => found matches Some(info) && info@ == track,
            None => found is None,
        },
{
    match blob {
        StateBlob::Null => None,
        _ => Some(
            MusicInfo {
                artist: get_json_string(blob, ARTIST_FIELD),
                title: get_json_string(blob, TITLE_FIELD),
                album: get_json_string(blob, STATION_FIELD),
                cover: String::new(),
            },
        ),
    }
}

/// Whether a state names a stream: its `url` member is a string, and not
/// the empty one.
pub open spec fn streaming(blob: StateBlobView) -> bool {
    text_member(blob, URL_FIELD@) matches Some(address) && address.len() > 0
}

/// Tells from a parsed state whether the radio can play now.
pub fn blob_can_play(blob: &StateBlob) -> (ready: bool)
    ensures
        ready == streaming(blob@),
{
    match member_text(blob, URL_FIELD) {
        Some(address) => !address.as_str().is_empty(),
        None => false,
    }
}

/// Parses the text of a state. Fails with `McError::Decode`, and the
/// parser's message, where the text is not JSON.
pub fn parse_state(text: &str) -> (result: Result<StateBlob, McError>)
    ensures
        match json_state(text@) {
            Ok(blob) => result matches Ok(made) && made@ == blob,
            Err(message) => result matches Err(McError::Decode(told)) && told@ == message,
        },
{
    match parse_json(text) {
        Ok(blob) => Ok(blob),
        Err(message) => Err(McError::Decode(message)),
    }
}

/// Answers a query for the radio's track from the text of its state. Fails
/// with `McError::Decode` where the text is not JSON.
pub fn info_from_state(text: &str) -> (result: Result<Option<MusicInfo>, McError>)
    ensures
        match json_state(text@) {
            Ok(blob) => match track_in(blob) {
                Some(track) => result matches Ok(Some(info)) && info@ == track,
                None => result == Ok::<Option<MusicInfo>, McError>(None),
            },
            Err(message) => result matches Err(McError::Decode(told)) && told@ == message,
        },
{
    match parse_state(text) {
        Ok(blob) => Ok(info_from_blob(&blob)),
        Err(error) => Err(error),
    }
}

/// Tells from the text of the radio's state whether it can play now. Fails
/// with `McError::Decode` where the text is not JSON.
pub fn can_play_from_state(text: &str) -> (result: Result<bool, McError>)
    ensures
        match json_state(text@) {
            Ok(blob) => result == Ok::<bool, McError>(streaming(blob)),
            Err(message) => result matches Err(McError::Decode(told)) && told@ == message,
        },
{
    match parse_state(text) {
        Ok(blob) => Ok(blob_can_play(&blob)),
        Err(error) => Err(error),
    }
}

} // verus!
