//! The metadata dictionary of the transport protocols, and how a track
//! record is read from it.
//!
//! A player hands out its metadata as a dictionary from text keys to loosely
//! typed values. The fields of a track are found under four fixed keys. A
//! value counts as text if it is text, or a list whose first item counts as
//! text.

use crate::dict::Dict;
use crate::error::McError;
use crate::track::{MusicInfo, MusicInfoView};
use vstd::prelude::*;
use vstd::string::*;

verus! {

/// The key under which the artist is found.
pub const ARTIST_KEY: &'static str = "xesam:artist";

/// The key under which the title is found.
pub const TITLE_KEY: &'static str = "xesam:title";

/// The key under which the album is found.
pub const ALBUM_KEY: &'static str = "xesam:album";

/// The key under which the reference to the cover art is found.
pub const COVER_KEY: &'static str = "mpris:artUrl";

/// What a decode failure says of a value that does not count as text.
pub const UNHANDLED_VALUE: &'static str = "metadata value is neither text nor a list that begins with text";

/// A value of the metadata dictionary, as far as a track is read from it.
#[derive(Debug, PartialEq, Eq)]
pub enum MetaValue {
    /// A piece of text.
    Str(String),
    /// A list of values.
    Array(Vec<MetaValue>),
    /// A value of any other shape: a number, a flag, a nested dictionary.
    Other,
}

/// A metadata value as a mathematical tree.
pub enum MetaValueView {
    Str(Seq<char>),
    Array(Seq<MetaValueView>),
    Other,
}

impl View for MetaValue {
    type V = MetaValueView;

    open spec fn view(&self) -> MetaValueView
        decreases self,
    {
        match self {
            MetaValue::Str(text) => MetaValueView::Str(text@),
            MetaValue::Array(items) => MetaValueView::Array(
                Seq::new(
                    items@.len(),
                    |i: int|
                        if 0 <= i < items@.len() {
                            items@[i]@
                        } else {
                            MetaValueView::Other
                        },
                ),
            ),
            MetaValue::Other => MetaValueView::Other,
        }
    }
}

/// The text that a value counts as: the text itself, or what the first item
/// of a list counts as. An empty list and a value of another shape count as
/// no text.
pub open spec fn text_of(value: MetaValueView) -> Option<Seq<char>>
    decreases value,
{
    match value {
        MetaValueView::Str(text) => Some(text),
        MetaValueView::Array(items) => if items.len() > 0 {
            text_of(items[0])
        } else {
            None
        },
        MetaValueView::Other => None,
    }
}

/// A value wrapped into lists, once for each item of `tails`: each list
/// holds the value wrapped so far in its first place, and the items of the
/// tail behind it.
pub open spec fn wrapped(value: MetaValueView, tails: Seq<Seq<MetaValueView>>) -> MetaValueView
    decreases tails.len(),
{
    if tails.len() == 0 {
        value
    } else {
        MetaValueView::Array(seq![wrapped(value, tails.drop_last())] + tails.last())
    }
}

/// Wrapping a value into lists does not change the text that it counts as,
/// however deep the lists are nested and whatever else they hold: a piece of
/// text that is wrapped into lists still counts as itself.
pub proof fn lemma_wrapped_text(value: MetaValueView, tails: Seq<Seq<MetaValueView>>)
    ensures
        text_of(wrapped(value, tails)) == text_of(value),
        value matches MetaValueView::Str(text) ==> text_of(wrapped(value, tails)) == Some(text),
    decreases tails.len(),
{
    if tails.len() > 0 {
        let inner = wrapped(value, tails.drop_last());
        assert((seq![inner] + tails.last())[0] == inner);
        lemma_wrapped_text(value, tails.drop_last());
    }
}

/// Whether a result is the decode failure for a value that is not text.
pub open spec fn is_unhandled<T>(result: Result<T, McError>) -> bool {
    result matches Err(McError::Decode(text)) && text@ == UNHANDLED_VALUE@
}

/// Reads a value as text. Fails with `McError::Decode` where the value does
/// not count as text.
pub fn variant_val_to_string(value: &MetaValue) -> (result: Result<String, McError>)
    ensures
        match text_of(value@) {
            Some(text) => result matches Ok(read) && read@ == text,
            None => is_unhandled(result),
        },
    decreases value,
{
    match value {
        MetaValue::Str(text) => Ok(text.clone()),
        MetaValue::Array(items) => {
            if items.len() > 0 {
                variant_val_to_string(&items[0])
            } else {
                Err(McError::Decode(String::from_str(UNHANDLED_VALUE)))
            }
        },
        MetaValue::Other => Err(McError::Decode(String::from_str(UNHANDLED_VALUE))),
    }
}

/// The metadata that a transport player hands out.
pub type Metadata = Dict<MetaValue>;

/// The text of a field of the track: what the value under its key counts
/// as, and the empty text where the dictionary has no such key. There is
/// none where the value does not count as text.
pub open spec fn field_text(dict: Map<Seq<char>, MetaValue>, key: Seq<char>) -> Option<
    Seq<char>,
> {
    if dict.contains_key(key) {
        text_of(dict[key]@)
    } else {
        Some(Seq::empty())
    }
}

/// The track that a dictionary describes, if each of the four fields that
/// it holds counts as text.
pub open spec fn track_of(dict: Map<Seq<char>, MetaValue>) -> Option<MusicInfoView> {
    match (
        field_text(dict, ARTIST_KEY@),
        field_text(dict, TITLE_KEY@),
        field_text(dict, ALBUM_KEY@),
        field_text(dict, COVER_KEY@),
    ) {
        (Some(artist), Some(title), Some(album), Some(cover)) => Some(
            MusicInfoView { artist, title, album, cover },
        ),
        _ => None,
    }
}

/// Reads one field of the track.
fn read_field(metadata: &Metadata, key: &str) -> (result: Result<String, McError>)
    ensures
        match field_text(metadata@, key@) {
            Some(text) => result matches Ok(read) && read@ == text,
            None => is_unhandled(result),
        },
{
    match metadata.get(key) {
        Some(value) => variant_val_to_string(value),
        None => Ok(String::new()),
    }
}

impl MusicInfo {
    /// Reads the track that a dictionary describes. A field whose key is
    /// missing is empty. Fails with `McError::Decode` where a field is there
    /// but does not count as text.
    pub fn try_from(metadata: &Metadata) -> (result: Result<MusicInfo, McError>)
        ensures
            match track_of(metadata@) {
                Some(track) => result matches Ok(info) && info@ == track,
                None => is_unhandled(result),
            },
    {
        let artist = match read_field(metadata, ARTIST_KEY) {
            Ok(text) => text,
            Err(error) => {
                return Err(error);
            },
        };
        let title = match read_field(metadata, TITLE_KEY) {
            Ok(text) => text,
            Err(error) => {
                return Err(error);
            },
        };
        let album = match read_field(metadata, ALBUM_KEY) {
            Ok(text) => text,
            Err(error) => {
                return Err(error);
            },
        };
        let cover = match read_field(metadata, COVER_KEY) {
            Ok(text) => text,
            Err(error) => {
                return Err(error);
            },
        };
        Ok(MusicInfo { artist, title, album, cover })
    }
}

/// What a transport player reports as its track, given its metadata: no
/// track where the dictionary is empty, else the track that the dictionary
/// describes.
pub open spec fn reported(dict: Map<Seq<char>, MetaValue>) -> Option<Option<MusicInfoView>> {
    if dict.is_empty() {
        Some(None)
    } else {
        match track_of(dict) {
            Some(track) => Some(Some(track)),
            None => None,
        }
    }
}

/// Answers a query for the track of a transport player from the metadata
/// that the player handed out. An empty dictionary means that no track is
/// loaded, which is no failure and no record of empty fields.
pub fn info_from_metadata(metadata: &Metadata) -> (result: Result<Option<MusicInfo>, McError>)
    ensures
        metadata@.is_empty() ==> result == Ok::<Option<MusicInfo>, McError>(None),
        match reported(metadata@) {
            Some(Some(track)) => result matches Ok(Some(info)) && info@ == track,
            Some(None) => result == Ok::<Option<MusicInfo>, McError>(None),
            None => is_unhandled(result),
        },
{
    if metadata.is_empty() {
        Ok(None)
    } else {
        match MusicInfo::try_from(metadata) {
            Ok(info) => Ok(Some(info)),
            Err(error) => Err(error),
        }
    }
}

/// Whether a transport player can play now: the player says so, and its
/// metadata name an artist. What the player says is its `CanPlay` property,
/// or, for the audio relay player, its `Available` property.
pub open spec fn can_play_now(flag: bool, dict: Map<Seq<char>, MetaValue>) -> bool {
    flag && dict.contains_key(ARTIST_KEY@)
}

/// How far the question whether a transport player can play now has come
/// once the player's own flag is known.
#[derive(Debug, Clone, Copy, PartialEq, Eq, Structural)]
pub enum Readiness {
    /// The answer stands, and the metadata are not asked for.
    Settled(bool),
    /// The answer is in the metadata, which are to be read next.
    NeedsMetadata,
}

/// Takes the first step of the question whether a transport player can play
/// now. Where the player's flag is not set the answer is no, whatever the
/// metadata hold.
pub fn after_flag(flag: bool) -> (readiness: Readiness)
    ensures
        readiness == if flag {
            Readiness::NeedsMetadata
        } else {
            Readiness::Settled(false)
        },
        readiness matches Readiness::Settled(answer) ==> forall|dict: Map<Seq<char>, MetaValue>|
            answer == #[trigger] can_play_now(flag, dict),
{
    if flag {
        Readiness::NeedsMetadata
    } else {
        Readiness::Settled(false)
    }
}

/// Takes the second step, for a player whose flag is set: the player can
/// play now if its metadata name an artist.
pub fn has_artist(metadata: &Metadata) -> (found: bool)
    ensures
        found == metadata@.contains_key(ARTIST_KEY@),
        found == can_play_now(true, metadata@),
{
    metadata.contains_key(ARTIST_KEY)
}

} // verus!
