//! The canonical record of what a player is playing, and how it is shown.

use vstd::prelude::*;
use vstd::string::*;

verus! {

/// What a player reports about the current track. A field that the player
/// did not supply is the empty string.
#[derive(Debug, PartialEq, Eq)]
pub struct MusicInfo {
    pub artist: String,
    pub title: String,
    pub album: String,
    /// Where the cover art can be found; empty where there is none.
    pub cover: String,
}

/// A track record as four sequences of characters.
pub struct MusicInfoView {
    pub artist: Seq<char>,
    pub title: Seq<char>,
    pub album: Seq<char>,
    pub cover: Seq<char>,
}

impl View for MusicInfo {
    type V = MusicInfoView;

    open spec fn view(&self) -> MusicInfoView {
        MusicInfoView {
            artist: self.artist@,
            title: self.title@,
            album: self.album@,
            cover: self.cover@,
        }
    }
}

impl Default for MusicInfo {
    /// The track of which nothing is known: four empty fields.
    fn default() -> (info: MusicInfo)
        ensures
            info@.artist.len() == 0,
            info@.title.len() == 0,
            info@.album.len() == 0,
            info@.cover.len() == 0,
    {
        MusicInfo {
            artist: String::new(),
            title: String::new(),
            album: String::new(),
            cover: String::new(),
        }
    }
}

impl Clone for MusicInfo {
    fn clone(&self) -> (copy: MusicInfo)
        ensures
            copy == *self,
    {
        MusicInfo {
            artist: self.artist.clone(),
            title: self.title.clone(),
            album: self.album.clone(),
            cover: self.cover.clone(),
        }
    }
}

/// How the album opens a rendered track: in single quotes and followed by a
/// space, or not at all when there is no album.
pub open spec fn album_part(album: Seq<char>) -> Seq<char> {
    if album.len() == 0 {
        Seq::empty()
    } else {
        seq!['\''] + album + seq!['\'', ' ']
    }
}

/// How the title continues a rendered track: followed by ` by `, or not at
/// all when there is no title.
pub open spec fn title_part(title: Seq<char>) -> Seq<char> {
    if title.len() == 0 {
        Seq::empty()
    } else {
        title + seq![' ', 'b', 'y', ' ']
    }
}

impl MusicInfoView {
    /// The one-line rendering of a track: album part, title part, artist.
    /// The cover is not part of it.
    pub open spec fn display(self) -> Seq<char> {
        album_part(self.album) + title_part(self.title) + self.artist
    }
}

impl MusicInfo {
    /// Renders the track on one line: `'<album>' <title> by <artist>`, with
    /// the album part and the title part left out when they are empty.
    pub fn render(&self) -> (line: String)
        ensures
            line@ == self@.display(),
            self.album@.len() == 0 && self.title@.len() == 0 ==> line@ == self.artist@,
            self.album@.len() > 0 && self.title@.len() > 0 ==> line@ == seq!['\''] + self.album@
                + seq!['\'', ' '] + self.title@ + seq![' ', 'b', 'y', ' '] + self.artist@,
    {
        let mut line = String::new();
        if !self.album.as_str().is_empty() {
            proof {
                reveal_strlit("'");
                reveal_strlit("' ");
            }
            line.append("'");
            line.append(self.album.as_str());
            line.append("' ");
            assert("'"@ =~= seq!['\'']);
            assert("' "@ =~= seq!['\'', ' ']);
        }
        assert(line@ =~= album_part(self.album@));
        if !self.title.as_str().is_empty() {
            proof {
                reveal_strlit(" by ");
            }
            line.append(self.title.as_str());
            line.append(" by ");
            assert(" by "@ =~= seq![' ', 'b', 'y', ' ']);
        }
        assert(line@ =~= album_part(self.album@) + title_part(self.title@));
        line.append(self.artist.as_str());
        line
    }
}

} // verus!
