//! A track of the server's library, decoded from a JSON object.
//!
//! The server describes a track by an object with the members `id`, `size`,
//! `duration` and `path`, which are required, and `title`, `album`,
//! `albumId`, `artist`, `artistId`, `track`, `year`, `genre` and `coverArt`,
//! which may be left out.  Members under other keys are ignored.  Decoding
//! gives a whole record or the first field that is wrong, never a part.

use vstd::prelude::*;
use crate::error::Error;
use crate::field::{
    number_of,
    optional_number_ok,
    optional_string,
    optional_text_ok,
    optional_u64,
    required_string,
    required_u64,
    same_number,
    string_chars,
    text_of,
};
use crate::json::{json_kind, member, member_of, slice_chars, Member, MemberView};

verus! {

/// One track.
#[derive(Debug)]
pub struct Song {
    id: u64,
    title: Option<String>,
    album: Option<String>,
    album_id: Option<u64>,
    artist: Option<String>,
    artist_id: Option<u64>,
    track: Option<u64>,
    year: Option<u64>,
    genre: Option<String>,
    cover_id: Option<u64>,
    size: u64,
    duration: u64,
    path: String,
}

/// The mathematical image of a [`Song`]: the same fields, text as sequences
/// of characters.
pub struct SongView {
    pub id: u64,
    pub title: Option<Seq<char>>,
    pub album: Option<Seq<char>>,
    pub album_id: Option<u64>,
    pub artist: Option<Seq<char>>,
    pub artist_id: Option<u64>,
    pub track: Option<u64>,
    pub year: Option<u64>,
    pub genre: Option<Seq<char>>,
    pub cover_id: Option<u64>,
    pub size: u64,
    pub duration: u64,
    pub path: Seq<char>,
}

impl View for Song {
    type V = SongView;

    closed spec fn view(&self) -> SongView {
        SongView {
            id: self.id,
            title: string_chars(self.title),
            album: string_chars(self.album),
            album_id: self.album_id,
            artist: string_chars(self.artist),
            artist_id: self.artist_id,
            track: self.track,
            year: self.year,
            genre: string_chars(self.genre),
            cover_id: self.cover_id,
            size: self.size,
            duration: self.duration,
            path: self.path@,
        }
    }
}

/// The members of a JSON object that describe a track, each as it was found
/// under its key.
#[derive(Debug, Clone, Copy)]
pub struct SongMembers<'a> {
    /// Under `id`.
    pub id: Member<'a>,
    /// Under `title`.
    pub title: Member<'a>,
    /// Under `album`.
    pub album: Member<'a>,
    /// Under `albumId`.
    pub album_id: Member<'a>,
    /// Under `artist`.
    pub artist: Member<'a>,
    /// Under `artistId`.
    pub artist_id: Member<'a>,
    /// Under `track`.
    pub track: Member<'a>,
    /// Under `year`.
    pub year: Member<'a>,
    /// Under `genre`.
    pub genre: Member<'a>,
    /// Under `coverArt`.
    pub cover_id: Member<'a>,
    /// Under `size`.
    pub size: Member<'a>,
    /// Under `duration`.
    pub duration: Member<'a>,
    /// Under `path`.
    pub path: Member<'a>,
}

/// The mathematical image of [`SongMembers`].
pub struct SongMembersView {
    pub id: MemberView,
    pub title: MemberView,
    pub album: MemberView,
    pub album_id: MemberView,
    pub artist: MemberView,
    pub artist_id: MemberView,
    pub track: MemberView,
    pub year: MemberView,
    pub genre: MemberView,
    pub cover_id: MemberView,
    pub size: MemberView,
    pub duration: MemberView,
    pub path: MemberView,
}

impl<'a> View for SongMembers<'a> {
    type V = SongMembersView;

    open spec fn view(&self) -> SongMembersView {
        SongMembersView {
            id: self.id@,
            title: self.title@,
            album: self.album@,
            album_id: self.album_id@,
            artist: self.artist@,
            artist_id: self.artist_id@,
            track: self.track@,
            year: self.year@,
            genre: self.genre@,
            cover_id: self.cover_id@,
            size: self.size@,
            duration: self.duration@,
            path: self.path@,
        }
    }
}

impl SongMembersView {
    /// The members that the object `j` holds under the keys of a track.
    pub open spec fn of(j: serde_json::Value) -> SongMembersView {
        SongMembersView {
            id: member_of(j, "id"@),
            title: member_of(j, "title"@),
            album: member_of(j, "album"@),
            album_id: member_of(j, "albumId"@),
            artist: member_of(j, "artist"@),
            artist_id: member_of(j, "artistId"@),
            track: member_of(j, "track"@),
            year: member_of(j, "year"@),
            genre: member_of(j, "genre"@),
            cover_id: member_of(j, "coverArt"@),
            size: member_of(j, "size"@),
            duration: member_of(j, "duration"@),
            path: member_of(j, "path"@),
        }
    }

    /// The key of the first field, in the order of the record, that cannot
    /// be read: a required one that is missing, or any one that is there but
    /// of the wrong kind.  `None` where every field can be read.
    pub open spec fn first_bad_field(self) -> Option<Seq<char>> {
        if number_of(self.id) is None {
            Some("id"@)
        } else if !optional_text_ok(self.title) {
            Some("title"@)
        } else if !optional_text_ok(self.album) {
            Some("album"@)
        } else if !optional_number_ok(self.album_id) {
            Some("albumId"@)
        } else if !optional_text_ok(self.artist) {
            Some("artist"@)
        } else if !optional_number_ok(self.artist_id) {
            Some("artistId"@)
        } else if !optional_number_ok(self.track) {
            Some("track"@)
        } else if !optional_number_ok(self.year) {
            Some("year"@)
        } else if !optional_text_ok(self.genre) {
            Some("genre"@)
        } else if !optional_number_ok(self.cover_id) {
            Some("coverArt"@)
        } else if number_of(self.size) is None {
            Some("size"@)
        } else if number_of(self.duration) is None {
            Some("duration"@)
        } else if text_of(self.path) is None {
            Some("path"@)
        } else {
            None
        }
    }

    /// The track that the members describe, where every field can be read.
    /// A field that was left out is `None`.
    pub open spec fn song(self) -> SongView
        recommends
            self.first_bad_field() is None,
    {
        SongView {
            id: number_of(self.id).unwrap(),
            title: text_of(self.title),
            album: text_of(self.album),
            album_id: number_of(self.album_id),
            artist: text_of(self.artist),
            artist_id: number_of(self.artist_id),
            track: number_of(self.track),
            year: number_of(self.year),
            genre: text_of(self.genre),
            cover_id: number_of(self.cover_id),
            size: number_of(self.size).unwrap(),
            duration: number_of(self.duration).unwrap(),
            path: text_of(self.path).unwrap(),
        }
    }

    /// The two sets of members are the same but for the form of their
    /// numbers: each numeric member reads as the same number in both, and
    /// every text member is the same in both.
    pub open spec fn differs_in_form_only(self, other: SongMembersView) -> bool {
        &&& same_number(self.id, other.id)
        &&& self.title == other.title
        &&& self.album == other.album
        &&& same_number(self.album_id, other.album_id)
        &&& self.artist == other.artist
        &&& same_number(self.artist_id, other.artist_id)
        &&& same_number(self.track, other.track)
        &&& same_number(self.year, other.year)
        &&& self.genre == other.genre
        &&& same_number(self.cover_id, other.cover_id)
        &&& same_number(self.size, other.size)
        &&& same_number(self.duration, other.duration)
        &&& self.path == other.path
    }

    /// What decoding makes of the members: the track, or the key of the
    /// first field that cannot be read.
    pub open spec fn decoded(self) -> Result<SongView, Seq<char>> {
        match self.first_bad_field() {
            Some(field) => Err(field),
            None => Ok(self.song()),
        }
    }

    /// What decoding makes of the JSON value `j`: `not an object` where it is
    /// none, else what it makes of the members of `j`.
    pub open spec fn decoding(j: serde_json::Value) -> Result<SongView, Seq<char>> {
        if json_kind(j) is Object {
            Self::of(j).decoded()
        } else {
            Err("not an object"@)
        }
    }
}

impl<'a> SongMembers<'a> {
    /// Looks up the members of a track in `j`.
    pub fn of(j: &'a serde_json::Value) -> (m: SongMembers<'a>)
        ensures
            m@ == SongMembersView::of(*j),
    {
        SongMembers {
            id: member(j, "id"),
            title: member(j, "title"),
            album: member(j, "album"),
            album_id: member(j, "albumId"),
            artist: member(j, "artist"),
            artist_id: member(j, "artistId"),
            track: member(j, "track"),
            year: member(j, "year"),
            genre: member(j, "genre"),
            cover_id: member(j, "coverArt"),
            size: member(j, "size"),
            duration: member(j, "duration"),
            path: member(j, "path"),
        }
    }
}

impl Song {
    /// Decodes the track that the JSON value `j` describes.
    ///
    /// Fails with [`Error::ParseError`]: with `not an object` where `j` is
    /// no JSON object, else with the key of the first field that cannot be
    /// read.
    pub fn from(j: &serde_json::Value) -> (r: Result<Song, Error>)
        ensures
            match SongMembersView::decoding(*j) {
                Ok(song) => r matches Ok(s) && s@ == song,
                Err(field) => r matches Err(e) && e.is_parse_error(field),
            },
    {
        if !j.is_object() {
            return Err(Error::ParseError("not an object"));
        }
        let members = SongMembers::of(j);
        Song::from_members(&members)
    }

    /// Decodes a track from the members that were found under its keys.
    ///
    /// The fields are read in the order of the record; the first that cannot
    /// be read ends the decoding with [`Error::ParseError`] and its key.
    pub fn from_members(m: &SongMembers) -> (r: Result<Song, Error>)
        ensures
            match m@.decoded() {
                Ok(song) => r matches Ok(s) && s@ == song,
                Err(field) => r matches Err(e) && e.is_parse_error(field),
            },
    {
        let id = match required_u64(m.id, "id") {
            Ok(v) => v,
            Err(e) => return Err(e),
        };
        let title = match optional_string(m.title, "title") {
            Ok(v) => v,
            Err(e) => return Err(e),
        };
        let album = match optional_string(m.album, "album") {
            Ok(v) => v,
            Err(e) => return Err(e),
        };
        let album_id = match optional_u64(m.album_id, "albumId") {
            Ok(v) => v,
            Err(e) => return Err(e),
        };
        let artist = match optional_string(m.artist, "artist") {
            Ok(v) => v,
            Err(e) => return Err(e),
        };
        let artist_id = match optional_u64(m.artist_id, "artistId") {
            Ok(v) => v,
            Err(e) => return Err(e),
        };
        let track = match optional_u64(m.track, "track") {
            Ok(v) => v,
            Err(e) => return Err(e),
        };
        let year = match optional_u64(m.year, "year") {
            Ok(v) => v,
            Err(e) => return Err(e),
        };
        let genre = match optional_string(m.genre, "genre") {
            Ok(v) => v,
            Err(e) => return Err(e),
        };
        let cover_id = match optional_u64(m.cover_id, "coverArt") {
            Ok(v) => v,
            Err(e) => return Err(e),
        };
        let size = match required_u64(m.size, "size") {
            Ok(v) => v,
            Err(e) => return Err(e),
        };
        let duration = match required_u64(m.duration, "duration") {
            Ok(v) => v,
            Err(e) => return Err(e),
        };
        let path = match required_string(m.path, "path") {
            Ok(v) => v,
            Err(e) => return Err(e),
        };
        Ok(
            Song {
                id,
                title,
                album,
                album_id,
                artist,
                artist_id,
                track,
                year,
                genre,
                cover_id,
                size,
                duration,
                path,
            },
        )
    }
}

/// What was left out stays left out: in a decoded track an optional field is
/// `None` exactly where the object holds nothing under its key, and every
/// required field was there.
pub proof fn lemma_absent_fields_stay_absent(m: SongMembersView)
    requires
        m.decoded() is Ok,
    ensures
        m.song().title is None <==> m.title is Absent,
        m.song().album is None <==> m.album is Absent,
        m.song().album_id is None <==> m.album_id is Absent,
        m.song().artist is None <==> m.artist is Absent,
        m.song().artist_id is None <==> m.artist_id is Absent,
        m.song().track is None <==> m.track is Absent,
        m.song().year is None <==> m.year is Absent,
        m.song().genre is None <==> m.genre is Absent,
        m.song().cover_id is None <==> m.cover_id is Absent,
        !(m.id is Absent),
        !(m.size is Absent),
        !(m.duration is Absent),
        !(m.path is Absent),
{
}

/// Decoding looks at a numeric member only for the number that it reads as:
/// two sets of members that differ in nothing else decode alike.  So a
/// number decodes alike whether the server sent it bare or in quotes.
pub proof fn lemma_like_numbers_decode_alike(a: SongMembersView, b: SongMembersView)
    requires
        a.differs_in_form_only(b),
    ensures
        a.decoded() == b.decoded(),
{
}

/// The string in `s`, borrowed.
fn as_slice(s: &Option<String>) -> (r: Option<&str>)
    ensures
        slice_chars(r) == string_chars(*s),
{
    match s {
        Some(text) => Some(text.as_str()),
        None => None,
    }
}

impl Song {
    /// The identifier of the track.
    pub fn id(&self) -> (r: u64)
        ensures
            r == self@.id,
    {
        self.id
    }

    /// The title, where the server gave one.
    pub fn title(&self) -> (r: Option<&str>)
        ensures
            slice_chars(r) == self@.title,
    {
        as_slice(&self.title)
    }

    /// The name of the album, where the server gave one.
    pub fn album(&self) -> (r: Option<&str>)
        ensures
            slice_chars(r) == self@.album,
    {
        as_slice(&self.album)
    }

    /// The identifier of the album, where the server gave one.
    pub fn album_id(&self) -> (r: Option<u64>)
        ensures
            r == self@.album_id,
    {
        self.album_id
    }

    /// The name of the artist, where the server gave one.
    pub fn artist(&self) -> (r: Option<&str>)
        ensures
            slice_chars(r) == self@.artist,
    {
        as_slice(&self.artist)
    }

    /// The identifier of the artist, where the server gave one.
    pub fn artist_id(&self) -> (r: Option<u64>)
        ensures
            r == self@.artist_id,
    {
        self.artist_id
    }

    /// The number of the track on its album, where the server gave one.
    pub fn track(&self) -> (r: Option<u64>)
        ensures
            r == self@.track,
    {
        self.track
    }

    /// The year of release, where the server gave one.
    pub fn year(&self) -> (r: Option<u64>)
        ensures
            r == self@.year,
    {
        self.year
    }

    /// The genre, where the server gave one.
    pub fn genre(&self) -> (r: Option<&str>)
        ensures
            slice_chars(r) == self@.genre,
    {
        as_slice(&self.genre)
    }

    /// The identifier of the cover art, where the server gave one.
    pub fn cover_id(&self) -> (r: Option<u64>)
        ensures
            r == self@.cover_id,
    {
        self.cover_id
    }

    /// The size of the file in bytes.
    pub fn size(&self) -> (r: u64)
        ensures
            r == self@.size,
    {
        self.size
    }

    /// The length of the track in seconds.
    pub fn duration(&self) -> (r: u64)
        ensures
            r == self@.duration,
    {
        self.duration
    }

    /// The path of the file on the server.
    pub fn path(&self) -> (r: &str)
        ensures
            r@ == self@.path,
    {
        self.path.as_str()
    }
}

} // verus!
