use sunk::error::Error;
use sunk::json::Member;
use sunk::song::{Song, SongMembers};

fn parse(text: &str) -> serde_json::Value {
    serde_json::from_str(text).unwrap()
}

fn bad_field(r: Result<Song, Error>) -> &'static str {
    match r {
        Err(Error::ParseError(name)) => name,
        other => panic!("expected a parse error, got {:?}", other),
    }
}

fn minimal<'a>() -> SongMembers<'a> {
    SongMembers {
        id: Member::Number(1),
        title: Member::Absent,
        album: Member::Absent,
        album_id: Member::Absent,
        artist: Member::Absent,
        artist_id: Member::Absent,
        track: Member::Absent,
        year: Member::Absent,
        genre: Member::Absent,
        cover_id: Member::Absent,
        size: Member::Number(2),
        duration: Member::Number(3),
        path: Member::Text("p"),
    }
}

#[test]
fn parse_test() {
    let raw = parse(
        r#"{
            "id": "1633",
            "parent": "1632",
            "isDir": false,
            "title": "That Is How I Roll!",
            "album": "That Is How I Roll!",
            "artist": "Afterglow",
            "track": 1,
            "year": 2017,
            "genre": "J-Pop",
            "coverArt": "1632",
            "size": 32345658,
            "contentType": "audio/flac",
            "suffix": "flac",
            "transcodedContentType": "audio/mpeg",
            "transcodedSuffix": "mp3",
            "duration": 240,
            "bitRate": 1073,
            "path": "A/Afterglow/That Is How I Roll!/01 That Is How I Roll!.flac",
            "isVideo": false,
            "playCount": 16,
            "discNumber": 1,
            "created": "2018-01-01T10:30:04.000Z",
            "albumId": "222",
            "artistId": "138",
            "type": "music"
        }"#,
    );

    let parsed = Song::from(&raw);
    assert!(parsed.is_ok());
}

#[test]
fn a_full_record_is_decoded_field_by_field() {
    let raw = parse(
        r#"{
            "id": "1633",
            "parent": "1632",
            "title": "That Is How I Roll!",
            "album": "That Is How I Roll! (Album)",
            "artist": "Afterglow",
            "track": 1,
            "year": 2017,
            "genre": "J-Pop",
            "coverArt": "1632",
            "size": 32345658,
            "duration": 240,
            "path": "A/Afterglow/That Is How I Roll!/01 That Is How I Roll!.flac",
            "albumId": "222",
            "artistId": "138"
        }"#,
    );
    let song = Song::from(&raw).unwrap();
    assert_eq!(song.id(), 1633);
    assert_eq!(song.title(), Some("That Is How I Roll!"));
    assert_eq!(song.album(), Some("That Is How I Roll! (Album)"));
    assert_eq!(song.album_id(), Some(222));
    assert_eq!(song.artist(), Some("Afterglow"));
    assert_eq!(song.artist_id(), Some(138));
    assert_eq!(song.track(), Some(1));
    assert_eq!(song.year(), Some(2017));
    assert_eq!(song.genre(), Some("J-Pop"));
    assert_eq!(song.cover_id(), Some(1632));
    assert_eq!(song.size(), 32345658);
    assert_eq!(song.duration(), 240);
    assert_eq!(song.path(), "A/Afterglow/That Is How I Roll!/01 That Is How I Roll!.flac");
}

#[test]
fn a_short_record_leaves_the_rest_absent() {
    let raw =
        parse(r#"{"id":"1633","title":"T","size":32345658,"duration":240,"path":"P"}"#);
    let song = Song::from(&raw).unwrap();
    assert_eq!(song.id(), 1633);
    assert_eq!(song.title(), Some("T"));
    assert_eq!(song.album(), None);
    assert_eq!(song.album_id(), None);
    assert_eq!(song.artist(), None);
    assert_eq!(song.artist_id(), None);
    assert_eq!(song.track(), None);
    assert_eq!(song.year(), None);
    assert_eq!(song.genre(), None);
    assert_eq!(song.cover_id(), None);
    assert_eq!(song.size(), 32345658);
    assert_eq!(song.duration(), 240);
    assert_eq!(song.path(), "P");
}

#[test]
fn track_is_read_bare_and_quoted_alike() {
    let bare = parse(r#"{"id": 1, "size": 2, "duration": 3, "path": "p", "track": 1}"#);
    let quoted = parse(r#"{"id": 1, "size": 2, "duration": 3, "path": "p", "track": "1"}"#);
    assert_eq!(Song::from(&bare).unwrap().track(), Some(1));
    assert_eq!(Song::from(&quoted).unwrap().track(), Some(1));
}

#[test]
fn every_numeric_field_is_read_bare_and_quoted_alike() {
    let bare = parse(
        r#"{"id": 11, "albumId": 12, "artistId": 13, "track": 14, "year": 15,
            "coverArt": 16, "size": 17, "duration": 18, "path": "p"}"#,
    );
    let quoted = parse(
        r#"{"id": "11", "albumId": "12", "artistId": "13", "track": "14", "year": "15",
            "coverArt": "16", "size": "17", "duration": "18", "path": "p"}"#,
    );
    for raw in vec![bare, quoted] {
        let song = Song::from(&raw).unwrap();
        assert_eq!(song.id(), 11);
        assert_eq!(song.album_id(), Some(12));
        assert_eq!(song.artist_id(), Some(13));
        assert_eq!(song.track(), Some(14));
        assert_eq!(song.year(), Some(15));
        assert_eq!(song.cover_id(), Some(16));
        assert_eq!(song.size(), 17);
        assert_eq!(song.duration(), 18);
    }
}

#[test]
fn a_record_with_a_title_alone_fails_on_the_id() {
    assert_eq!(bad_field(Song::from(&parse(r#"{"title":"T"}"#))), "id");
}

#[test]
fn each_required_field_is_missed_by_name() {
    assert_eq!(bad_field(Song::from(&parse(r#"{"size":2,"duration":3,"path":"p"}"#))), "id");
    assert_eq!(bad_field(Song::from(&parse(r#"{"id":1,"duration":3,"path":"p"}"#))), "size");
    assert_eq!(bad_field(Song::from(&parse(r#"{"id":1,"size":2,"path":"p"}"#))), "duration");
    assert_eq!(bad_field(Song::from(&parse(r#"{"id":1,"size":2,"duration":3}"#))), "path");
    assert_eq!(bad_field(Song::from(&parse(r#"{}"#))), "id");
}

#[test]
fn what_is_no_object_is_refused_at_once() {
    assert_eq!(bad_field(Song::from(&parse(r#"[{"id":1,"size":2,"duration":3,"path":"p"}]"#))), "not an object");
    assert_eq!(bad_field(Song::from(&parse("[]"))), "not an object");
    assert_eq!(bad_field(Song::from(&parse("1633"))), "not an object");
    assert_eq!(bad_field(Song::from(&parse("\"id\""))), "not an object");
    assert_eq!(bad_field(Song::from(&parse("null"))), "not an object");
    assert_eq!(bad_field(Song::from(&parse("true"))), "not an object");
}

#[test]
fn an_optional_field_that_is_present_has_to_be_readable() {
    let with = |extra: &str| {
        parse(&format!(r#"{{"id":1,"size":2,"duration":3,"path":"p",{}}}"#, extra))
    };
    assert_eq!(bad_field(Song::from(&with(r#""title": 5"#))), "title");
    assert_eq!(bad_field(Song::from(&with(r#""album": ["a"]"#))), "album");
    assert_eq!(bad_field(Song::from(&with(r#""albumId": "two""#))), "albumId");
    assert_eq!(bad_field(Song::from(&with(r#""artist": {"name": "a"}"#))), "artist");
    assert_eq!(bad_field(Song::from(&with(r#""artistId": -1"#))), "artistId");
    assert_eq!(bad_field(Song::from(&with(r#""track": 1.5"#))), "track");
    assert_eq!(bad_field(Song::from(&with(r#""year": "MMXVII""#))), "year");
    assert_eq!(bad_field(Song::from(&with(r#""genre": false"#))), "genre");
    assert_eq!(bad_field(Song::from(&with(r#""coverArt": "al-1632""#))), "coverArt");
    assert_eq!(bad_field(Song::from(&with(r#""year": null"#))), "year");
    assert_eq!(bad_field(Song::from(&with(r#""title": null"#))), "title");
}

#[test]
fn a_required_field_of_the_wrong_type_is_refused() {
    assert_eq!(bad_field(Song::from(&parse(r#"{"id":[1],"size":2,"duration":3,"path":"p"}"#))), "id");
    assert_eq!(bad_field(Song::from(&parse(r#"{"id":1,"size":"big","duration":3,"path":"p"}"#))), "size");
    assert_eq!(bad_field(Song::from(&parse(r#"{"id":1,"size":2,"duration":-3,"path":"p"}"#))), "duration");
    assert_eq!(bad_field(Song::from(&parse(r#"{"id":1,"size":2,"duration":3,"path":4}"#))), "path");
}

#[test]
fn the_first_bad_field_in_the_order_of_the_record_is_named() {
    assert_eq!(
        bad_field(Song::from(&parse(r#"{"path": 4, "duration": "x", "year": "y", "title": 1, "id": 1}"#))),
        "title"
    );
    assert_eq!(
        bad_field(Song::from(&parse(r#"{"id": 1, "genre": 1, "coverArt": "c", "year": 1}"#))),
        "genre"
    );
    assert_eq!(
        bad_field(Song::from(&parse(r#"{"id": 1, "coverArt": "c", "year": 1, "path": "p"}"#))),
        "coverArt"
    );
}

#[test]
fn an_empty_string_is_present_and_not_absent() {
    let raw = parse(r#"{"id":1,"size":0,"duration":0,"path":"","title":"","year":0}"#);
    let song = Song::from(&raw).unwrap();
    assert_eq!(song.title(), Some(""));
    assert_eq!(song.year(), Some(0));
    assert_eq!(song.size(), 0);
    assert_eq!(song.path(), "");
    assert_eq!(song.album(), None);
}

#[test]
fn members_under_other_keys_are_ignored() {
    let raw = parse(
        r#"{"id":1,"size":2,"duration":3,"path":"p","parent":[],"isDir":"no","bitRate":null}"#,
    );
    assert!(Song::from(&raw).is_ok());
}

#[test]
fn a_failed_record_does_not_touch_the_next() {
    let batch = parse(
        r#"[{"id":1,"size":2,"duration":3,"path":"a"},
            {"id":"x","size":2,"duration":3,"path":"b"},
            {"id":3,"size":2,"duration":3,"path":"c"}]"#,
    );
    let records = batch.as_array().unwrap();
    assert_eq!(Song::from(&records[0]).unwrap().path(), "a");
    assert_eq!(bad_field(Song::from(&records[1])), "id");
    assert_eq!(Song::from(&records[2]).unwrap().id(), 3);
}

#[test]
fn decoding_twice_gives_the_same_record() {
    let raw = parse(r#"{"id":"9","size":2,"duration":3,"path":"p","artist":"a"}"#);
    let first = Song::from(&raw).unwrap();
    let second = Song::from(&raw).unwrap();
    assert_eq!(first.id(), second.id());
    assert_eq!(first.artist(), second.artist());
    assert_eq!(first.path(), second.path());
}

#[test]
fn the_record_owns_its_text() {
    let song = {
        let raw = parse(r#"{"id":1,"size":2,"duration":3,"path":"kept","genre":"g"}"#);
        Song::from(&raw).unwrap()
    };
    assert_eq!(song.path(), "kept");
    assert_eq!(song.genre(), Some("g"));
}

#[test]
fn members_decode_without_any_json() {
    let song = Song::from_members(&SongMembers {
        id: Member::Text("1633"),
        title: Member::Text("T"),
        size: Member::Number(32345658),
        duration: Member::Number(240),
        path: Member::Text("P"),
        ..minimal()
    })
    .unwrap();
    assert_eq!(song.id(), 1633);
    assert_eq!(song.title(), Some("T"));
    assert_eq!(song.album(), None);
    assert_eq!(song.size(), 32345658);
    assert_eq!(song.duration(), 240);
    assert_eq!(song.path(), "P");
}

#[test]
fn members_fail_on_the_first_bad_field() {
    assert_eq!(bad_field(Song::from_members(&SongMembers { id: Member::Absent, ..minimal() })), "id");
    assert_eq!(
        bad_field(Song::from_members(&SongMembers {
            cover_id: Member::Other,
            size: Member::Absent,
            ..minimal()
        })),
        "coverArt"
    );
    assert_eq!(
        bad_field(Song::from_members(&SongMembers {
            duration: Member::Text("4m"),
            path: Member::Absent,
            ..minimal()
        })),
        "duration"
    );
    assert_eq!(bad_field(Song::from_members(&SongMembers { path: Member::Number(1), ..minimal() })), "path");
}

#[test]
fn lookup_finds_the_members_of_a_track() {
    let raw = parse(r#"{"id":"7","coverArt":16,"albumId":"12","artistId":13,"path":"p"}"#);
    let members = SongMembers::of(&raw);
    assert!(matches!(members.id, Member::Text("7")));
    assert!(matches!(members.cover_id, Member::Number(16)));
    assert!(matches!(members.album_id, Member::Text("12")));
    assert!(matches!(members.artist_id, Member::Number(13)));
    assert!(matches!(members.path, Member::Text("p")));
    assert!(matches!(members.size, Member::Absent));
    assert!(matches!(members.title, Member::Absent));
}
