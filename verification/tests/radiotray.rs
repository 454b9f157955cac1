use musicctl::dict::{Dict, Entry};
use musicctl::error::McError;
use musicctl::radiotray::{
    blob_can_play, can_play_from_state, get_json_string, info_from_blob, info_from_state,
    parse_state, Member, StateBlob,
};
use musicctl::track::MusicInfo;

fn object(members: Vec<(&str, Member)>) -> StateBlob {
    StateBlob::Object(Dict {
        entries: members
            .into_iter()
            .map(|(key, value)| Entry { key: key.to_string(), value })
            .collect(),
    })
}

fn string(value: &str) -> Member {
    Member::Text(value.to_string())
}

fn station(artist: &str, title: &str, station: &str) -> MusicInfo {
    MusicInfo {
        artist: artist.to_string(),
        title: title.to_string(),
        album: station.to_string(),
        cover: String::new(),
    }
}

fn parser_message(text: &str) -> String {
    serde_json::from_str::<serde_json::Value>(text).unwrap_err().to_string()
}

#[test]
fn state_text_is_parsed_into_its_members() {
    let parsed = parse_state(r#"{"url": "http://x", "volume": 80, "title": "News"}"#).unwrap();
    assert_eq!(get_json_string(&parsed, "url"), "http://x");
    assert_eq!(get_json_string(&parsed, "title"), "News");
    assert_eq!(get_json_string(&parsed, "volume"), "");
    assert_eq!(get_json_string(&parsed, "artist"), "");
    assert_eq!(
        parsed,
        object(vec![("title", string("News")), ("url", string("http://x")), ("volume", Member::Other)])
    );
}

#[test]
fn state_text_that_is_no_object_is_parsed_as_such() {
    assert_eq!(parse_state("null"), Ok(StateBlob::Null));
    assert_eq!(parse_state(" null\n"), Ok(StateBlob::Null));
    assert_eq!(parse_state("{}"), Ok(object(Vec::new())));
    for text in ["true", "17", "-2.5e3", "\"null\"", "[]", "[{\"url\": \"x\"}]"] {
        assert_eq!(parse_state(text), Ok(StateBlob::Other));
    }
}

#[test]
fn members_that_are_no_strings_are_parsed_as_other() {
    let parsed = parse_state(
        r#"{"a": null, "b": true, "c": 1, "d": [], "e": {"url": "x"}, "f": "", "g": "é\n"}"#,
    );
    assert_eq!(
        parsed,
        Ok(object(vec![
            ("a", Member::Other),
            ("b", Member::Other),
            ("c", Member::Other),
            ("d", Member::Other),
            ("e", Member::Other),
            ("f", string("")),
            ("g", string("é\n")),
        ]))
    );
}

#[test]
fn last_of_a_repeated_member_is_parsed() {
    let parsed = parse_state(r#"{"url": "first", "url": "second"}"#);
    assert_eq!(parsed, Ok(object(vec![("url", string("second"))])));
}

#[test]
fn text_that_is_no_json_is_a_decode_failure() {
    for text in ["", "{", "not json", "{\"url\": }", "null null", "{'url': 'x'}"] {
        let expected = McError::Decode(parser_message(text));
        assert_eq!(parse_state(text), Err(expected.clone()));
        assert_eq!(info_from_state(text), Err(expected.clone()));
        assert_eq!(can_play_from_state(text), Err(expected));
    }
    assert_eq!(
        parse_state("{"),
        Err(McError::Decode("EOF while parsing an object at line 1 column 1".to_string()))
    );
}

#[test]
fn track_is_read_from_artist_title_and_station() {
    let text = r#"{
        "artist": "Nina Simone",
        "title": "Sinnerman",
        "station": "Jazz FM",
        "url": "http://jazz.example/stream",
        "state": "playing",
        "volume": "80"
    }"#;
    assert_eq!(info_from_state(text), Ok(Some(station("Nina Simone", "Sinnerman", "Jazz FM"))));
}

#[test]
fn null_state_means_no_track() {
    assert_eq!(info_from_state("null"), Ok(None));
    assert_eq!(info_from_blob(&StateBlob::Null), None);
}

#[test]
fn missing_and_mistyped_members_read_as_empty_fields() {
    assert_eq!(info_from_state("{}"), Ok(Some(MusicInfo::default())));
    assert_eq!(
        info_from_state(r#"{"artist": 7, "title": ["x"], "station": null}"#),
        Ok(Some(MusicInfo::default()))
    );
    assert_eq!(
        info_from_state(r#"{"artist": "a", "album": "not read", "cover": "not read"}"#),
        Ok(Some(station("a", "", "")))
    );
}

#[test]
fn state_that_is_no_object_is_a_track_of_empty_fields() {
    for text in ["true", "42", "\"artist\"", "[\"artist\"]"] {
        assert_eq!(info_from_state(text), Ok(Some(MusicInfo::default())));
    }
    assert_eq!(info_from_blob(&StateBlob::Other), Some(MusicInfo::default()));
}

#[test]
fn track_is_read_from_a_state_written_by_hand() {
    let blob = object(vec![
        ("station", string("Jazz FM")),
        ("artist", string("Nina Simone")),
        ("title", Member::Other),
    ]);
    assert_eq!(info_from_blob(&blob), Some(station("Nina Simone", "", "Jazz FM")));
    assert_eq!(get_json_string(&blob, "station"), "Jazz FM");
    assert_eq!(get_json_string(&blob, "title"), "");
    assert_eq!(get_json_string(&StateBlob::Null, "station"), "");
    assert_eq!(get_json_string(&StateBlob::Other, "station"), "");
}

#[test]
fn radio_can_play_with_a_stream_address() {
    assert_eq!(can_play_from_state(r#"{"url": "http://jazz.example/stream"}"#), Ok(true));
    assert_eq!(can_play_from_state(r#"{"title": "x", "url": " "}"#), Ok(true));
    assert!(blob_can_play(&object(vec![("url", string("u"))])));
}

#[test]
fn radio_cannot_play_without_a_stream_address() {
    assert_eq!(can_play_from_state(r#"{"url": ""}"#), Ok(false));
    assert_eq!(can_play_from_state(r#"{"title": "x"}"#), Ok(false));
    assert_eq!(can_play_from_state("{}"), Ok(false));
    assert!(!blob_can_play(&object(vec![("url", string(""))])));
    assert!(!blob_can_play(&object(Vec::new())));
}

#[test]
fn radio_cannot_play_with_an_address_that_is_no_string() {
    for text in [
        r#"{"url": null}"#,
        r#"{"url": 1}"#,
        r#"{"url": true}"#,
        r#"{"url": ["http://x"]}"#,
        r#"{"url": {"href": "http://x"}}"#,
    ] {
        assert_eq!(can_play_from_state(text), Ok(false));
    }
    assert!(!blob_can_play(&object(vec![("url", Member::Other)])));
}

#[test]
fn radio_cannot_play_with_a_state_that_is_no_object() {
    for text in ["null", "\"url\"", "[\"url\"]", "0"] {
        assert_eq!(can_play_from_state(text), Ok(false));
    }
    assert!(!blob_can_play(&StateBlob::Null));
    assert!(!blob_can_play(&StateBlob::Other));
}

#[test]
fn member_names_are_matched_exactly() {
    assert_eq!(can_play_from_state(r#"{"URL": "http://x", "url ": "http://x"}"#), Ok(false));
    assert_eq!(
        info_from_state(r#"{"Artist": "a", "TITLE": "t"}"#),
        Ok(Some(MusicInfo::default()))
    );
}
