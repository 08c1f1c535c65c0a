use qobuz_player::error::Error;
use qobuz_player::lastfm::{
    Answer, AuthTokenResponse, LastFm, LastFmError, Request, Session, SessionResponse, Track, Verb,
};
use qobuz_player::params::ParamMap;

fn account(session: Option<&str>) -> LastFm {
    LastFm::new(
        "KEY".to_string(),
        "SECRET".to_string(),
        session.map(|key| key.to_string()),
    )
}

fn track(artist: Option<&str>, album: Option<&str>, seconds: u32) -> Track {
    Track {
        title: "Title".to_string(),
        artist_name: artist.map(|name| name.to_string()),
        album_title: album.map(|title| title.to_string()),
        duration_seconds: seconds,
    }
}

fn pairs(request: &Request) -> Vec<(&str, &str)> {
    request
        .params
        .iter()
        .map(|(key, value)| (key.as_str(), value.as_str()))
        .collect()
}

fn map_of(list: &[(&str, &str)]) -> ParamMap {
    let mut map = ParamMap::new();
    for (key, value) in list {
        map.insert(key, value);
    }
    map
}

fn walk(map: &ParamMap) -> Vec<(String, String)> {
    (0..map.len())
        .map(|i| (map.key(i).to_string(), map.value(i).to_string()))
        .collect()
}

#[test]
fn params_are_walked_in_key_order() {
    let map = map_of(&[("sk", "1"), ("api_key", "2"), ("method", "3"), ("album", "4")]);
    let keys: Vec<String> = walk(&map).into_iter().map(|p| p.0).collect();
    assert_eq!(keys, ["album", "api_key", "method", "sk"]);
}

#[test]
fn params_order_is_that_of_str() {
    let names = ["", "a", "ab", "b", "Z", "é", "z", "\u{10000}", "\u{ffff}", "aé"];
    let mut map = ParamMap::new();
    let mut std_map = std::collections::BTreeMap::new();
    for name in names {
        map.insert(name, name);
        std_map.insert(name, name);
    }
    let expected: Vec<(String, String)> =
        std_map.iter().map(|(k, v)| (k.to_string(), v.to_string())).collect();
    assert_eq!(walk(&map), expected);
}

#[test]
fn inserting_twice_keeps_the_later_value() {
    let map = map_of(&[("a", "1"), ("b", "2"), ("a", "3")]);
    assert_eq!(
        walk(&map),
        [("a".to_string(), "3".to_string()), ("b".to_string(), "2".to_string())]
    );
}

#[test]
fn signature_base_joins_names_values_and_secret() {
    let map = map_of(&[("method", "auth.getToken"), ("api_key", "KEY")]);
    assert_eq!(account(None).signature_base(&map), "api_keyKEYmethodauth.getTokenSECRET");
    assert_eq!(account(None).signature_base(&ParamMap::new()), "SECRET");
}

#[test]
fn signature_is_the_md5_digest_in_lower_hex() {
    let map = map_of(&[("method", "auth.getToken"), ("api_key", "KEY")]);
    assert_eq!(account(None).sign(&map), "66ee63a18da3c919f987b342697d913c");
    assert_eq!(account(None).sign(&ParamMap::new()), "44c7be48226ebad5dca8216674cad62b");
    // The digest of the empty text, whose digits include leading zeros in bytes.
    let empty = LastFm::new(String::new(), String::new(), None);
    assert_eq!(empty.sign(&ParamMap::new()), "d41d8cd98f00b204e9800998ecf8427e");
}

#[test]
fn signature_ignores_insertion_order() {
    let one = map_of(&[("a", "1"), ("b", "2"), ("c", "3")]);
    let other = map_of(&[("c", "3"), ("b", "2"), ("a", "1")]);
    assert_eq!(account(None).sign(&one), account(None).sign(&other));
}

#[test]
fn auth_token_request() {
    let request = account(None).get_auth_token_request();
    assert_eq!(request.verb, Verb::Get);
    assert_eq!(request.url, "https://ws.audioscrobbler.com/2.0/");
    assert_eq!(
        pairs(&request),
        [
            ("method", "auth.getToken"),
            ("api_key", "KEY"),
            ("api_sig", "66ee63a18da3c919f987b342697d913c"),
            ("format", "json"),
        ]
    );
}

#[test]
fn auth_url() {
    assert_eq!(
        account(None).get_auth_url("TOK"),
        "https://www.last.fm/api/auth/?api_key=KEY&token=TOK"
    );
}

#[test]
fn session_request() {
    let request = account(None).get_session_request("TOK");
    assert_eq!(request.verb, Verb::Get);
    assert_eq!(
        pairs(&request),
        [
            ("method", "auth.getSession"),
            ("api_key", "KEY"),
            ("token", "TOK"),
            ("api_sig", "0bf279e021f3a81b4553dd7e76cf72ad"),
            ("format", "json"),
        ]
    );
}

#[test]
fn now_playing_request_with_album() {
    let request =
        account(Some("SK")).now_playing_request(&track(None, Some("Album"), 185)).unwrap();
    assert_eq!(request.verb, Verb::Post);
    assert_eq!(request.url, "https://ws.audioscrobbler.com/2.0/");
    assert_eq!(
        pairs(&request),
        [
            ("method", "track.updateNowPlaying"),
            ("api_key", "KEY"),
            ("sk", "SK"),
            ("artist", "Unknown Artist"),
            ("track", "Title"),
            ("duration", "185"),
            ("api_sig", "cb42d7a2f4610550a3d205fd830b1745"),
            ("format", "json"),
            ("album", "Album"),
        ]
    );
}

#[test]
fn scrobble_request_without_album() {
    let mut song = track(Some("Æon"), Some(""), 0);
    song.title = "Sóng".to_string();
    let request = account(Some("SK")).scrobble_request(&song, 1700000000).unwrap();
    assert_eq!(request.verb, Verb::Post);
    assert_eq!(
        pairs(&request),
        [
            ("method", "track.scrobble"),
            ("api_key", "KEY"),
            ("sk", "SK"),
            ("artist", "Æon"),
            ("track", "Sóng"),
            ("timestamp", "1700000000"),
            ("duration", "0"),
            ("api_sig", "0d7b3df7c2447aba4e0c02936c8a0740"),
            ("format", "json"),
        ]
    );
}

#[test]
fn largest_numbers_are_written_in_full() {
    let lastfm = account(Some("SK"));
    let song = track(None, None, u32::MAX);
    let request = lastfm.scrobble_request(&song, u64::MAX).unwrap();
    assert!(pairs(&request).contains(&("timestamp", "18446744073709551615")));
    assert!(pairs(&request).contains(&("duration", "4294967295")));
}

#[test]
fn what_is_sent_is_what_is_signed() {
    let lastfm = account(Some("SK"));
    let song = track(Some("Artist"), Some("Album"), 200);
    for (request, signed) in [
        (lastfm.get_auth_token_request(), lastfm.auth_token_params()),
        (lastfm.get_session_request("TOK"), lastfm.session_params("TOK")),
        (
            lastfm.now_playing_request(&song).unwrap(),
            lastfm.now_playing_params("SK", &song),
        ),
        (
            lastfm.scrobble_request(&song, 7).unwrap(),
            lastfm.scrobble_params("SK", &song, 7),
        ),
    ] {
        let mut sent = request.params.clone();
        sent.retain(|(key, _)| key != "api_sig" && key != "format");
        sent.sort();
        assert_eq!(sent, walk(&signed));
        let sig = request.params.iter().find(|(key, _)| key == "api_sig").unwrap();
        assert_eq!(sig.1, lastfm.sign(&signed));
    }
}

#[test]
fn nothing_is_sent_without_a_session() {
    let mut lastfm = account(None);
    assert!(!lastfm.is_authenticated());
    assert!(lastfm.now_playing_request(&track(None, None, 60)).is_none());
    assert!(lastfm.scrobble_request(&track(None, None, 60), 0).is_none());
    lastfm.set_session_key("GRANTED".to_string());
    assert!(lastfm.is_authenticated());
    let request = lastfm.now_playing_request(&track(None, None, 60)).unwrap();
    assert!(pairs(&request).contains(&("sk", "GRANTED")));
}

fn refusal() -> Option<LastFmError> {
    Some(LastFmError { error: 14, message: "Unauthorized Token".to_string() })
}

#[test]
fn token_answers() {
    let token = || AuthTokenResponse { token: "TOK".to_string() };
    let good = Answer::Text { error: None, value: Ok(token()) };
    assert_eq!(LastFm::get_auth_token_result(good).unwrap(), "TOK");
    let refused = Answer::Text { error: refusal(), value: Ok(token()) };
    match LastFm::get_auth_token_result(refused) {
        Err(Error::LastFmError { message }) => assert_eq!(message, "Unauthorized Token"),
        other => panic!("{other:?}"),
    }
    let garbled = Answer::Text { error: None, value: Err("no token".to_string()) };
    match LastFm::get_auth_token_result(garbled) {
        Err(Error::JsonError { error }) => assert_eq!(error, "no token"),
        other => panic!("{other:?}"),
    }
    let missing = Answer::Missing { reason: "timed out".to_string() };
    match LastFm::get_auth_token_result(missing) {
        Err(Error::RequestError { error }) => assert_eq!(error, "timed out"),
        other => panic!("{other:?}"),
    }
}

#[test]
fn session_answers() {
    let session = SessionResponse {
        session: Session { key: "SK".to_string(), name: "someone".to_string() },
    };
    let good = Answer::Text { error: None, value: Ok(session) };
    assert_eq!(
        LastFm::get_session_result(good).unwrap(),
        ("SK".to_string(), "someone".to_string())
    );
    let refused = Answer::Text { error: refusal(), value: Err("no session".to_string()) };
    assert_eq!(
        LastFm::get_session_result(refused).unwrap_err().message(),
        "Unauthorized Token"
    );
}

#[test]
fn any_text_but_an_error_acknowledges() {
    let plain: Answer<()> = Answer::Text { error: None, value: Err("no JSON".to_string()) };
    assert!(LastFm::now_playing_outcome(Some(plain)).is_ok());
    let plain: Answer<()> = Answer::Text { error: None, value: Ok(()) };
    assert!(LastFm::scrobble_outcome(Some(plain)).is_ok());
    let refused: Answer<()> = Answer::Text { error: refusal(), value: Ok(()) };
    assert_eq!(
        LastFm::scrobble_outcome(Some(refused)).unwrap_err().message(),
        "Unauthorized Token"
    );
    let missing: Answer<()> = Answer::Missing { reason: "offline".to_string() };
    assert_eq!(LastFm::now_playing_outcome(Some(missing)).unwrap_err().message(), "offline");
}

#[test]
fn what_is_skipped_succeeds() {
    assert!(LastFm::now_playing_outcome::<()>(None).is_ok());
    assert!(LastFm::scrobble_outcome::<()>(None).is_ok());
}

#[test]
fn error_texts() {
    for error in [
        Error::LastFmError { message: "text".to_string() },
        Error::RequestError { error: "text".to_string() },
        Error::JsonError { error: "text".to_string() },
        Error::DatabaseError { error: "text".to_string() },
    ] {
        assert_eq!(error.message(), "text");
    }
}
