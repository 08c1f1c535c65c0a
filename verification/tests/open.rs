use qobuz_player::cli::{
    Credentials, Error, LastfmSession, LogLevel, OpenOptions, Platform, Service,
};
use qobuz_player::error;
use qobuz_player::open::{initial_tracklist, OpenAction, OpenEvent, OpenState, OpenStep, Stored};

const LINUX: Platform = Platform { mpris: true, sleep_inhibitor: true, gpio: false };

fn text(s: &str) -> Option<String> {
    Some(s.to_string())
}

fn advance(state: OpenState<u8, Vec<u32>>, event: OpenEvent<u8, Vec<u32>>) -> OpenStep<u8, Vec<u32>> {
    assert!(state.expects(&event));
    state.advance(event)
}

fn stored(password: Option<String>, max_audio_quality: Option<u8>) -> OpenEvent<u8, Vec<u32>> {
    OpenEvent::StoredLoaded {
        result: Ok(Stored {
            credentials: Credentials { username: text("user"), password },
            max_audio_quality,
            tracklist: Some(vec![4, 2]),
        }),
    }
}

fn without_tracklist(event: OpenEvent<u8, Vec<u32>>) -> OpenEvent<u8, Vec<u32>> {
    match event {
        OpenEvent::StoredLoaded { result: Ok(stored) } => OpenEvent::StoredLoaded {
            result: Ok(Stored { tracklist: None, ..stored }),
        },
        other => other,
    }
}

fn begin(options: OpenOptions<u8>) -> OpenState<u8, Vec<u32>> {
    let step = OpenState::begin(options, LINUX);
    assert!(matches!(step.action, OpenAction::LoadStored));
    step.state
}

fn broken() -> error::Error {
    error::Error::DatabaseError { error: "broken".to_string() }
}

fn stops_with(step: OpenStep<u8, Vec<u32>>, text: &str) {
    match step.action {
        OpenAction::Stop { result: Err(error) } => assert_eq!(error.message(), text),
        _ => panic!("the command goes on"),
    }
    assert!(!step.state.expects(&OpenEvent::PlayerEnded { result: Ok(()) }));
}

#[test]
fn a_start_without_lastfm() {
    let step = advance(begin(OpenOptions::defaults()), stored(text("pw"), Some(6)));
    match step.action {
        OpenAction::CreatePlayer { settings, tracklist, lastfm, notice } => {
            assert_eq!(settings.username, "user");
            assert_eq!(settings.password, "pw");
            assert_eq!(settings.max_audio_quality, 6);
            assert_eq!(tracklist, [4, 2]);
            assert!(lastfm.is_none());
            assert!(notice.is_none());
        }
        _ => panic!("no player is created"),
    }
    let step = advance(step.state, OpenEvent::PlayerCreated { result: Ok(()) });
    assert!(matches!(step.action, OpenAction::StartService { service: Service::Mpris }));
    let step = advance(step.state, OpenEvent::ServiceStarted { result: Ok(()) });
    assert!(matches!(step.action, OpenAction::StartService { service: Service::SleepInhibitor }));
    let step = advance(step.state, OpenEvent::ServiceStarted { result: Ok(()) });
    assert!(matches!(
        step.action,
        OpenAction::StartService { service: Service::Tui { disable_album_cover: false } }
    ));
    let step = advance(step.state, OpenEvent::ServiceStarted { result: Ok(()) });
    assert!(matches!(
        step.action,
        OpenAction::StartService { service: Service::CacheCleanup { hours: 1 } }
    ));
    let step = advance(step.state, OpenEvent::ServiceStarted { result: Ok(()) });
    assert!(matches!(step.action, OpenAction::Play));
    let step = advance(step.state, OpenEvent::PlayerEnded { result: Ok(()) });
    assert!(matches!(step.action, OpenAction::Stop { result: Ok(()) }));
}

#[test]
fn a_start_with_lastfm() {
    let options = OpenOptions { lastfm: true, lastfm_api_key: text("KEY"), ..OpenOptions::defaults() };
    let step = advance(begin(options), stored(text("pw"), Some(6)));
    assert!(matches!(step.action, OpenAction::LoadLastfmSession));
    let session = LastfmSession {
        session_key: text("SK"),
        username: text("someone"),
        api_key: None,
        api_secret: text("SECRET"),
    };
    let step = advance(step.state, OpenEvent::LastfmSessionLoaded { result: Ok(session) });
    match step.action {
        OpenAction::CreatePlayer {
            tracklist,
            lastfm: Some(lastfm),
            notice: Some(notice),
            ..
        } => {
            assert_eq!(tracklist, [4, 2]);
            assert!(lastfm.is_authenticated());
            assert_eq!(notice.text, "Last.fm scrobbling enabled for user: someone");
        }
        _ => panic!("no player with Last.fm is created"),
    }
}

#[test]
fn lastfm_without_keys_is_left_out() {
    let options = OpenOptions { lastfm: true, ..OpenOptions::defaults() };
    let step = advance(begin(options), stored(text("pw"), Some(6)));
    let nothing =
        LastfmSession { session_key: None, username: None, api_key: None, api_secret: None };
    let step = advance(step.state, OpenEvent::LastfmSessionLoaded { result: Ok(nothing) });
    match step.action {
        OpenAction::CreatePlayer { lastfm: None, notice: Some(notice), .. } => {
            assert_eq!(notice.level, LogLevel::Warn)
        }
        _ => panic!("no player without Last.fm is created"),
    }
}

#[test]
fn a_missing_tracklist_is_replaced_by_the_empty_one() {
    let loaded = without_tracklist(stored(text("pw"), Some(6)));
    let step = advance(begin(OpenOptions::defaults()), loaded);
    match step.action {
        OpenAction::CreatePlayer { tracklist, .. } => assert!(tracklist.is_empty()),
        _ => panic!("no player is created"),
    }
    assert_eq!(initial_tracklist::<Vec<u32>>(None), []);
    assert_eq!(initial_tracklist(Some(vec![1])), [1]);
}

#[test]
fn no_player_without_a_password() {
    let step = advance(begin(OpenOptions::defaults()), stored(None, None));
    assert!(matches!(&step.action, OpenAction::Stop { result: Err(Error::PasswordMissing) }));
    stops_with(step, "No password found. Set with config or arguments");
}

#[test]
fn an_audio_quality_has_to_be_known() {
    let state = begin(OpenOptions::defaults());
    assert!(!state.expects(&stored(text("pw"), None)));
    assert!(state.expects(&stored(None, None)));
    let state = begin(OpenOptions { max_audio_quality: Some(5), ..OpenOptions::defaults() });
    assert!(state.expects(&stored(text("pw"), None)));
}

#[test]
fn failures_stop_the_command() {
    let loaded = OpenEvent::StoredLoaded { result: Err(broken()) };
    stops_with(advance(begin(OpenOptions::defaults()), loaded), "broken");

    let options = OpenOptions { lastfm: true, ..OpenOptions::defaults() };
    let step = advance(begin(options), stored(text("pw"), Some(6)));
    let loaded = OpenEvent::LastfmSessionLoaded { result: Err(broken()) };
    stops_with(advance(step.state, loaded), "broken");

    let created = || advance(begin(OpenOptions::defaults()), stored(text("pw"), Some(6))).state;
    stops_with(
        advance(created(), OpenEvent::PlayerCreated { result: Err(broken()) }),
        "broken",
    );

    let step = advance(created(), OpenEvent::PlayerCreated { result: Ok(()) });
    stops_with(
        advance(step.state, OpenEvent::ServiceStarted { result: Err(broken()) }),
        "broken",
    );

    let bare = Platform { mpris: false, sleep_inhibitor: false, gpio: false };
    let quiet = OpenOptions {
        disable_tui: true,
        audio_cache_time_to_live: 0,
        ..OpenOptions::defaults()
    };
    let state = OpenState::begin(quiet, bare).state;
    let step = advance(state, stored(text("pw"), Some(6)));
    let step = advance(step.state, OpenEvent::PlayerCreated { result: Ok(()) });
    assert!(matches!(step.action, OpenAction::Play));
    stops_with(
        advance(step.state, OpenEvent::PlayerEnded { result: Err(broken()) }),
        "broken",
    );
}
