use qobuz_player::cli::{
    command_or_default, default_connect_name, effective_verbosity, lastfm_client, lastfm_notice,
    log_filter,
    plan_open, AudioCache, Cli, Commands, ConfigCommands, Credentials, Error, LastfmSession,
    LogLevel, OpenOptions, Platform, Service, DEFAULT_CACHE_HOURS, DEFAULT_PORT,
};
use qobuz_player::error;
use std::path::PathBuf;

const ALL: Platform = Platform { mpris: true, sleep_inhibitor: true, gpio: true };

const BARE: Platform = Platform { mpris: false, sleep_inhibitor: false, gpio: false };

fn text(s: &str) -> Option<String> {
    Some(s.to_string())
}

fn options() -> OpenOptions<u8> {
    OpenOptions { audio_cache_time_to_live: 0, ..OpenOptions::defaults() }
}

fn stored() -> Credentials {
    Credentials { username: text("stored user"), password: text("stored password") }
}

fn cli(verbosity: Option<LogLevel>, options: OpenOptions<u8>) -> Cli<u8> {
    Cli { verbosity, command: Some(Commands::Open(options)) }
}

fn services(options: OpenOptions<u8>, platform: Platform) -> Vec<String> {
    plan_open(options, stored(), Some(5), platform)
        .unwrap_or_else(|error| panic!("{error:?}"))
        .services
        .iter()
        .map(|service| format!("{service:?}"))
        .collect()
}

#[test]
fn defaults_of_the_command_line() {
    assert_eq!(DEFAULT_PORT, 9888);
    assert_eq!(DEFAULT_CACHE_HOURS, 1);
    assert_eq!(default_connect_name(), "qobuz-player");
}

#[test]
fn a_web_server_alone_logs_at_info() {
    let server = || OpenOptions { disable_tui: true, web: true, ..options() };
    assert_eq!(effective_verbosity(&cli(None, server())), Some(LogLevel::Info));
    let given = Some(LogLevel::Error);
    assert_eq!(effective_verbosity(&cli(given, server())), given);
    let rfid = OpenOptions { rfid: true, ..server() };
    assert_eq!(effective_verbosity(&cli(None, rfid)), None);
    let tui = OpenOptions { disable_tui: false, ..server() };
    assert_eq!(effective_verbosity(&cli(None, tui)), None);
    let no_web = OpenOptions { web: false, ..server() };
    assert_eq!(effective_verbosity(&cli(None, no_web)), None);
    let other: Cli<u8> = Cli { verbosity: None, command: Some(Commands::ListDevices) };
    assert_eq!(effective_verbosity(&other), None);
}

#[test]
fn filters() {
    let rest = ",stream_download=warn,hyper=warn,reqwest=warn,rustls=warn";
    for (level, name) in [
        (Some(LogLevel::Trace), "trace"),
        (Some(LogLevel::Debug), "debug"),
        (Some(LogLevel::Info), "info"),
        (Some(LogLevel::Warn), "warn"),
        (Some(LogLevel::Error), "error"),
        (None, "none"),
    ] {
        assert_eq!(log_filter(level), format!("{name}{rest}"));
    }
}

#[test]
fn without_a_command_the_player_opens() {
    match command_or_default::<u8>(None) {
        Commands::Open(options) => {
            assert_eq!(options.port, 9888);
            assert_eq!(options.connect_name, "qobuz-player");
            assert_eq!(options.audio_cache_time_to_live, 1);
            assert!(!options.web && !options.connect && !options.rfid && !options.lastfm);
            assert_eq!(
                services(options, ALL),
                [
                    "Mpris",
                    "SleepInhibitor",
                    "Tui { disable_album_cover: false }",
                    "CacheCleanup { hours: 1 }",
                ]
            );
        }
        _ => panic!("not Open"),
    }
    match command_or_default::<u8>(Some(Commands::ListDevices)) {
        Commands::ListDevices => {}
        _ => panic!("not ListDevices"),
    }
    let logout = Commands::Config { command: ConfigCommands::LastfmLogout };
    match command_or_default::<u8>(Some(logout)) {
        Commands::Config { command: ConfigCommands::LastfmLogout } => {}
        _ => panic!("not LastfmLogout"),
    }
}

#[test]
fn given_credentials_go_before_stored_ones() {
    let given = OpenOptions {
        username: text("given user"),
        max_audio_quality: Some(7),
        output_device_id: text("dac"),
        state_change_delay_ms: Some(100),
        ..options()
    };
    let plan = plan_open(given, stored(), Some(5), BARE).unwrap_or_else(|e| panic!("{e:?}"));
    assert_eq!(plan.settings.username, "given user");
    assert_eq!(plan.settings.password, "stored password");
    assert_eq!(plan.settings.max_audio_quality, 7);
    assert_eq!(plan.settings.output_device_id, text("dac"));
    assert_eq!(plan.settings.state_change_delay_ms, Some(100));
    assert_eq!(plan.settings.sample_rate_change_delay_ms, None);
    assert!(plan.lastfm.is_none());
    let plan = plan_open(options(), stored(), Some(5), BARE).unwrap_or_else(|e| panic!("{e:?}"));
    assert_eq!(plan.settings.max_audio_quality, 5);
}

#[test]
fn credentials_may_be_missing() {
    let nothing = || Credentials { username: None, password: None };
    match plan_open(options(), nothing(), Some(5), BARE) {
        Err(Error::UsernameMissing) => {}
        _ => panic!("expected UsernameMissing"),
    }
    let named = OpenOptions { username: text("user"), ..options() };
    match plan_open(named, nothing(), Some(5), BARE) {
        Err(Error::PasswordMissing) => {}
        _ => panic!("expected PasswordMissing"),
    }
}

#[test]
fn audio_cache_directories() {
    let given = OpenOptions { audio_cache: Some(PathBuf::from("/music")), ..options() };
    match plan_open(given, stored(), Some(5), BARE).map(|plan| plan.settings.audio_cache) {
        Ok(AudioCache::Directory(path)) => assert_eq!(path, PathBuf::from("/music")),
        other => panic!("{other:?}"),
    }
    match plan_open(options(), stored(), Some(5), BARE).map(|plan| plan.settings.audio_cache) {
        Ok(AudioCache::InTempDir(name)) => assert_eq!(name, "qobuz-player-cache"),
        other => panic!("{other:?}"),
    }
}

#[test]
fn services_start_in_order() {
    let everything = OpenOptions {
        connect: true,
        connect_name: "kitchen".to_string(),
        web: true,
        web_secret: text("web"),
        port: 80,
        gpio: true,
        rfid: true,
        rfid_server_base_address: text("http://other"),
        rfid_server_secret: text("rfid"),
        audio_cache_time_to_live: 3,
        ..options()
    };
    let plan = plan_open(everything, stored(), Some(5), ALL).unwrap_or_else(|e| panic!("{e:?}"));
    let mut started = plan.services.into_iter();
    assert!(matches!(started.next(), Some(Service::Connect { name }) if name == "kitchen"));
    assert!(matches!(started.next(), Some(Service::Mpris)));
    assert!(matches!(started.next(), Some(Service::SleepInhibitor)));
    assert!(matches!(
        started.next(),
        Some(Service::Web { port: 80, secret: Some(secret), rfid: true }) if secret == "web"
    ));
    assert!(matches!(started.next(), Some(Service::Gpio)));
    assert!(matches!(
        started.next(),
        Some(Service::Rfid { base_address: Some(address), secret: Some(secret) })
            if address == "http://other" && secret == "rfid"
    ));
    assert!(matches!(started.next(), Some(Service::CacheCleanup { hours: 3 })));
    assert!(started.next().is_none());
}

#[test]
fn rfid_takes_the_place_of_the_tui() {
    let rfid = OpenOptions { rfid: true, ..options() };
    assert_eq!(services(rfid, BARE), ["Rfid { base_address: None, secret: None }"]);
    let neither = OpenOptions { disable_tui: true, ..options() };
    assert!(services(neither, BARE).is_empty());
    let plain = OpenOptions { disable_tui_album_cover: true, ..options() };
    assert_eq!(services(plain, BARE), ["Tui { disable_album_cover: true }"]);
}

#[test]
fn interfaces_can_be_disabled() {
    let off = OpenOptions {
        disable_mpris: true,
        disable_sleep_inhibitor: true,
        disable_tui: true,
        ..options()
    };
    assert!(services(off, ALL).is_empty());
    let gpio = OpenOptions { gpio: true, disable_tui: true, ..options() };
    assert!(services(gpio, BARE).is_empty());
}

fn session() -> LastfmSession {
    LastfmSession {
        session_key: text("SK"),
        username: text("someone"),
        api_key: text("KEY"),
        api_secret: text("SECRET"),
    }
}

#[test]
fn lastfm_keys() {
    let given = OpenOptions { lastfm: true, lastfm_api_key: text("key"), ..options() };
    let plan = plan_open(given, stored(), Some(5), BARE).unwrap_or_else(|e| panic!("{e:?}"));
    let keys = plan.lastfm.unwrap();
    assert_eq!((keys.api_key, keys.api_secret), (text("key"), None));
}

#[test]
fn lastfm_clients() {
    let client = lastfm_client(None, None, session()).unwrap();
    assert!(client.is_authenticated());
    assert_eq!(client.get_auth_url(""), "https://www.last.fm/api/auth/?api_key=KEY&token=");
    let client = lastfm_client(text("other"), None, session()).unwrap();
    assert_eq!(client.get_auth_url(""), "https://www.last.fm/api/auth/?api_key=other&token=");
    let without_session = LastfmSession { session_key: None, ..session() };
    assert!(!lastfm_client(None, None, without_session).unwrap().is_authenticated());
    let without_secret = LastfmSession { api_secret: None, ..session() };
    assert!(lastfm_client(None, None, without_secret).is_none());
    let without_key = LastfmSession { api_key: None, ..session() };
    assert!(lastfm_client(None, text("secret"), without_key).is_none());
}

#[test]
fn zero_hours_disable_the_cleanup() {
    let off = OpenOptions { disable_tui: true, ..options() };
    assert!(services(off, BARE).is_empty());
    let on = OpenOptions { disable_tui: true, audio_cache_time_to_live: 2, ..options() };
    assert_eq!(services(on, BARE), ["CacheCleanup { hours: 2 }"]);
}

#[test]
fn lastfm_notices() {
    let client = lastfm_client(None, None, session());
    let notice = lastfm_notice(&client, text("someone"));
    assert_eq!(notice.level, LogLevel::Info);
    assert_eq!(notice.text, "Last.fm scrobbling enabled for user: someone");
    assert_eq!(lastfm_notice(&client, None).text, "Last.fm scrobbling enabled for user: ");
    let client = lastfm_client(None, None, LastfmSession { session_key: None, ..session() });
    let notice = lastfm_notice(&client, text("someone"));
    assert_eq!(notice.level, LogLevel::Warn);
    assert_eq!(
        notice.text,
        "Last.fm enabled but not authenticated. Run 'config lastfm-auth' to authenticate."
    );
    let notice = lastfm_notice(&None, text("someone"));
    assert_eq!(notice.level, LogLevel::Warn);
    assert_eq!(
        notice.text,
        "Last.fm enabled but API key/secret not configured. Run 'config lastfm-auth' first."
    );
}

#[test]
fn command_error_texts() {
    let s = |text: &str| text.to_string();
    for (error, text) in [
        (Error::PlayerError { error: s("a") }, "a"),
        (Error::TerminalError { error: s("b") }, "b"),
        (Error::UsernameMissing, "No username found. Set with config or arguments"),
        (Error::PasswordMissing, "No password found. Set with config or arguments"),
        (Error::PasswordError, "Error reading error prompt"),
        (Error::ConnectError { error: s("c") }, "c"),
    ] {
        assert_eq!(error.message(), text);
    }
    match Error::of_connect(s("no device")) {
        Error::ConnectError { error } => assert_eq!(error, "no device"),
        other => panic!("{other:?}"),
    }
    assert_eq!(Error::of_connect(s("no device")).message(), "no device");
    for error in [
        error::Error::LastFmError { message: s("d") },
        error::Error::RequestError { error: s("d") },
        error::Error::JsonError { error: s("d") },
        error::Error::DatabaseError { error: s("d") },
    ] {
        match Error::from(error) {
            Error::PlayerError { error } => assert_eq!(error, "d"),
            other => panic!("{other:?}"),
        }
    }
}
