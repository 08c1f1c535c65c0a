//! The command line: what each command asks for, and what the player does to
//! serve it.

use crate::error;
use crate::lastfm::LastFm;
use vstd::prelude::*;
use vstd::string::*;

verus! {

/// `std::path::PathBuf`, the name of a file or directory. Nothing is claimed
/// of it: paths are only handed on.
#[verifier::external_type_specification]
#[verifier::external_body]
pub struct ExPathBuf(std::path::PathBuf);

/// How much is logged.
#[derive(Debug, Clone, Copy, PartialEq, Eq, Structural)]
pub enum LogLevel {
    Trace,
    Debug,
    Info,
    Warn,
    Error,
}

/// A command line. `Q` is the type of audio qualities, which are only handed on.
pub struct Cli<Q> {
    /// Log level
    pub verbosity: Option<LogLevel>,
    pub command: Option<Commands<Q>>,
}

/// What the program is asked to do.
pub enum Commands<Q> {
    /// Default. Starts the player
    Open(OpenOptions<Q>),
    /// Persist configurations
    Config { command: ConfigCommands<Q> },
    /// List available output devices
    ListDevices,
}

/// How the player is started.
pub struct OpenOptions<Q> {
    /// Provide a username (overrides any configured value)
    pub username: Option<String>,
    /// Provide a password (overrides any configured value)
    pub password: Option<String>,
    /// Provide max audio quality (overrides any configured value)
    pub max_audio_quality: Option<Q>,
    /// Use provided device for audio output, instead of default.
    pub output_device_id: Option<String>,
    /// Delay playback when changing state from paused to playing in milliseconds
    pub state_change_delay_ms: Option<u64>,
    /// Delay playback when changing sample rate in milliseconds
    pub sample_rate_change_delay_ms: Option<u64>,
    /// Disable the TUI interface
    pub disable_tui: bool,
    /// Disable the album cover image in TUI
    pub disable_tui_album_cover: bool,
    /// Disable the mpris interface
    pub disable_mpris: bool,
    /// Enable qobuz connect (experimental)
    pub connect: bool,
    /// Set qobuz connect device name
    pub connect_name: String,
    /// Start web server with web api and ui
    pub web: bool,
    /// Secret used for web ui auth
    pub web_secret: Option<String>,
    /// Specify port for the web server
    pub port: u16,
    /// Enable rfid interface
    pub rfid: bool,
    /// Use other qobuz-player with web for rfid database
    pub rfid_server_base_address: Option<String>,
    /// Secret for optional qobuz-player rfid server
    pub rfid_server_secret: Option<String>,
    /// Enable gpio interface for raspberry pi. Pin 16 (gpio-23) will be high when playing
    pub gpio: bool,
    /// Cache audio files in directory [default: Temporary directory]
    pub audio_cache: Option<std::path::PathBuf>,
    /// Hours before audio cache is cleaned. 0 for disable
    pub audio_cache_time_to_live: u32,
    /// Disable sleep inhibitor
    pub disable_sleep_inhibitor: bool,
    /// Enable Last.fm scrobbling
    pub lastfm: bool,
    /// Last.fm API key (required for scrobbling)
    pub lastfm_api_key: Option<String>,
    /// Last.fm API secret (required for scrobbling)
    pub lastfm_api_secret: Option<String>,
}

/// What is to be configured.
pub enum ConfigCommands<Q> {
    /// Set username.
    Username { username: String },
    /// Set password. Leave empty to get a password prompt.
    Password { password: Option<String> },
    /// Set max audio quality.
    MaxAudioQuality { quality: Q },
    /// Authenticate with Last.fm for scrobbling
    LastfmAuth {
        /// Last.fm API key
        api_key: String,
        /// Last.fm API secret
        api_secret: String,
    },
    /// Clear Last.fm authentication
    LastfmLogout,
}

/// Why a command failed.
#[derive(Debug)]
pub enum Error {
    PlayerError { error: String },
    TerminalError { error: String },
    UsernameMissing,
    PasswordMissing,
    PasswordError,
    ConnectError { error: String },
}

impl Error {
    /// The text of the error.
    pub open spec fn text(self) -> Seq<char> {
        match self {
            Error::PlayerError { error } => error@,
            Error::TerminalError { error } => error@,
            Error::UsernameMissing => "No username found. Set with config or arguments"@,
            Error::PasswordMissing => "No password found. Set with config or arguments"@,
            Error::PasswordError => "Error reading error prompt"@,
            Error::ConnectError { error } => error@,
        }
    }

    /// The text to show to the user.
    pub fn message(&self) -> (message: &str)
        ensures
            message@ == self.text(),
    {
        match self {
            Error::PlayerError { error } => error.as_str(),
            Error::TerminalError { error } => error.as_str(),
            Error::UsernameMissing => "No username found. Set with config or arguments",
            Error::PasswordMissing => "No password found. Set with config or arguments",
            Error::PasswordError => "Error reading error prompt",
            Error::ConnectError { error } => error.as_str(),
        }
    }

    /// A failure of the player, with the player's own text.
    pub open spec fn of_player(error: error::Error) -> Error {
        match error {
            error::Error::LastFmError { message } => Error::PlayerError { error: message },
            error::Error::RequestError { error } => Error::PlayerError { error },
            error::Error::JsonError { error } => Error::PlayerError { error },
            error::Error::DatabaseError { error } => Error::PlayerError { error },
        }
    }
}

impl Error {
    /// A failure of qobuz connect, with its own text.
    pub fn of_connect(text: String) -> (error: Error)
        ensures
            error == (Error::ConnectError { error: text }),
            error.text() == text@,
    {
        Error::ConnectError { error: text }
    }
}

impl From<error::Error> for Error {
    fn from(error: error::Error) -> (result: Error) {
        match error {
            error::Error::LastFmError { message } => Error::PlayerError { error: message },
            error::Error::RequestError { error } => Error::PlayerError { error },
            error::Error::JsonError { error } => Error::PlayerError { error },
            error::Error::DatabaseError { error } => Error::PlayerError { error },
        }
    }
}

impl vstd::std_specs::convert::FromSpecImpl<error::Error> for Error {
    open spec fn obeys_from_spec() -> bool {
        true
    }

    open spec fn from_spec(error: error::Error) -> Error {
        Error::of_player(error)
    }
}

/// The web server's port where none is given on the command line.
pub const DEFAULT_PORT: u16 = 9888;

/// The hours before the audio cache is cleaned where none are given on the
/// command line.
pub const DEFAULT_CACHE_HOURS: u32 = 1;

/// The name of the qobuz connect device where none is given on the command line.
pub fn default_connect_name() -> (name: String)
    ensures
        name@ == "qobuz-player"@,
{
    "qobuz-player".to_owned()
}

/// The level that is logged at. A player that runs as a web server only, with
/// neither the TUI nor rfid, logs at [`LogLevel::Info`] if no level is given.
pub open spec fn log_level<Q>(cli: &Cli<Q>) -> Option<LogLevel> {
    match cli.command {
        Some(Commands::Open(options)) => if cli.verbosity is None && options.disable_tui
            && !options.rfid && options.web {
            Some(LogLevel::Info)
        } else {
            cli.verbosity
        },
        _ => cli.verbosity,
    }
}

/// The level that is logged at.
pub fn effective_verbosity<Q>(cli: &Cli<Q>) -> (level: Option<LogLevel>)
    ensures
        level == log_level(cli),
{
    match &cli.command {
        Some(Commands::Open(options)) => {
            if cli.verbosity.is_none() && options.disable_tui && !options.rfid && options.web {
                Some(LogLevel::Info)
            } else {
                cli.verbosity
            }
        },
        _ => cli.verbosity,
    }
}

/// How a level is written in a filter.
pub open spec fn level_text(level: Option<LogLevel>) -> Seq<char> {
    match level {
        Some(LogLevel::Trace) => "trace"@,
        Some(LogLevel::Debug) => "debug"@,
        Some(LogLevel::Info) => "info"@,
        Some(LogLevel::Warn) => "warn"@,
        Some(LogLevel::Error) => "error"@,
        None => "none"@,
    }
}

/// What is logged: the given level, but of some libraries only warnings.
pub fn log_filter(level: Option<LogLevel>) -> (filter: String)
    ensures
        filter@ == level_text(level)
            + ",stream_download=warn,hyper=warn,reqwest=warn,rustls=warn"@,
{
    let mut filter = match level {
        Some(LogLevel::Trace) => "trace".to_owned(),
        Some(LogLevel::Debug) => "debug".to_owned(),
        Some(LogLevel::Info) => "info".to_owned(),
        Some(LogLevel::Warn) => "warn".to_owned(),
        Some(LogLevel::Error) => "error".to_owned(),
        None => "none".to_owned(),
    };
    filter.append(",stream_download=warn,hyper=warn,reqwest=warn,rustls=warn");
    filter
}

impl<Q> OpenOptions<Q> {
    /// Whether every option has the value that it has where the command line
    /// does not give it.
    pub open spec fn is_default(self) -> bool {
        &&& self.username is None
        &&& self.password is None
        &&& self.max_audio_quality is None
        &&& self.output_device_id is None
        &&& self.state_change_delay_ms is None
        &&& self.sample_rate_change_delay_ms is None
        &&& !self.disable_tui
        &&& !self.disable_tui_album_cover
        &&& !self.disable_mpris
        &&& !self.connect
        &&& self.connect_name@ == "qobuz-player"@
        &&& !self.web
        &&& self.web_secret is None
        &&& self.port == DEFAULT_PORT
        &&& !self.rfid
        &&& self.rfid_server_base_address is None
        &&& self.rfid_server_secret is None
        &&& !self.gpio
        &&& self.audio_cache is None
        &&& self.audio_cache_time_to_live == DEFAULT_CACHE_HOURS
        &&& !self.disable_sleep_inhibitor
        &&& !self.lastfm
        &&& self.lastfm_api_key is None
        &&& self.lastfm_api_secret is None
    }

    /// The options of an `open` to which nothing is added.
    pub fn defaults() -> (options: OpenOptions<Q>)
        ensures
            options.is_default(),
    {
        OpenOptions {
            username: None,
            password: None,
            max_audio_quality: None,
            output_device_id: None,
            state_change_delay_ms: None,
            sample_rate_change_delay_ms: None,
            disable_tui: false,
            disable_tui_album_cover: false,
            disable_mpris: false,
            connect: false,
            connect_name: default_connect_name(),
            web: false,
            web_secret: None,
            port: DEFAULT_PORT,
            rfid: false,
            rfid_server_base_address: None,
            rfid_server_secret: None,
            gpio: false,
            audio_cache: None,
            audio_cache_time_to_live: DEFAULT_CACHE_HOURS,
            disable_sleep_inhibitor: false,
            lastfm: false,
            lastfm_api_key: None,
            lastfm_api_secret: None,
        }
    }
}

/// The command that is carried out: without one, an `open` to which nothing is
/// added.
pub fn command_or_default<Q>(command: Option<Commands<Q>>) -> (chosen: Commands<Q>)
    ensures
        match command {
            Some(given) => chosen == given,
            None => chosen matches Commands::Open(options) && options.is_default(),
        },
{
    match command {
        Some(given) => given,
        None => Commands::Open(OpenOptions::defaults()),
    }
}

/// The account that is stored.
#[derive(Debug)]
pub struct Credentials {
    pub username: Option<String>,
    pub password: Option<String>,
}

/// What is stored of Last.fm.
#[derive(Debug)]
pub struct LastfmSession {
    pub session_key: Option<String>,
    pub username: Option<String>,
    pub api_key: Option<String>,
    pub api_secret: Option<String>,
}

/// The given value, or else the stored one.
pub open spec fn given_or_stored<T>(given: Option<T>, stored: Option<T>) -> Option<T> {
    match given {
        Some(value) => Some(value),
        None => stored,
    }
}

/// The given value, or else the stored one.
fn choose_given<T>(given: Option<T>, stored: Option<T>) -> (chosen: Option<T>)
    ensures
        chosen == given_or_stored(given, stored),
{
    match given {
        Some(value) => Some(value),
        None => stored,
    }
}

/// Whether `client` has the given key and secret, or else the stored ones, and
/// the stored session, if there is a key and a secret.
pub open spec fn is_lastfm_client(
    api_key: Option<String>,
    api_secret: Option<String>,
    stored: LastfmSession,
    client: Option<LastFm>,
) -> bool {
    match (
        given_or_stored(api_key, stored.api_key),
        given_or_stored(api_secret, stored.api_secret),
    ) {
        (Some(key), Some(secret)) => client matches Some(lastfm) && {
            &&& lastfm@.api_key == key@
            &&& lastfm@.api_secret == secret@
            &&& lastfm@.session_key == (match stored.session_key {
                Some(session_key) => Some(session_key@),
                None => None,
            })
        },
        _ => client is None,
    }
}

/// Access to Last.fm with the given key and secret, or else the stored ones,
/// in the stored session. Without a key and a secret there is none.
pub fn lastfm_client(
    api_key: Option<String>,
    api_secret: Option<String>,
    stored: LastfmSession,
) -> (client: Option<LastFm>)
    ensures
        is_lastfm_client(api_key, api_secret, stored, client),
{
    let api_key = choose_given(api_key, stored.api_key);
    let api_secret = choose_given(api_secret, stored.api_secret);
    match (api_key, api_secret) {
        (Some(key), Some(secret)) => Some(LastFm::new(key, secret, stored.session_key)),
        _ => None,
    }
}

/// Something to be logged.
#[derive(Debug)]
pub struct Notice {
    pub level: LogLevel,
    pub text: String,
}

/// Whether `notice` tells what became of enabling Last.fm: `client` is the
/// access that there is, and `username` the user whose session is stored.
pub open spec fn is_lastfm_notice(
    client: Option<LastFm>,
    username: Option<String>,
    notice: Notice,
) -> bool {
    match client {
        Some(lastfm) => if lastfm@.session_key is Some {
            &&& notice.level == LogLevel::Info
            &&& notice.text@ == "Last.fm scrobbling enabled for user: "@ + (match username {
                Some(name) => name@,
                None => Seq::empty(),
            })
        } else {
            &&& notice.level == LogLevel::Warn
            &&& notice.text@
                == "Last.fm enabled but not authenticated. Run 'config lastfm-auth' to authenticate."@
        },
        None => {
            &&& notice.level == LogLevel::Warn
            &&& notice.text@
                == "Last.fm enabled but API key/secret not configured. Run 'config lastfm-auth' first."@
        },
    }
}

/// What is logged of enabling Last.fm.
pub fn lastfm_notice(client: &Option<LastFm>, username: Option<String>) -> (notice: Notice)
    ensures
        is_lastfm_notice(*client, username, notice),
{
    match client {
        Some(lastfm) => if lastfm.is_authenticated() {
            let mut text = "Last.fm scrobbling enabled for user: ".to_owned();
            match username {
                Some(name) => text.append(name.as_str()),
                None => {},
            }
            assert(text@ =~= "Last.fm scrobbling enabled for user: "@ + (match username {
                Some(name) => name@,
                None => Seq::empty(),
            }));
            Notice { level: LogLevel::Info, text }
        } else {
            Notice {
                level: LogLevel::Warn,
                text: "Last.fm enabled but not authenticated. Run 'config lastfm-auth' to authenticate.".to_owned(),
            }
        },
        None => Notice {
            level: LogLevel::Warn,
            text: "Last.fm enabled but API key/secret not configured. Run 'config lastfm-auth' first.".to_owned(),
        },
    }
}

/// Where audio files are cached.
#[derive(Debug)]
pub enum AudioCache {
    /// In the given directory.
    Directory(std::path::PathBuf),
    /// In a directory of this name inside the system's temporary directory.
    InTempDir(String),
}

/// Which interfaces were built in.
#[derive(Debug, Clone, Copy, PartialEq, Eq, Structural)]
pub struct Platform {
    pub mpris: bool,
    pub sleep_inhibitor: bool,
    pub gpio: bool,
}

/// Something that runs beside the player.
#[derive(Debug)]
pub enum Service {
    Connect { name: String },
    Mpris,
    SleepInhibitor,
    /// `rfid` tells whether the server shares the state of [`Service::Rfid`].
    Web { port: u16, secret: Option<String>, rfid: bool },
    Gpio,
    Rfid { base_address: Option<String>, secret: Option<String> },
    Tui { disable_album_cover: bool },
    /// Every hour, removes files that are older than this many hours.
    CacheCleanup { hours: u32 },
}

/// The keys for Last.fm that are given on the command line.
#[derive(Debug)]
pub struct LastfmKeys {
    pub api_key: Option<String>,
    pub api_secret: Option<String>,
}

/// What the player is created with.
pub struct PlayerSettings<Q> {
    pub username: String,
    pub password: String,
    pub max_audio_quality: Q,
    pub output_device_id: Option<String>,
    pub state_change_delay_ms: Option<u64>,
    pub sample_rate_change_delay_ms: Option<u64>,
    pub audio_cache: AudioCache,
}

/// How the player is to be started.
pub struct OpenPlan<Q> {
    pub settings: PlayerSettings<Q>,
    /// `None` where Last.fm is not enabled.
    pub lastfm: Option<LastfmKeys>,
    /// What to start, in this order.
    pub services: Vec<Service>,
}

/// One service or none.
pub open spec fn service_if(condition: bool, service: Service) -> Seq<Service> {
    if condition {
        seq![service]
    } else {
        Seq::empty()
    }
}

/// Appends a service where the condition holds.
fn push_if(services: &mut Vec<Service>, condition: bool, service: Service)
    ensures
        final(services)@ == old(services)@ + service_if(condition, service),
{
    if condition {
        services.push(service);
    }
}

/// The services that are started, in their order.
pub open spec fn services_of<Q>(options: OpenOptions<Q>, platform: Platform) -> Seq<Service> {
    service_if(options.connect, Service::Connect { name: options.connect_name })
        + service_if(platform.mpris && !options.disable_mpris, Service::Mpris)
        + service_if(
        platform.sleep_inhibitor && !options.disable_sleep_inhibitor,
        Service::SleepInhibitor,
    ) + service_if(
        options.web,
        Service::Web { port: options.port, secret: options.web_secret, rfid: options.rfid },
    ) + service_if(platform.gpio && options.gpio, Service::Gpio) + service_if(
        options.rfid,
        Service::Rfid {
            base_address: options.rfid_server_base_address,
            secret: options.rfid_server_secret,
        },
    ) + service_if(
        !options.rfid && !options.disable_tui,
        Service::Tui { disable_album_cover: options.disable_tui_album_cover },
    ) + service_if(
        options.audio_cache_time_to_live != 0,
        Service::CacheCleanup { hours: options.audio_cache_time_to_live },
    )
}

/// Whether `cache` is the directory that is given, or else the one in the
/// system's temporary directory.
pub open spec fn is_audio_cache(given: Option<std::path::PathBuf>, cache: AudioCache) -> bool {
    match given {
        Some(path) => cache == AudioCache::Directory(path),
        None => cache matches AudioCache::InTempDir(name) && name@ == "qobuz-player-cache"@,
    }
}

/// Whether `plan` is the plan for `options`, where `username`, `password` and
/// `quality` are used.
pub open spec fn is_plan<Q>(
    plan: OpenPlan<Q>,
    options: OpenOptions<Q>,
    platform: Platform,
    username: String,
    password: String,
    quality: Q,
) -> bool {
    &&& plan.settings.username == username
    &&& plan.settings.password == password
    &&& plan.settings.max_audio_quality == quality
    &&& plan.settings.output_device_id == options.output_device_id
    &&& plan.settings.state_change_delay_ms == options.state_change_delay_ms
    &&& plan.settings.sample_rate_change_delay_ms == options.sample_rate_change_delay_ms
    &&& is_audio_cache(options.audio_cache, plan.settings.audio_cache)
    &&& plan.lastfm == (if options.lastfm {
        Some(
            LastfmKeys {
                api_key: options.lastfm_api_key,
                api_secret: options.lastfm_api_secret,
            },
        )
    } else {
        None
    })
    &&& plan.services@ == services_of(options, platform)
}

/// Whether there is an audio quality to play at, if it comes to playing.
pub open spec fn quality_known<Q>(
    options: OpenOptions<Q>,
    stored: Credentials,
    stored_quality: Option<Q>,
) -> bool {
    given_or_stored(options.username, stored.username) is Some && given_or_stored(
        options.password,
        stored.password,
    ) is Some ==> given_or_stored(options.max_audio_quality, stored_quality) is Some
}

/// How the player is started, or why it cannot be: what is given on the
/// command line goes before what is stored.
pub open spec fn planned<Q>(
    options: OpenOptions<Q>,
    stored: Credentials,
    stored_quality: Option<Q>,
    platform: Platform,
    result: Result<OpenPlan<Q>, Error>,
) -> bool {
    match given_or_stored(options.username, stored.username) {
        None => result == Err::<OpenPlan<Q>, Error>(Error::UsernameMissing),
        Some(username) => match given_or_stored(options.password, stored.password) {
            None => result == Err::<OpenPlan<Q>, Error>(Error::PasswordMissing),
            Some(password) => match given_or_stored(options.max_audio_quality, stored_quality) {
                None => false,
                Some(quality) => result matches Ok(plan) && is_plan(
                    plan,
                    options,
                    platform,
                    username,
                    password,
                    quality,
                ),
            },
        },
    }
}

/// Works out how to start the player. What is given on the command line goes
/// before what is stored. `stored_quality` is `None` where what is stored is
/// no audio quality; it has to be one if it is needed.
pub fn plan_open<Q>(
    options: OpenOptions<Q>,
    stored: Credentials,
    stored_quality: Option<Q>,
    platform: Platform,
) -> (result: Result<OpenPlan<Q>, Error>)
    requires
        quality_known(options, stored, stored_quality),
    ensures
        planned(options, stored, stored_quality, platform, result),
{
    let ghost given = options;
    let audio_cache = match options.audio_cache {
        Some(path) => AudioCache::Directory(path),
        None => AudioCache::InTempDir("qobuz-player-cache".to_owned()),
    };
    let username = match choose_given(options.username, stored.username) {
        Some(username) => username,
        None => return Err(Error::UsernameMissing),
    };
    let password = match choose_given(options.password, stored.password) {
        Some(password) => password,
        None => return Err(Error::PasswordMissing),
    };
    let max_audio_quality = choose_given(options.max_audio_quality, stored_quality).unwrap();
    let lastfm = if options.lastfm {
        Some(
            LastfmKeys {
                api_key: options.lastfm_api_key,
                api_secret: options.lastfm_api_secret,
            },
        )
    } else {
        None
    };
    let mut services: Vec<Service> = Vec::new();
    push_if(&mut services, options.connect, Service::Connect { name: options.connect_name });
    assert(services@ == service_if(given.connect, Service::Connect { name: given.connect_name }));
    push_if(&mut services, platform.mpris && !options.disable_mpris, Service::Mpris);
    push_if(
        &mut services,
        platform.sleep_inhibitor && !options.disable_sleep_inhibitor,
        Service::SleepInhibitor,
    );
    push_if(
        &mut services,
        options.web,
        Service::Web { port: options.port, secret: options.web_secret, rfid: options.rfid },
    );
    push_if(&mut services, platform.gpio && options.gpio, Service::Gpio);
    push_if(
        &mut services,
        options.rfid,
        Service::Rfid {
            base_address: options.rfid_server_base_address,
            secret: options.rfid_server_secret,
        },
    );
    push_if(
        &mut services,
        !options.rfid && !options.disable_tui,
        Service::Tui { disable_album_cover: options.disable_tui_album_cover },
    );
    push_if(
        &mut services,
        options.audio_cache_time_to_live != 0,
        Service::CacheCleanup { hours: options.audio_cache_time_to_live },
    );
    Ok(
        OpenPlan {
            settings: PlayerSettings {
                username,
                password,
                max_audio_quality,
                output_device_id: options.output_device_id,
                state_change_delay_ms: options.state_change_delay_ms,
                sample_rate_change_delay_ms: options.sample_rate_change_delay_ms,
                audio_cache,
            },
            lastfm,
            services,
        },
    )
}

/// A level that is given on the command line is the one that is logged at.
pub proof fn lemma_given_level_wins<Q>(cli: &Cli<Q>)
    requires
        cli.verbosity is Some,
    ensures
        log_level(cli) == cli.verbosity,
{
}

/// What is given on the command line overrides what is stored.
pub proof fn lemma_arguments_override<Q>(
    options: OpenOptions<Q>,
    stored: Credentials,
    stored_quality: Option<Q>,
    platform: Platform,
    plan: OpenPlan<Q>,
)
    requires
        planned(options, stored, stored_quality, platform, Ok(plan)),
    ensures
        options.username is Some ==> plan.settings.username == options.username->0,
        options.password is Some ==> plan.settings.password == options.password->0,
        options.max_audio_quality is Some ==> plan.settings.max_audio_quality
            == options.max_audio_quality->0,
        options.audio_cache is Some ==> plan.settings.audio_cache == AudioCache::Directory(
            options.audio_cache->0,
        ),
{
}

/// A key and a secret for Last.fm that are given override those that are
/// stored, but the session is always the stored one.
pub proof fn lemma_lastfm_keys_override(
    api_key: Option<String>,
    api_secret: Option<String>,
    stored: LastfmSession,
    client: LastFm,
)
    requires
        is_lastfm_client(api_key, api_secret, stored, Some(client)),
    ensures
        api_key is Some ==> client@.api_key == api_key->0@,
        api_secret is Some ==> client@.api_secret == api_secret->0@,
        client@.session_key is Some <==> stored.session_key is Some,
        stored.session_key is Some ==> client@.session_key->0 == stored.session_key->0@,
{
}

/// The place of a service in the order of starting.
pub open spec fn place(service: Service) -> int {
    match service {
        Service::Connect { .. } => 0,
        Service::Mpris => 1,
        Service::SleepInhibitor => 2,
        Service::Web { .. } => 3,
        Service::Gpio => 4,
        Service::Rfid { .. } => 5,
        Service::Tui { .. } => 6,
        Service::CacheCleanup { .. } => 7,
    }
}

/// Whether the places of the services ascend.
pub open spec fn in_place_order(services: Seq<Service>) -> bool {
    forall|i: int, j: int|
        0 <= i < j < services.len() ==> place(#[trigger] services[i]) < place(#[trigger] services[j])
}

/// Whether every service comes before the given place.
spec fn all_before(services: Seq<Service>, place_after: int) -> bool {
    forall|i: int| 0 <= i < services.len() ==> place(#[trigger] services[i]) < place_after
}

/// Whether some service in the list is of the given kind.
pub open spec fn has_service(services: Seq<Service>, kind: spec_fn(Service) -> bool) -> bool {
    exists|i: int| 0 <= i < services.len() && kind(#[trigger] services[i])
}

/// Whether a service of the given kind is among those that are started.
pub open spec fn starts<Q>(
    options: OpenOptions<Q>,
    platform: Platform,
    kind: spec_fn(Service) -> bool,
) -> bool {
    has_service(services_of(options, platform), kind)
}

/// What becomes of a list of services to which one more is appended, if the
/// condition holds.
proof fn lemma_append_service(
    services: Seq<Service>,
    condition: bool,
    service: Service,
    kind: spec_fn(Service) -> bool,
) -> (longer: Seq<Service>)
    requires
        in_place_order(services),
        all_before(services, place(service)),
    ensures
        longer == services + service_if(condition, service),
        in_place_order(longer),
        all_before(longer, place(service) + 1),
        has_service(longer, kind) <==> has_service(services, kind) || condition && kind(service),
{
    let longer = services + service_if(condition, service);
    if has_service(services, kind) {
        let i = choose|i: int| 0 <= i < services.len() && kind(#[trigger] services[i]);
        assert(longer[i] == services[i]);
    }
    if condition {
        assert(longer[services.len() as int] == service);
    }
    if has_service(longer, kind) {
        let i = choose|i: int| 0 <= i < longer.len() && kind(#[trigger] longer[i]);
        if i < services.len() {
            assert(longer[i] == services[i]);
        }
    }
    longer
}

/// Which services are started, one by one, and that they are in order.
proof fn lemma_services<Q>(
    options: OpenOptions<Q>,
    platform: Platform,
    kind: spec_fn(Service) -> bool,
)
    ensures
        in_place_order(services_of(options, platform)),
        starts(options, platform, kind) <==> {
            ||| options.connect && kind(Service::Connect { name: options.connect_name })
            ||| platform.mpris && !options.disable_mpris && kind(Service::Mpris)
            ||| platform.sleep_inhibitor && !options.disable_sleep_inhibitor && kind(
                Service::SleepInhibitor,
            )
            ||| options.web && kind(
                Service::Web { port: options.port, secret: options.web_secret, rfid: options.rfid },
            )
            ||| platform.gpio && options.gpio && kind(Service::Gpio)
            ||| options.rfid && kind(
                Service::Rfid {
                    base_address: options.rfid_server_base_address,
                    secret: options.rfid_server_secret,
                },
            )
            ||| !options.rfid && !options.disable_tui && kind(
                Service::Tui { disable_album_cover: options.disable_tui_album_cover },
            )
            ||| options.audio_cache_time_to_live != 0 && kind(
                Service::CacheCleanup { hours: options.audio_cache_time_to_live },
            )
        },
{
    let s0 = lemma_append_service(
        Seq::empty(),
        options.connect,
        Service::Connect { name: options.connect_name },
        kind,
    );
    let s1 = lemma_append_service(
        s0,
        platform.mpris && !options.disable_mpris,
        Service::Mpris,
        kind,
    );
    let s2 = lemma_append_service(
        s1,
        platform.sleep_inhibitor && !options.disable_sleep_inhibitor,
        Service::SleepInhibitor,
        kind,
    );
    let s3 = lemma_append_service(
        s2,
        options.web,
        Service::Web { port: options.port, secret: options.web_secret, rfid: options.rfid },
        kind,
    );
    let s4 = lemma_append_service(s3, platform.gpio && options.gpio, Service::Gpio, kind);
    let s5 = lemma_append_service(
        s4,
        options.rfid,
        Service::Rfid {
            base_address: options.rfid_server_base_address,
            secret: options.rfid_server_secret,
        },
        kind,
    );
    let s6 = lemma_append_service(
        s5,
        !options.rfid && !options.disable_tui,
        Service::Tui { disable_album_cover: options.disable_tui_album_cover },
        kind,
    );
    let s7 = lemma_append_service(
        s6,
        options.audio_cache_time_to_live != 0,
        Service::CacheCleanup { hours: options.audio_cache_time_to_live },
        kind,
    );
    assert(s0 == service_if(options.connect, Service::Connect { name: options.connect_name }));
    assert(s7 == services_of(options, platform));
}

/// Services always start in the same order, and none starts twice.
pub proof fn lemma_services_in_order<Q>(options: OpenOptions<Q>, platform: Platform)
    ensures
        in_place_order(services_of(options, platform)),
{
    lemma_services(options, platform, |s: Service| true);
}

/// The rfid interface takes the place of the TUI: the two never run together,
/// and one of them runs unless the TUI is disabled and rfid is not enabled.
/// The web server shares the rfid state if and only if there is one.
pub proof fn lemma_one_front_end<Q>(options: OpenOptions<Q>, platform: Platform)
    ensures
        starts(options, platform, |s: Service| s is Rfid) <==> options.rfid,
        starts(options, platform, |s: Service| s is Tui) <==> !options.rfid && !options.disable_tui,
        starts(options, platform, |s: Service| s matches Service::Web { rfid, .. } && rfid) <==> {
            &&& options.web
            &&& starts(options, platform, |s: Service| s is Rfid)
        },
{
    lemma_services(options, platform, |s: Service| s is Rfid);
    lemma_services(options, platform, |s: Service| s is Tui);
    lemma_services(options, platform, |s: Service| s matches Service::Web { rfid, .. } && rfid);
}

/// The audio cache is cleaned if and only if its files have a time to live.
pub proof fn lemma_zero_hours_disable_cleanup<Q>(options: OpenOptions<Q>, platform: Platform)
    ensures
        starts(options, platform, |s: Service| s is CacheCleanup)
            <==> options.audio_cache_time_to_live != 0,
{
    lemma_services(options, platform, |s: Service| s is CacheCleanup);
}

/// A player that is started without a command has the TUI, the hourly clean-up
/// of its cache and, where they were built in, mpris and the sleep inhibitor,
/// and nothing else.
pub proof fn lemma_default_start<Q>(options: OpenOptions<Q>, platform: Platform)
    requires
        options.is_default(),
    ensures
        services_of(options, platform) == service_if(platform.mpris, Service::Mpris) + service_if(
            platform.sleep_inhibitor,
            Service::SleepInhibitor,
        ) + seq![
            Service::Tui { disable_album_cover: false },
            Service::CacheCleanup { hours: DEFAULT_CACHE_HOURS },
        ],
{
    assert(services_of(options, platform) =~= service_if(platform.mpris, Service::Mpris)
        + service_if(platform.sleep_inhibitor, Service::SleepInhibitor) + seq![
        Service::Tui { disable_album_cover: false },
        Service::CacheCleanup { hours: DEFAULT_CACHE_HOURS },
    ]);
}

/// Where no level is given, nothing is logged, but for a player that serves
/// the web and has no other front end, which logs at [`LogLevel::Info`].
pub proof fn lemma_level_without_one_given<Q>(cli: &Cli<Q>)
    requires
        cli.verbosity is None,
    ensures
        log_level(cli) is None || log_level(cli) == Some(LogLevel::Info),
        log_level(cli) is Some <==> (cli.command matches Some(Commands::Open(options))
            && options.disable_tui && !options.rfid && options.web),
{
}

/// Each level has its own word in a filter, and so has the lack of one.
pub proof fn lemma_level_words(level: Option<LogLevel>)
    ensures
        level_text(level) == "trace"@ <==> level == Some(LogLevel::Trace),
        level_text(level) == "debug"@ <==> level == Some(LogLevel::Debug),
        level_text(level) == "info"@ <==> level == Some(LogLevel::Info),
        level_text(level) == "warn"@ <==> level == Some(LogLevel::Warn),
        level_text(level) == "error"@ <==> level == Some(LogLevel::Error),
        level_text(level) == "none"@ <==> level is None,
{
    reveal_strlit("trace");
    reveal_strlit("debug");
    reveal_strlit("info");
    reveal_strlit("warn");
    reveal_strlit("error");
    reveal_strlit("none");
    assert("trace"@[0] != "debug"@[0]);
    assert("trace"@[0] != "error"@[0]);
    assert("debug"@[0] != "error"@[0]);
    assert("info"@[0] != "warn"@[0]);
    assert("info"@[0] != "none"@[0]);
    assert("warn"@[0] != "none"@[0]);
}

/// A failure of the player is told in the player's own words, every other
/// failure that comes with words in those, and the rest in words that say what
/// is missing.
pub proof fn lemma_words_are_kept(failure: error::Error, words: String)
    ensures
        Error::of_player(failure) is PlayerError,
        Error::of_player(failure).text() == failure.text(),
        (Error::PlayerError { error: words }).text() == words@,
        (Error::TerminalError { error: words }).text() == words@,
        (Error::ConnectError { error: words }).text() == words@,
        Error::UsernameMissing.text() == "No username found. Set with config or arguments"@,
        Error::PasswordMissing.text() == "No password found. Set with config or arguments"@,
        Error::PasswordError.text() == "Error reading error prompt"@,
{
}

/// What the player is created with: what is given on the command line, and for
/// the account and the audio quality what is stored where nothing is given.
/// Without a given directory the audio cache is in the temporary one.
pub proof fn lemma_settings_follow_options<Q>(
    options: OpenOptions<Q>,
    stored: Credentials,
    stored_quality: Option<Q>,
    platform: Platform,
    plan: OpenPlan<Q>,
)
    requires
        planned(options, stored, stored_quality, platform, Ok(plan)),
    ensures
        Some(plan.settings.username) == (if options.username is Some {
            options.username
        } else {
            stored.username
        }),
        Some(plan.settings.password) == (if options.password is Some {
            options.password
        } else {
            stored.password
        }),
        Some(plan.settings.max_audio_quality) == (if options.max_audio_quality is Some {
            options.max_audio_quality
        } else {
            stored_quality
        }),
        plan.settings.output_device_id == options.output_device_id,
        plan.settings.state_change_delay_ms == options.state_change_delay_ms,
        plan.settings.sample_rate_change_delay_ms == options.sample_rate_change_delay_ms,
        options.audio_cache matches Some(directory) ==> plan.settings.audio_cache
            == AudioCache::Directory(directory),
        options.audio_cache is None ==> (plan.settings.audio_cache matches AudioCache::InTempDir(
            name,
        ) && name@ == "qobuz-player-cache"@),
{
}

/// Last.fm is used if and only if it is enabled, with whatever key and secret
/// the command line gives.
pub proof fn lemma_lastfm_keys_are_handed_on<Q>(
    options: OpenOptions<Q>,
    stored: Credentials,
    stored_quality: Option<Q>,
    platform: Platform,
    plan: OpenPlan<Q>,
)
    requires
        planned(options, stored, stored_quality, platform, Ok(plan)),
    ensures
        plan.lastfm is Some <==> options.lastfm,
        plan.lastfm matches Some(keys) ==> keys.api_key == options.lastfm_api_key
            && keys.api_secret == options.lastfm_api_secret,
{
}

/// From the command line to the access: where Last.fm is enabled, a key and a
/// secret that are given there are the ones that are used, whatever is stored.
/// Those that are not given are the stored ones; the session is the stored one.
/// There is no access if and only if a key or a secret is neither given nor
/// stored.
pub proof fn lemma_lastfm_access_follows_options<Q>(
    options: OpenOptions<Q>,
    stored: Credentials,
    stored_quality: Option<Q>,
    platform: Platform,
    plan: OpenPlan<Q>,
    session: LastfmSession,
    client: Option<LastFm>,
)
    requires
        planned(options, stored, stored_quality, platform, Ok(plan)),
        options.lastfm,
        is_lastfm_client(plan.lastfm->0.api_key, plan.lastfm->0.api_secret, session, client),
    ensures
        client is Some <==> {
            &&& options.lastfm_api_key is Some || session.api_key is Some
            &&& options.lastfm_api_secret is Some || session.api_secret is Some
        },
        client matches Some(lastfm) ==> {
            &&& lastfm@.api_key == (match options.lastfm_api_key {
                Some(key) => key@,
                None => session.api_key->0@,
            })
            &&& lastfm@.api_secret == (match options.lastfm_api_secret {
                Some(secret) => secret@,
                None => session.api_secret->0@,
            })
            &&& lastfm@.session_key == (match session.session_key {
                Some(key) => Some(key@),
                None => None,
            })
        },
{
}

/// What is logged of Last.fm tells whether scrobbling works, and what to do
/// where it does not.
pub proof fn lemma_notice_tells_the_state(
    client: Option<LastFm>,
    username: Option<String>,
    notice: Notice,
)
    requires
        is_lastfm_notice(client, username, notice),
    ensures
        notice.level == (if client is Some && client->0@.session_key is Some {
            LogLevel::Info
        } else {
            LogLevel::Warn
        }),
        client is None ==> notice.text@
            == "Last.fm enabled but API key/secret not configured. Run 'config lastfm-auth' first."@,
        client is Some && client->0@.session_key is None ==> notice.text@
            == "Last.fm enabled but not authenticated. Run 'config lastfm-auth' to authenticate."@,
        client is Some && client->0@.session_key is Some && username is Some ==> notice.text@
            == "Last.fm scrobbling enabled for user: "@ + username->0@,
        client is Some && client->0@.session_key is Some && username is None ==> notice.text@
            == "Last.fm scrobbling enabled for user: "@,
{
}

/// What is missing of the account is what the player does not start for, the
/// username before the password; nothing else keeps it from starting.
pub proof fn lemma_account_is_needed<Q>(
    options: OpenOptions<Q>,
    stored: Credentials,
    stored_quality: Option<Q>,
    platform: Platform,
    result: Result<OpenPlan<Q>, Error>,
)
    requires
        planned(options, stored, stored_quality, platform, result),
    ensures
        result == Err::<OpenPlan<Q>, Error>(Error::UsernameMissing) <==> options.username is None
            && stored.username is None,
        result == Err::<OpenPlan<Q>, Error>(Error::PasswordMissing) <==> (options.username is Some
            || stored.username is Some) && options.password is None && stored.password is None,
        result is Ok <==> (options.username is Some || stored.username is Some) && (
        options.password is Some || stored.password is Some),
{
}

/// An audio quality is known unless it is needed and neither given nor stored.
pub proof fn lemma_quality_known<Q>(
    options: OpenOptions<Q>,
    stored: Credentials,
    stored_quality: Option<Q>,
)
    ensures
        !quality_known(options, stored, stored_quality) <==> {
            &&& options.max_audio_quality is None && stored_quality is None
            &&& options.username is Some || stored.username is Some
            &&& options.password is Some || stored.password is Some
        },
{
}

/// Which services are started: each that is asked for and was built in, in the
/// way that it is asked for, and no other. The rfid interface takes the place
/// of the TUI.
pub proof fn lemma_services_asked_for<Q>(
    options: OpenOptions<Q>,
    platform: Platform,
    service: Service,
)
    ensures
        services_of(options, platform).contains(service) <==> match service {
            Service::Connect { name } => options.connect && name == options.connect_name,
            Service::Mpris => platform.mpris && !options.disable_mpris,
            Service::SleepInhibitor => platform.sleep_inhibitor && !options.disable_sleep_inhibitor,
            Service::Web { port, secret, rfid } => options.web && port == options.port && secret
                == options.web_secret && rfid == options.rfid,
            Service::Gpio => platform.gpio && options.gpio,
            Service::Rfid { base_address, secret } => options.rfid && base_address
                == options.rfid_server_base_address && secret == options.rfid_server_secret,
            Service::Tui { disable_album_cover } => !options.rfid && !options.disable_tui
                && disable_album_cover == options.disable_tui_album_cover,
            Service::CacheCleanup { hours } => hours > 0 && hours
                == options.audio_cache_time_to_live,
        },
{
    let kind = |s: Service| s == service;
    lemma_services(options, platform, kind);
    let services = services_of(options, platform);
    if starts(options, platform, kind) {
        let i = choose|i: int| 0 <= i < services.len() && kind(#[trigger] services[i]);
        assert(services[i] == service);
    }
    if services.contains(service) {
        let i = choose|i: int| 0 <= i < services.len() && services[i] == service;
        assert(kind(services[i]));
    }
}

/// What is started before what: qobuz connect, mpris, the sleep inhibitor, the
/// web server, gpio, then the front end, and the clean-up of the cache last.
/// Nothing is started twice.
pub proof fn lemma_order_of_starting<Q>(
    options: OpenOptions<Q>,
    platform: Platform,
    i: int,
    j: int,
)
    requires
        0 <= i < j < services_of(options, platform).len(),
    ensures
        ({
            let earlier = services_of(options, platform)[i];
            match services_of(options, platform)[j] {
                Service::Connect { .. } => false,
                Service::Mpris => earlier is Connect,
                Service::SleepInhibitor => earlier is Connect || earlier is Mpris,
                Service::Web { .. } => earlier is Connect || earlier is Mpris || earlier
                    is SleepInhibitor,
                Service::Gpio => earlier is Connect || earlier is Mpris || earlier is SleepInhibitor
                    || earlier is Web,
                Service::Rfid { .. } => !(earlier is Rfid || earlier is Tui || earlier
                    is CacheCleanup),
                Service::Tui { .. } => !(earlier is Rfid || earlier is Tui || earlier
                    is CacheCleanup),
                Service::CacheCleanup { .. } => !(earlier is CacheCleanup),
            }
        }),
{
    let services = services_of(options, platform);
    lemma_services(options, platform, |s: Service| true);
    assert(place(services[i]) < place(services[j]));
    assert(services.contains(services[i]));
    lemma_services_asked_for(options, platform, services[i]);
    assert(services.contains(services[j]));
    lemma_services_asked_for(options, platform, services[j]);
}

/// What a player that is started without options does: it uses the account and
/// the audio quality that are stored and nothing of Last.fm, caches in the
/// temporary directory for an hour, and serves neither the web nor qobuz
/// connect; if it did, it would be at port 9888 and under the name
/// `qobuz-player`.
pub proof fn lemma_defaults<Q>(
    options: OpenOptions<Q>,
    stored: Credentials,
    stored_quality: Option<Q>,
    platform: Platform,
    plan: OpenPlan<Q>,
    service: Service,
)
    requires
        options.is_default(),
        planned(options, stored, stored_quality, platform, Ok(plan)),
    ensures
        stored.username == Some(plan.settings.username),
        stored.password == Some(plan.settings.password),
        stored_quality == Some(plan.settings.max_audio_quality),
        plan.settings.output_device_id is None,
        plan.settings.state_change_delay_ms is None,
        plan.settings.sample_rate_change_delay_ms is None,
        plan.settings.audio_cache is InTempDir,
        plan.lastfm is None,
        plan.services@.contains(service) <==> match service {
            Service::Mpris => platform.mpris,
            Service::SleepInhibitor => platform.sleep_inhibitor,
            Service::Tui { disable_album_cover } => !disable_album_cover,
            Service::CacheCleanup { hours } => hours == 1,
            _ => false,
        },
        options.port == 9888,
        options.connect_name@ == "qobuz-player"@,
        options.web_secret is None,
        options.rfid_server_base_address is None,
        options.rfid_server_secret is None,
        options.lastfm_api_key is None,
        options.lastfm_api_secret is None,
{
    lemma_services_asked_for(options, platform, service);
}

} // verus!
