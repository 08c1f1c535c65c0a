//! The `open` command, step by step: from the command line to a player that
//! plays, with everything that runs beside it.
//!
//! [`OpenState::begin`] and [`OpenState::advance`] say what to do next;
//! whoever does it reports back what came of it as an [`OpenEvent`].
//!
//! `Q` is the type of audio qualities and `T` that of tracklists; both are only
//! handed on.

use crate::cli;
use crate::cli::{
    Credentials, Error, LastfmKeys, LastfmSession, Notice, OpenOptions, Platform, PlayerSettings,
    Service,
};
use crate::lastfm::LastFm;
use crate::AppResult;
use vstd::pervasive::unreached;
use vstd::prelude::*;

verus! {

/// What is to be done next.
pub enum OpenAction<Q, T> {
    /// Read the stored account and configuration.
    LoadStored,
    /// Read what is stored of Last.fm.
    LoadLastfmSession,
    /// Create the player.
    CreatePlayer {
        settings: PlayerSettings<Q>,
        tracklist: T,
        lastfm: Option<LastFm>,
        /// What to log of Last.fm, where it is enabled.
        notice: Option<Notice>,
    },
    /// Start something that runs beside the player.
    StartService { service: Service },
    /// Play until the end.
    Play,
    /// Nothing: this is what came of the command.
    Stop { result: Result<(), Error> },
}

/// What is stored of the account, the configuration and the last tracklist.
/// `max_audio_quality` is `None` where what is stored is no audio quality, and
/// `tracklist` where there is none or it cannot be read.
pub struct Stored<Q, T> {
    pub credentials: Credentials,
    pub max_audio_quality: Option<Q>,
    pub tracklist: Option<T>,
}

/// Whether `tracklist` is the stored one or, where there is none, the empty
/// one that `T` has by default.
pub open spec fn is_initial_tracklist<T: Default>(stored: Option<T>, tracklist: T) -> bool {
    match stored {
        Some(list) => tracklist == list,
        None => T::default.ensures((), tracklist),
    }
}

/// The tracklist that the player begins with.
pub fn initial_tracklist<T: Default>(stored: Option<T>) -> (tracklist: T)
    ensures
        is_initial_tracklist(stored, tracklist),
{
    match stored {
        Some(list) => list,
        None => T::default(),
    }
}

/// What came of an [`OpenAction`].
pub enum OpenEvent<Q, T> {
    StoredLoaded { result: AppResult<Stored<Q, T>> },
    LastfmSessionLoaded { result: AppResult<LastfmSession> },
    PlayerCreated { result: AppResult<()> },
    ServiceStarted { result: AppResult<()> },
    PlayerEnded { result: AppResult<()> },
}

/// What is waited for. `services` are those that have not been started yet.
pub enum OpenState<Q, T> {
    LoadingStored { options: OpenOptions<Q>, platform: Platform },
    LoadingLastfmSession {
        settings: PlayerSettings<Q>,
        tracklist: T,
        keys: LastfmKeys,
        services: Vec<Service>,
    },
    CreatingPlayer { services: Vec<Service> },
    StartingService { services: Vec<Service> },
    Playing,
    Finished,
}

/// One step of the command.
pub struct OpenStep<Q, T> {
    pub state: OpenState<Q, T>,
    pub action: OpenAction<Q, T>,
}

/// Whether the command is over, with this result.
pub open spec fn stops<Q, T>(step: OpenStep<Q, T>, result: Result<(), Error>) -> bool {
    &&& step.state is Finished
    &&& step.action == OpenAction::<Q, T>::Stop { result }
}

/// Whether the player is created next, to then start `services`.
pub open spec fn creates<Q, T>(
    step: OpenStep<Q, T>,
    settings: PlayerSettings<Q>,
    services: Seq<Service>,
) -> bool {
    &&& step.state matches OpenState::CreatingPlayer { services: left }
    &&& left@ == services
    &&& step.action matches OpenAction::CreatePlayer { settings: used, .. }
    &&& used == settings
}

/// Whether the first of `services` is started next or, where there is none,
/// the player plays.
pub open spec fn goes_on<Q, T>(step: OpenStep<Q, T>, services: Seq<Service>) -> bool {
    if services.len() == 0 {
        step.state is Playing && step.action is Play
    } else {
        &&& step.state matches OpenState::StartingService { services: left }
        &&& left@ == services.drop_first()
        &&& step.action == OpenAction::<Q, T>::StartService { service: services[0] }
    }
}

/// Whether `step` follows from the plan and the stored tracklist: what is
/// stored of Last.fm is read only where Last.fm is enabled.
pub open spec fn follows_plan<Q, T: Default>(
    step: OpenStep<Q, T>,
    plan: cli::OpenPlan<Q>,
    stored: Option<T>,
) -> bool {
    match plan.lastfm {
        Some(keys) => {
            &&& step.state matches OpenState::LoadingLastfmSession {
                settings,
                tracklist,
                keys: given,
                services,
            }
            &&& settings == plan.settings
            &&& is_initial_tracklist(stored, tracklist)
            &&& given == keys
            &&& services == plan.services
            &&& step.action is LoadLastfmSession
        },
        None => {
            &&& creates(step, plan.settings, plan.services@)
            &&& is_initial_tracklist(stored, step.action->tracklist)
            &&& step.action->lastfm is None
            &&& step.action->notice is None
        },
    }
}

/// The step that follows when `event` comes while the command is in `state`.
pub open spec fn advances<Q, T: Default>(state: OpenState<Q, T>, event: OpenEvent<Q, T>, step: OpenStep<Q, T>) -> bool {
    match (state, event) {
        (
            OpenState::LoadingStored { options, platform },
            OpenEvent::StoredLoaded { result: Ok(stored) },
        ) => exists|planned: Result<cli::OpenPlan<Q>, Error>|
            {
                &&& #[trigger] cli::planned(
                    options,
                    stored.credentials,
                    stored.max_audio_quality,
                    platform,
                    planned,
                )
                &&& match planned {
                    Ok(plan) => follows_plan(step, plan, stored.tracklist),
                    Err(error) => stops(step, Err(error)),
                }
            },
        (OpenState::LoadingStored { .. }, OpenEvent::StoredLoaded { result: Err(error) }) => {
            stops(step, Err(Error::of_player(error)))
        },
        (
            OpenState::LoadingLastfmSession { settings, tracklist, keys, services },
            OpenEvent::LastfmSessionLoaded { result: Ok(session) },
        ) => {
            &&& creates(step, settings, services@)
            &&& step.action->tracklist == tracklist
            &&& cli::is_lastfm_client(keys.api_key, keys.api_secret, session, step.action->lastfm)
            &&& step.action->notice is Some
            &&& cli::is_lastfm_notice(
                step.action->lastfm,
                session.username,
                step.action->notice->0,
            )
        },
        (
            OpenState::LoadingLastfmSession { .. },
            OpenEvent::LastfmSessionLoaded { result: Err(error) },
        ) => stops(step, Err(Error::of_player(error))),
        (
            OpenState::CreatingPlayer { services },
            OpenEvent::PlayerCreated { result: Ok(_) },
        ) => goes_on(step, services@),
        (OpenState::CreatingPlayer { .. }, OpenEvent::PlayerCreated { result: Err(error) }) => {
            stops(step, Err(Error::of_player(error)))
        },
        (
            OpenState::StartingService { services },
            OpenEvent::ServiceStarted { result: Ok(_) },
        ) => goes_on(step, services@),
        (OpenState::StartingService { .. }, OpenEvent::ServiceStarted { result: Err(error) }) => {
            stops(step, Err(Error::of_player(error)))
        },
        (OpenState::Playing, OpenEvent::PlayerEnded { result: Ok(_) }) => stops(step, Ok(())),
        (OpenState::Playing, OpenEvent::PlayerEnded { result: Err(error) }) => {
            stops(step, Err(Error::of_player(error)))
        },
        _ => false,
    }
}

impl<Q, T> OpenStep<Q, T> {
    /// The end of the command with an error.
    fn failing(error: Error) -> (step: OpenStep<Q, T>)
        ensures
            stops(step, Err(error)),
    {
        OpenStep { state: OpenState::Finished, action: OpenAction::Stop { result: Err(error) } }
    }

    /// Starts the first of `services` or, where there is none, plays.
    fn going_on(services: Vec<Service>) -> (step: OpenStep<Q, T>)
        ensures
            goes_on(step, services@),
    {
        let mut left = services;
        if left.len() == 0 {
            OpenStep { state: OpenState::Playing, action: OpenAction::Play }
        } else {
            let service = left.remove(0);
            assert(left@ == services@.drop_first());
            OpenStep {
                state: OpenState::StartingService { services: left },
                action: OpenAction::StartService { service },
            }
        }
    }
}

impl<Q, T: Default> OpenState<Q, T> {
    /// The first step of the command.
    pub fn begin(options: OpenOptions<Q>, platform: Platform) -> (step: OpenStep<Q, T>)
        ensures
            step.state == (OpenState::<Q, T>::LoadingStored { options, platform }),
            step.action is LoadStored,
    {
        OpenStep {
            state: OpenState::LoadingStored { options, platform },
            action: OpenAction::LoadStored,
        }
    }

    /// Whether the command waits for `event`. A stored audio quality is part
    /// of what is waited for, if it is needed.
    pub open spec fn awaits(self, event: OpenEvent<Q, T>) -> bool {
        match (self, event) {
            (OpenState::LoadingStored { options, .. }, OpenEvent::StoredLoaded { result }) => {
                result matches Ok(stored) ==> cli::quality_known(
                    options,
                    stored.credentials,
                    stored.max_audio_quality,
                )
            },
            (OpenState::LoadingLastfmSession { .. }, OpenEvent::LastfmSessionLoaded { .. }) => true,
            (OpenState::CreatingPlayer { .. }, OpenEvent::PlayerCreated { .. }) => true,
            (OpenState::StartingService { .. }, OpenEvent::ServiceStarted { .. }) => true,
            (OpenState::Playing, OpenEvent::PlayerEnded { .. }) => true,
            _ => false,
        }
    }

    /// Whether the command waits for `event`.
    pub fn expects(&self, event: &OpenEvent<Q, T>) -> (yes: bool)
        ensures
            yes == self.awaits(*event),
    {
        match (self, event) {
            (
                OpenState::LoadingStored { options, .. },
                OpenEvent::StoredLoaded { result: Ok(stored) },
            ) => {
                options.max_audio_quality.is_some() || stored.max_audio_quality.is_some() || (
                options.username.is_none() && stored.credentials.username.is_none()) || (
                options.password.is_none() && stored.credentials.password.is_none())
            },
            (OpenState::LoadingStored { .. }, OpenEvent::StoredLoaded { .. }) => true,
            (OpenState::LoadingLastfmSession { .. }, OpenEvent::LastfmSessionLoaded { .. }) => true,
            (OpenState::CreatingPlayer { .. }, OpenEvent::PlayerCreated { .. }) => true,
            (OpenState::StartingService { .. }, OpenEvent::ServiceStarted { .. }) => true,
            (OpenState::Playing, OpenEvent::PlayerEnded { .. }) => true,
            _ => false,
        }
    }

    /// The step that follows when `event` comes.
    pub fn advance(self, event: OpenEvent<Q, T>) -> (step: OpenStep<Q, T>)
        requires
            self.awaits(event),
        ensures
            advances(self, event, step),
    {
        match (self, event) {
            (
                OpenState::LoadingStored { options, platform },
                OpenEvent::StoredLoaded { result: Ok(stored) },
            ) => {
                let planned = cli::plan_open(
                    options,
                    stored.credentials,
                    stored.max_audio_quality,
                    platform,
                );
                let tracklist = initial_tracklist(stored.tracklist);
                match planned {
                    Ok(plan) => match plan.lastfm {
                        Some(keys) => OpenStep {
                            state: OpenState::LoadingLastfmSession {
                                settings: plan.settings,
                                tracklist,
                                keys,
                                services: plan.services,
                            },
                            action: OpenAction::LoadLastfmSession,
                        },
                        None => OpenStep {
                            state: OpenState::CreatingPlayer { services: plan.services },
                            action: OpenAction::CreatePlayer {
                                settings: plan.settings,
                                tracklist,
                                lastfm: None,
                                notice: None,
                            },
                        },
                    },
                    Err(error) => OpenStep::failing(error),
                }
            },
            (OpenState::LoadingStored { .. }, OpenEvent::StoredLoaded { result: Err(error) }) => {
                OpenStep::failing(Error::from(error))
            },
            (
                OpenState::LoadingLastfmSession { settings, tracklist, keys, services },
                OpenEvent::LastfmSessionLoaded { result: Ok(session) },
            ) => {
                let username = match &session.username {
                    Some(name) => Some(name.clone()),
                    None => None,
                };
                let lastfm = cli::lastfm_client(keys.api_key, keys.api_secret, session);
                let notice = Some(cli::lastfm_notice(&lastfm, username));
                OpenStep {
                    state: OpenState::CreatingPlayer { services },
                    action: OpenAction::CreatePlayer { settings, tracklist, lastfm, notice },
                }
            },
            (
                OpenState::LoadingLastfmSession { .. },
                OpenEvent::LastfmSessionLoaded { result: Err(error) },
            ) => OpenStep::failing(Error::from(error)),
            (
                OpenState::CreatingPlayer { services },
                OpenEvent::PlayerCreated { result: Ok(_) },
            ) => OpenStep::going_on(services),
            (OpenState::CreatingPlayer { .. }, OpenEvent::PlayerCreated { result: Err(error) }) => {
                OpenStep::failing(Error::from(error))
            },
            (
                OpenState::StartingService { services },
                OpenEvent::ServiceStarted { result: Ok(_) },
            ) => OpenStep::going_on(services),
            (
                OpenState::StartingService { .. },
                OpenEvent::ServiceStarted { result: Err(error) },
            ) => OpenStep::failing(Error::from(error)),
            (OpenState::Playing, OpenEvent::PlayerEnded { result: Ok(_) }) => OpenStep {
                state: OpenState::Finished,
                action: OpenAction::Stop { result: Ok(()) },
            },
            (OpenState::Playing, OpenEvent::PlayerEnded { result: Err(error) }) => {
                OpenStep::failing(Error::from(error))
            },
            _ => unreached(),
        }
    }
}

/// The services that have not been started yet.
pub open spec fn services_left<Q, T>(state: OpenState<Q, T>) -> Seq<Service> {
    match state {
        OpenState::LoadingLastfmSession { services, .. } => services@,
        OpenState::CreatingPlayer { services } => services@,
        OpenState::StartingService { services } => services@,
        _ => Seq::empty(),
    }
}

/// Whether the event reports that something was done.
pub open spec fn is_success<Q, T>(event: OpenEvent<Q, T>) -> bool {
    match event {
        OpenEvent::StoredLoaded { result } => result is Ok,
        OpenEvent::LastfmSessionLoaded { result } => result is Ok,
        OpenEvent::PlayerCreated { result } => result is Ok,
        OpenEvent::ServiceStarted { result } => result is Ok,
        OpenEvent::PlayerEnded { result } => result is Ok,
    }
}

/// The error that the event reports, if it reports one.
pub open spec fn failure<Q, T>(event: OpenEvent<Q, T>) -> Option<crate::error::Error> {
    match event {
        OpenEvent::StoredLoaded { result: Err(error) } => Some(error),
        OpenEvent::LastfmSessionLoaded { result: Err(error) } => Some(error),
        OpenEvent::PlayerCreated { result: Err(error) } => Some(error),
        OpenEvent::ServiceStarted { result: Err(error) } => Some(error),
        OpenEvent::PlayerEnded { result: Err(error) } => Some(error),
        _ => None,
    }
}

/// Whether each of `steps` follows from the one before it and the event
/// between them, and every event reports success.
pub open spec fn is_smooth_run<Q, T: Default>(steps: Seq<OpenStep<Q, T>>, events: Seq<OpenEvent<Q, T>>) -> bool {
    &&& steps.len() == events.len() + 1
    &&& forall|i: int|
        #![trigger events[i]]
        0 <= i < events.len() ==> is_success(events[i]) && advances(
            steps[i].state,
            events[i],
            steps[i + 1],
        )
}

/// No player is created, and nothing of Last.fm is read, without a username
/// and a password. Nothing else that is stored keeps the player from starting:
/// a tracklist that is not there is replaced by the empty one.
pub proof fn lemma_no_player_without_account<Q, T: Default>(
    options: OpenOptions<Q>,
    platform: Platform,
    stored: Stored<Q, T>,
    step: OpenStep<Q, T>,
)
    requires
        advances(
            OpenState::LoadingStored { options, platform },
            OpenEvent::StoredLoaded { result: Ok(stored) },
            step,
        ),
    ensures
        step.action is Stop <==> cli::given_or_stored(
            options.username,
            stored.credentials.username,
        ) is None || cli::given_or_stored(
            options.password,
            stored.credentials.password,
        ) is None,
        step.action is LoadLastfmSession ==> options.lastfm,
        step.action is CreatePlayer ==> !options.lastfm && step.action->lastfm is None
            && is_initial_tracklist(stored.tracklist, step.action->tracklist),
        !(step.action is Stop) ==> services_left(step.state) == cli::services_of(options, platform),
{
}

/// Once the player has been created, each service is started once, in the
/// order of the plan, and only then the player plays.
pub proof fn lemma_services_start_in_turn<Q, T: Default>(
    steps: Seq<OpenStep<Q, T>>,
    events: Seq<OpenEvent<Q, T>>,
    i: int,
)
    requires
        is_smooth_run(steps, events),
        steps[0].state is CreatingPlayer,
        1 <= i < steps.len(),
        i <= services_left(steps[0].state).len() + 1,
    ensures
        i <= services_left(steps[0].state).len() ==> {
            &&& steps[i].state is StartingService
            &&& steps[i].action == (OpenAction::<Q, T>::StartService {
                service: services_left(steps[0].state)[i - 1],
            })
            &&& services_left(steps[i].state) == services_left(steps[0].state).skip(i)
        },
        i == services_left(steps[0].state).len() + 1 ==> steps[i].action is Play,
    decreases i,
{
    let services = services_left(steps[0].state);
    if i == 1 {
        assert(is_success(events[0]));
        if services.len() > 0 {
            assert(services.drop_first() == services.skip(1));
        }
    } else {
        lemma_services_start_in_turn(steps, events, i - 1);
        assert(is_success(events[i - 1]));
        let left = services.skip(i - 1);
        if left.len() > 0 {
            assert(left.drop_first() == services.skip(i));
            assert(left[0] == services[i - 1]);
        }
    }
}

/// An error that a step meets with is what the command ends with, word for word.
pub proof fn lemma_failure_stops<Q, T: Default>(state: OpenState<Q, T>, event: OpenEvent<Q, T>, step: OpenStep<Q, T>)
    requires
        advances(state, event, step),
        failure(event) is Some,
    ensures
        step.state is Finished,
        step.action matches OpenAction::Stop { result: Err(reported) } && reported is PlayerError
            && reported.text() == failure(event)->0.text(),
{
}

/// How far the command has yet to go.
pub open spec fn steps_left<Q, T>(state: OpenState<Q, T>) -> nat {
    match state {
        OpenState::LoadingStored { options, platform } => cli::services_of(options, platform).len()
            + 4,
        OpenState::LoadingLastfmSession { services, .. } => services@.len() + 3,
        OpenState::CreatingPlayer { services } => services@.len() + 2,
        OpenState::StartingService { services } => services@.len() + 2,
        OpenState::Playing => 1,
        OpenState::Finished => 0,
    }
}

/// Every start comes to an end, and nothing is waited for after it.
pub proof fn lemma_open_ends<Q, T: Default>(state: OpenState<Q, T>, event: OpenEvent<Q, T>, step: OpenStep<Q, T>)
    requires
        advances(state, event, step),
    ensures
        steps_left(step.state) < steps_left(state),
        step.state is Finished <==> step.action is Stop,
        forall|later: OpenEvent<Q, T>| step.state is Finished ==> !(#[trigger] step.state.awaits(
            later,
        )),
{
}

/// What is stored of Last.fm has a say in the access to Last.fm alone: the
/// player that is then created has the settings and the tracklist that were
/// worked out before, and every service is still to be started.
pub proof fn lemma_lastfm_changes_nothing_else<Q, T: Default>(
    settings: PlayerSettings<Q>,
    tracklist: T,
    keys: LastfmKeys,
    services: Vec<Service>,
    session: LastfmSession,
    step: OpenStep<Q, T>,
)
    requires
        advances(
            OpenState::LoadingLastfmSession { settings, tracklist, keys, services },
            OpenEvent::LastfmSessionLoaded { result: Ok(session) },
            step,
        ),
    ensures
        step.state matches OpenState::CreatingPlayer { services: left } && left@ == services@,
        services_left(step.state) == services@,
        step.action matches OpenAction::CreatePlayer { settings: used, tracklist: begun, .. } && used
            == settings && begun == tracklist,
{
}

/// The player that a start leads to. Its account, its audio quality and its
/// settings are those of the command line or else the stored ones, and its
/// tracklist is the stored one. It has access to Last.fm only where that is
/// enabled: with the key and the secret of the command line whatever is stored,
/// or else the stored ones, and in the stored session.
pub proof fn lemma_player_follows_options<Q, T: Default>(
    options: OpenOptions<Q>,
    platform: Platform,
    stored: Stored<Q, T>,
    session: LastfmSession,
    steps: Seq<OpenStep<Q, T>>,
    events: Seq<OpenEvent<Q, T>>,
)
    requires
        is_smooth_run(steps, events),
        steps[0].state == (OpenState::<Q, T>::LoadingStored { options, platform }),
        options.username is Some || stored.credentials.username is Some,
        options.password is Some || stored.credentials.password is Some,
        events.len() >= 1 && (options.lastfm ==> events.len() >= 2),
        events[0] == (OpenEvent::<Q, T>::StoredLoaded { result: Ok(stored) }),
        options.lastfm ==> events[1] == (OpenEvent::<Q, T>::LastfmSessionLoaded {
            result: Ok(session),
        }),
    ensures
        options.lastfm ==> steps[1].action is LoadLastfmSession,
        steps[if options.lastfm {
            2
        } else {
            1
        }].action matches OpenAction::CreatePlayer { settings, tracklist, lastfm, notice } && {
            &&& Some(settings.username) == (if options.username is Some {
                options.username
            } else {
                stored.credentials.username
            })
            &&& Some(settings.password) == (if options.password is Some {
                options.password
            } else {
                stored.credentials.password
            })
            &&& Some(settings.max_audio_quality) == (if options.max_audio_quality is Some {
                options.max_audio_quality
            } else {
                stored.max_audio_quality
            })
            &&& settings.output_device_id == options.output_device_id
            &&& settings.state_change_delay_ms == options.state_change_delay_ms
            &&& settings.sample_rate_change_delay_ms == options.sample_rate_change_delay_ms
            &&& options.audio_cache matches Some(directory) ==> settings.audio_cache
                == cli::AudioCache::Directory(directory)
            &&& options.audio_cache is None ==> (
            settings.audio_cache matches cli::AudioCache::InTempDir(name) && name@
                == "qobuz-player-cache"@)
            &&& stored.tracklist matches Some(list) ==> tracklist == list
            &&& stored.tracklist is None ==> T::default.ensures((), tracklist)
            &&& lastfm is Some <==> {
                &&& options.lastfm
                &&& options.lastfm_api_key is Some || session.api_key is Some
                &&& options.lastfm_api_secret is Some || session.api_secret is Some
            }
            &&& lastfm matches Some(access) ==> {
                &&& access@.api_key == (match options.lastfm_api_key {
                    Some(key) => key@,
                    None => session.api_key->0@,
                })
                &&& access@.api_secret == (match options.lastfm_api_secret {
                    Some(secret) => secret@,
                    None => session.api_secret->0@,
                })
                &&& access@.session_key == (match session.session_key {
                    Some(key) => Some(key@),
                    None => None,
                })
            }
            &&& notice is Some <==> options.lastfm
            &&& notice matches Some(told) ==> (told.level == cli::LogLevel::Info <==> lastfm is Some
                && session.session_key is Some)
        },
{
    assert(is_success(events[0]));
    if options.lastfm {
        assert(is_success(events[1]));
    }
}

/// A start that nothing goes wrong with, from the command line to the end: once
/// the player has been created, the services that the options ask for are
/// started, all of them and in their order, then the player plays, and when it
/// has played to the end the command ends well. All this is so with Last.fm and
/// without.
pub proof fn lemma_every_service_starts<Q, T: Default>(
    options: OpenOptions<Q>,
    platform: Platform,
    stored: Stored<Q, T>,
    steps: Seq<OpenStep<Q, T>>,
    events: Seq<OpenEvent<Q, T>>,
    i: int,
)
    requires
        is_smooth_run(steps, events),
        steps[0].state == (OpenState::<Q, T>::LoadingStored { options, platform }),
        options.username is Some || stored.credentials.username is Some,
        options.password is Some || stored.credentials.password is Some,
        events.len() >= 1,
        events[0] == (OpenEvent::<Q, T>::StoredLoaded { result: Ok(stored) }),
        1 <= i < steps.len(),
    ensures
        ({
            let services = cli::services_of(options, platform);
            let created: int = if options.lastfm {
                2
            } else {
                1
            };
            &&& i < created ==> steps[i].action is LoadLastfmSession
            &&& i == created ==> steps[i].action is CreatePlayer
            &&& created < i <= created + services.len() ==> steps[i].action == (OpenAction::<
                Q,
                T,
            >::StartService { service: services[i - created - 1] })
            &&& i == created + services.len() + 1 ==> steps[i].action is Play
            &&& i == created + services.len() + 2 ==> steps[i].action == (OpenAction::<Q, T>::Stop {
                result: Ok(()),
            })
            &&& i <= created + services.len() + 2
        }),
{
    lemma_first_steps(options, platform, stored, steps, events);
    let created: int = if options.lastfm {
        2
    } else {
        1
    };
    if i > created {
        let rest = steps.skip(created);
        let reports = events.skip(created);
        lemma_rest_of_a_run(steps, events, created);
        lemma_from_creation_to_the_end(rest, reports, i - created);
    }
}

/// A start that nothing goes wrong with comes to the creation of the player,
/// with every service still to be started.
proof fn lemma_first_steps<Q, T: Default>(
    options: OpenOptions<Q>,
    platform: Platform,
    stored: Stored<Q, T>,
    steps: Seq<OpenStep<Q, T>>,
    events: Seq<OpenEvent<Q, T>>,
)
    requires
        is_smooth_run(steps, events),
        steps[0].state == (OpenState::<Q, T>::LoadingStored { options, platform }),
        options.username is Some || stored.credentials.username is Some,
        options.password is Some || stored.credentials.password is Some,
        events.len() >= 1,
        events[0] == (OpenEvent::<Q, T>::StoredLoaded { result: Ok(stored) }),
    ensures
        options.lastfm ==> steps[1].action is LoadLastfmSession,
        !options.lastfm ==> {
            &&& steps[1].action is CreatePlayer
            &&& steps[1].state is CreatingPlayer
            &&& services_left(steps[1].state) == cli::services_of(options, platform)
        },
        options.lastfm && events.len() >= 2 ==> {
            &&& steps[2].action is CreatePlayer
            &&& steps[2].state is CreatingPlayer
            &&& services_left(steps[2].state) == cli::services_of(options, platform)
        },
{
    assert(is_success(events[0]));
    lemma_no_player_without_account(options, platform, stored, steps[1]);
    if options.lastfm && events.len() >= 2 {
        assert(is_success(events[1]));
    }
}

/// What follows on any step of a run is a run.
proof fn lemma_rest_of_a_run<Q, T: Default>(
    steps: Seq<OpenStep<Q, T>>,
    events: Seq<OpenEvent<Q, T>>,
    from: int,
)
    requires
        is_smooth_run(steps, events),
        0 <= from <= events.len(),
    ensures
        is_smooth_run(steps.skip(from), events.skip(from)),
{
    let rest = steps.skip(from);
    let reports = events.skip(from);
    assert forall|k: int|
        #![trigger reports[k]]
        0 <= k < reports.len() implies is_success(reports[k]) && advances(
        rest[k].state,
        reports[k],
        rest[k + 1],
    ) by {
        assert(reports[k] == events[from + k]);
        assert(is_success(events[from + k]));
    }
}

/// Once the player has been created, each service is started in its turn, then
/// the player plays, and then the command ends well.
proof fn lemma_from_creation_to_the_end<Q, T: Default>(
    steps: Seq<OpenStep<Q, T>>,
    events: Seq<OpenEvent<Q, T>>,
    i: int,
)
    requires
        is_smooth_run(steps, events),
        steps[0].state is CreatingPlayer,
        1 <= i < steps.len(),
    ensures
        ({
            let services = services_left(steps[0].state);
            &&& i <= services.len() ==> steps[i].action == (OpenAction::<Q, T>::StartService {
                service: services[i - 1],
            })
            &&& i == services.len() + 1 ==> steps[i].action is Play
            &&& i == services.len() + 2 ==> steps[i].action == (OpenAction::<Q, T>::Stop {
                result: Ok(()),
            })
            &&& i <= services.len() + 2
        }),
{
    let n = services_left(steps[0].state).len() as int;
    if i <= n + 1 {
        lemma_services_start_in_turn(steps, events, i);
    } else {
        lemma_services_start_in_turn(steps, events, n + 1);
        if n > 0 {
            lemma_services_start_in_turn(steps, events, n);
        }
        assert(is_success(events[n]));
        assert(steps[n + 1].state is Playing);
        assert(is_success(events[n + 1]));
        assert(steps[n + 2].state is Finished);
        if i > n + 2 {
            assert(is_success(events[n + 2]));
        }
    }
}

/// An error that comes of anything that is done for a start is the end of it:
/// the command reports that error in its own words, and nothing more is done.
pub proof fn lemma_any_failure_ends_the_start<Q, T: Default>(
    state: OpenState<Q, T>,
    event: OpenEvent<Q, T>,
    step: OpenStep<Q, T>,
    error: crate::error::Error,
)
    requires
        advances(state, event, step),
        event == (OpenEvent::<Q, T>::StoredLoaded { result: Err(error) }) || event == (OpenEvent::<
            Q,
            T,
        >::LastfmSessionLoaded { result: Err(error) }) || event == (OpenEvent::<
            Q,
            T,
        >::PlayerCreated { result: Err(error) }) || event == (OpenEvent::<Q, T>::ServiceStarted {
            result: Err(error),
        }) || event == (OpenEvent::<Q, T>::PlayerEnded { result: Err(error) }),
    ensures
        step.state is Finished,
        step.action matches OpenAction::Stop { result: Err(reported) } && reported is PlayerError
            && reported.text() == error.text(),
{
}

/// A start that has no account to play with ends with what is missing.
pub proof fn lemma_missing_account_is_told<Q, T: Default>(
    options: OpenOptions<Q>,
    platform: Platform,
    stored: Stored<Q, T>,
    step: OpenStep<Q, T>,
)
    requires
        advances(
            OpenState::LoadingStored { options, platform },
            OpenEvent::StoredLoaded { result: Ok(stored) },
            step,
        ),
    ensures
        step.action == (OpenAction::<Q, T>::Stop { result: Err(Error::UsernameMissing) })
            <==> options.username is None && stored.credentials.username is None,
        step.action == (OpenAction::<Q, T>::Stop { result: Err(Error::PasswordMissing) }) <==> (
        options.username is Some || stored.credentials.username is Some) && options.password is None
            && stored.credentials.password is None,
{
}

/// Each step waits for what its action brings, whether or not it went well,
/// and for nothing else. What is stored is waited for unless an audio quality
/// is needed and it holds none.
pub proof fn lemma_reports_are_awaited<Q, T: Default>(
    options: OpenOptions<Q>,
    platform: Platform,
    state: OpenState<Q, T>,
    event: OpenEvent<Q, T>,
    step: OpenStep<Q, T>,
    report: OpenEvent<Q, T>,
)
    requires
        advances(state, event, step),
    ensures
        step.state.awaits(report) <==> match step.action {
            OpenAction::LoadStored => false,
            OpenAction::LoadLastfmSession => report is LastfmSessionLoaded,
            OpenAction::CreatePlayer { .. } => report is PlayerCreated,
            OpenAction::StartService { .. } => report is ServiceStarted,
            OpenAction::Play => report is PlayerEnded,
            OpenAction::Stop { .. } => false,
        },
        (OpenState::LoadingStored { options, platform }).awaits(report) <==> (
        report matches OpenEvent::StoredLoaded { result } && (result matches Ok(stored) ==> {
            ||| options.max_audio_quality is Some
            ||| stored.max_audio_quality is Some
            ||| options.username is None && stored.credentials.username is None
            ||| options.password is None && stored.credentials.password is None
        })),
{
}

} // verus!
