//! The dialogue of the `config` command, step by step.
//!
//! [`ConfigCommands::begin`] and [`ConfigState::advance`] say what to do next;
//! whoever does it reports back what came of it as a [`ConfigEvent`].

use crate::cli::{ConfigCommands, Error};
use crate::error;
use crate::lastfm::{
    Account, Answer, AuthTokenResponse, LastFm, Request, Session, SessionResponse, Verb,
    LASTFM_API_URL,
};
use crate::params;
use crate::requests;
use crate::signature;
use crate::text;
use crate::AppResult;
use vstd::pervasive::unreached;
use vstd::prelude::*;
use vstd::string::*;

verus! {

/// What is to be done next.
pub enum ConfigAction<Q> {
    /// Store the username.
    SaveUsername { username: String },
    /// Show the prompt and read a line.
    AskPassword { prompt: String },
    /// Store the password.
    SavePassword { password: String },
    /// Store the audio quality.
    SaveMaxAudioQuality { quality: Q },
    /// Send the request for an authentication token.
    SendTokenRequest { request: Request },
    /// Wait until the user presses Enter.
    AwaitEnter,
    /// Send the request for a session.
    SendSessionRequest { request: Request },
    /// Store the Last.fm session.
    SaveLastfmSession {
        session_key: String,
        username: String,
        api_key: String,
        api_secret: String,
    },
    /// Forget the Last.fm session.
    ClearLastfmSession,
    /// Nothing: this is what came of the command.
    Stop { result: Result<(), Error> },
}

/// What came of a [`ConfigAction`].
pub enum ConfigEvent {
    /// Something was stored or forgotten, or could not be.
    Saved { result: AppResult<()> },
    /// A line was read; `None` where it could not be.
    PasswordRead { line: Option<String> },
    /// The answer to the request for an authentication token.
    TokenAnswered { answer: Answer<AuthTokenResponse> },
    /// The user has pressed Enter.
    EnterPressed,
    /// The answer to the request for a session.
    SessionAnswered { answer: Answer<SessionResponse> },
}

/// What the dialogue waits for.
pub enum ConfigState {
    /// Something is being stored; `message` is shown once it is.
    Saving { message: String },
    /// The user is asked for a password.
    AskingPassword,
    /// An authentication token has been asked for.
    AwaitingToken { api_key: String, api_secret: String },
    /// The user is asked to authorize the token.
    AwaitingUser { api_key: String, api_secret: String, token: String },
    /// A session has been asked for.
    AwaitingSession { api_key: String, api_secret: String },
    /// The dialogue is over.
    Finished,
}

/// One step of the dialogue: lines to show, then something to do.
pub struct ConfigStep<Q> {
    pub say: Vec<String>,
    pub state: ConfigState,
    pub action: ConfigAction<Q>,
}

/// An application that no user has granted a session.
pub open spec fn application(api_key: Seq<char>, api_secret: Seq<char>) -> Account {
    Account { api_key, api_secret, session_key: None }
}

/// Whether `request` asks for an authentication token for the application.
pub open spec fn is_token_request(request: Request, account: Account) -> bool {
    &&& request.verb == Verb::Get
    &&& request.url@ == LASTFM_API_URL@
    &&& request.pairs() == requests::auth_token_sent(
        account,
        signature::signature(requests::auth_token_signed(account), account.api_secret),
    )
}

/// Whether `request` asks for the session that `token` was authorized for.
pub open spec fn is_session_request(request: Request, account: Account, token: Seq<char>) -> bool {
    &&& request.verb == Verb::Get
    &&& request.url@ == LASTFM_API_URL@
    &&& request.pairs() == requests::session_sent(
        account,
        token,
        signature::signature(requests::session_signed(account, token), account.api_secret),
    )
}

/// Whether the dialogue waits for something to be stored, to then show `message`.
pub open spec fn is_saving(state: ConfigState, message: Seq<char>) -> bool {
    state matches ConfigState::Saving { message: shown } && shown@ == message
}

/// The first step of a command.
pub open spec fn begins<Q>(command: ConfigCommands<Q>, step: ConfigStep<Q>) -> bool {
    match command {
        ConfigCommands::Username { username } => {
            &&& step.say@.len() == 0
            &&& is_saving(step.state, "Username saved."@)
            &&& step.action == ConfigAction::<Q>::SaveUsername { username }
        },
        ConfigCommands::Password { password: Some(password) } => {
            &&& step.say@.len() == 0
            &&& is_saving(step.state, "Password saved."@)
            &&& step.action == ConfigAction::<Q>::SavePassword { password }
        },
        ConfigCommands::Password { password: None } => {
            &&& step.say@.len() == 0
            &&& step.state == ConfigState::AskingPassword
            &&& step.action matches ConfigAction::AskPassword { prompt }
            &&& prompt@ == "Password: "@
        },
        ConfigCommands::MaxAudioQuality { quality } => {
            &&& step.say@.len() == 0
            &&& is_saving(step.state, "Max audio quality saved."@)
            &&& step.action == ConfigAction::<Q>::SaveMaxAudioQuality { quality }
        },
        ConfigCommands::LastfmAuth { api_key, api_secret } => {
            &&& text::lines(step.say@) == seq!["Getting Last.fm authentication token..."@]
            &&& step.state == ConfigState::AwaitingToken { api_key, api_secret }
            &&& step.action matches ConfigAction::SendTokenRequest { request }
            &&& is_token_request(request, application(api_key@, api_secret@))
        },
        ConfigCommands::LastfmLogout => {
            &&& step.say@.len() == 0
            &&& is_saving(step.state, "Last.fm session cleared."@)
            &&& step.action == ConfigAction::<Q>::ClearLastfmSession
        },
    }
}

/// Whether the dialogue is over, with this result and nothing more to say.
pub open spec fn fails<Q>(step: ConfigStep<Q>, error: Error) -> bool {
    &&& step.say@.len() == 0
    &&& step.state == ConfigState::Finished
    &&& step.action == ConfigAction::<Q>::Stop { result: Err(error) }
}

/// The step that follows when `event` comes while the dialogue is in `state`.
pub open spec fn advances<Q>(state: ConfigState, event: ConfigEvent, step: ConfigStep<Q>) -> bool {
    match (state, event) {
        (ConfigState::Saving { message }, ConfigEvent::Saved { result: Ok(_) }) => {
            &&& step.say@ == seq![message]
            &&& step.state == ConfigState::Finished
            &&& step.action == ConfigAction::<Q>::Stop { result: Ok(()) }
        },
        (ConfigState::Saving { .. }, ConfigEvent::Saved { result: Err(error) }) => {
            fails(step, Error::of_player(error))
        },
        (ConfigState::AskingPassword, ConfigEvent::PasswordRead { line: Some(password) }) => {
            &&& step.say@.len() == 0
            &&& is_saving(step.state, "Password saved."@)
            &&& step.action == ConfigAction::<Q>::SavePassword { password }
        },
        (ConfigState::AskingPassword, ConfigEvent::PasswordRead { line: None }) => {
            fails(step, Error::PasswordError)
        },
        (
            ConfigState::AwaitingToken { api_key, api_secret },
            ConfigEvent::TokenAnswered { answer },
        ) => match answer.reading() {
            Ok(response) => {
                &&& text::lines(step.say@) == seq![
                    "\nPlease open this URL in your browser to authorize:"@,
                    "https://www.last.fm/api/auth/?api_key="@ + api_key@ + "&token="@
                        + response.token@,
                    "\nPress Enter after you've authorized the application..."@,
                ]
                &&& step.state == ConfigState::AwaitingUser {
                    api_key,
                    api_secret,
                    token: response.token,
                }
                &&& step.action == ConfigAction::<Q>::AwaitEnter
            },
            Err(error) => fails(step, Error::of_player(error)),
        },
        (
            ConfigState::AwaitingUser { api_key, api_secret, token },
            ConfigEvent::EnterPressed,
        ) => {
            &&& text::lines(step.say@) == seq!["Getting session..."@]
            &&& step.state == ConfigState::AwaitingSession { api_key, api_secret }
            &&& step.action matches ConfigAction::SendSessionRequest { request }
            &&& is_session_request(request, application(api_key@, api_secret@), token@)
        },
        (
            ConfigState::AwaitingSession { api_key, api_secret },
            ConfigEvent::SessionAnswered { answer },
        ) => match answer.reading() {
            Ok(response) => {
                &&& step.say@.len() == 0
                &&& is_saving(
                    step.state,
                    "Last.fm authentication successful! Logged in as: "@ + response.session.name@,
                )
                &&& step.action == ConfigAction::<Q>::SaveLastfmSession {
                    session_key: response.session.key,
                    username: response.session.name,
                    api_key,
                    api_secret,
                }
            },
            Err(error) => fails(step, Error::of_player(error)),
        },
        _ => false,
    }
}

impl<Q> ConfigStep<Q> {
    /// A step that stores something, to then show `message`.
    fn saving(action: ConfigAction<Q>, message: &str) -> (step: ConfigStep<Q>)
        ensures
            step.say@.len() == 0,
            is_saving(step.state, message@),
            step.action == action,
    {
        ConfigStep {
            say: Vec::new(),
            state: ConfigState::Saving { message: message.to_owned() },
            action,
        }
    }

    /// The end of the dialogue with an error.
    fn failing(error: Error) -> (step: ConfigStep<Q>)
        ensures
            fails(step, error),
    {
        ConfigStep {
            say: Vec::new(),
            state: ConfigState::Finished,
            action: ConfigAction::Stop { result: Err(error) },
        }
    }
}

impl<Q> ConfigCommands<Q> {
    /// The first step of the command.
    pub fn begin(self) -> (step: ConfigStep<Q>)
        ensures
            begins(self, step),
    {
        match self {
            ConfigCommands::Username { username } => ConfigStep::saving(
                ConfigAction::SaveUsername { username },
                "Username saved.",
            ),
            ConfigCommands::Password { password: Some(password) } => ConfigStep::saving(
                ConfigAction::SavePassword { password },
                "Password saved.",
            ),
            ConfigCommands::Password { password: None } => ConfigStep {
                say: Vec::new(),
                state: ConfigState::AskingPassword,
                action: ConfigAction::AskPassword { prompt: "Password: ".to_owned() },
            },
            ConfigCommands::MaxAudioQuality { quality } => ConfigStep::saving(
                ConfigAction::SaveMaxAudioQuality { quality },
                "Max audio quality saved.",
            ),
            ConfigCommands::LastfmAuth { api_key, api_secret } => {
                let lastfm = LastFm::new(api_key.clone(), api_secret.clone(), None);
                let request = lastfm.get_auth_token_request();
                let mut say: Vec<String> = Vec::new();
                say.push("Getting Last.fm authentication token...".to_owned());
                assert(text::lines(say@) == seq!["Getting Last.fm authentication token..."@]);
                assert(lastfm@ == application(api_key@, api_secret@));
                ConfigStep {
                    say,
                    state: ConfigState::AwaitingToken { api_key, api_secret },
                    action: ConfigAction::SendTokenRequest { request },
                }
            },
            ConfigCommands::LastfmLogout => ConfigStep::saving(
                ConfigAction::ClearLastfmSession,
                "Last.fm session cleared.",
            ),
        }
    }
}

impl ConfigState {
    /// Whether the dialogue waits for events of this kind.
    pub open spec fn awaits(self, event: ConfigEvent) -> bool {
        match self {
            ConfigState::Saving { .. } => event is Saved,
            ConfigState::AskingPassword => event is PasswordRead,
            ConfigState::AwaitingToken { .. } => event is TokenAnswered,
            ConfigState::AwaitingUser { .. } => event is EnterPressed,
            ConfigState::AwaitingSession { .. } => event is SessionAnswered,
            ConfigState::Finished => false,
        }
    }

    /// Whether the dialogue waits for events of this kind.
    pub fn expects(&self, event: &ConfigEvent) -> (yes: bool)
        ensures
            yes == self.awaits(*event),
    {
        match (self, event) {
            (ConfigState::Saving { .. }, ConfigEvent::Saved { .. }) => true,
            (ConfigState::AskingPassword, ConfigEvent::PasswordRead { .. }) => true,
            (ConfigState::AwaitingToken { .. }, ConfigEvent::TokenAnswered { .. }) => true,
            (ConfigState::AwaitingUser { .. }, ConfigEvent::EnterPressed) => true,
            (ConfigState::AwaitingSession { .. }, ConfigEvent::SessionAnswered { .. }) => true,
            _ => false,
        }
    }

    /// The step that follows when `event` comes.
    pub fn advance<Q>(self, event: ConfigEvent) -> (step: ConfigStep<Q>)
        requires
            self.awaits(event),
        ensures
            advances(self, event, step),
    {
        match (self, event) {
            (ConfigState::Saving { message }, ConfigEvent::Saved { result: Ok(_) }) => {
                let mut say: Vec<String> = Vec::new();
                say.push(message);
                assert(say@ == seq![message]);
                ConfigStep {
                    say,
                    state: ConfigState::Finished,
                    action: ConfigAction::Stop { result: Ok(()) },
                }
            },
            (ConfigState::Saving { .. }, ConfigEvent::Saved { result: Err(error) }) => {
                ConfigStep::failing(Error::from(error))
            },
            (ConfigState::AskingPassword, ConfigEvent::PasswordRead { line: Some(password) }) => {
                ConfigStep::saving(ConfigAction::SavePassword { password }, "Password saved.")
            },
            (ConfigState::AskingPassword, ConfigEvent::PasswordRead { line: None }) => {
                ConfigStep::failing(Error::PasswordError)
            },
            (
                ConfigState::AwaitingToken { api_key, api_secret },
                ConfigEvent::TokenAnswered { answer },
            ) => match LastFm::get_auth_token_result(answer) {
                Ok(token) => {
                    let lastfm = LastFm::new(api_key.clone(), api_secret.clone(), None);
                    let url = lastfm.get_auth_url(token.as_str());
                    let mut say: Vec<String> = Vec::new();
                    say.push("\nPlease open this URL in your browser to authorize:".to_owned());
                    say.push(url);
                    say.push("\nPress Enter after you've authorized the application...".to_owned());
                    assert(text::lines(say@) == seq![
                        "\nPlease open this URL in your browser to authorize:"@,
                        url@,
                        "\nPress Enter after you've authorized the application..."@,
                    ]);
                    ConfigStep {
                        say,
                        state: ConfigState::AwaitingUser { api_key, api_secret, token },
                        action: ConfigAction::AwaitEnter,
                    }
                },
                Err(error) => ConfigStep::failing(Error::from(error)),
            },
            (
                ConfigState::AwaitingUser { api_key, api_secret, token },
                ConfigEvent::EnterPressed,
            ) => {
                let lastfm = LastFm::new(api_key.clone(), api_secret.clone(), None);
                let request = lastfm.get_session_request(token.as_str());
                let mut say: Vec<String> = Vec::new();
                say.push("Getting session...".to_owned());
                assert(text::lines(say@) == seq!["Getting session..."@]);
                assert(lastfm@ == application(api_key@, api_secret@));
                ConfigStep {
                    say,
                    state: ConfigState::AwaitingSession { api_key, api_secret },
                    action: ConfigAction::SendSessionRequest { request },
                }
            },
            (
                ConfigState::AwaitingSession { api_key, api_secret },
                ConfigEvent::SessionAnswered { answer },
            ) => match LastFm::get_session_result(answer) {
                Ok((session_key, username)) => {
                    let mut message = "Last.fm authentication successful! Logged in as: ".to_owned();
                    message.append(username.as_str());
                    ConfigStep::saving(
                        ConfigAction::SaveLastfmSession {
                            session_key,
                            username,
                            api_key,
                            api_secret,
                        },
                        message.as_str(),
                    )
                },
                Err(error) => ConfigStep::failing(Error::from(error)),
            },
            _ => unreached(),
        }
    }
}

/// A Last.fm login that nothing goes wrong with asks for a token, shows where
/// to authorize that token, asks for its session, and stores that session
/// with the key and the secret that the login began with.
pub proof fn lemma_login_stores_the_granted_session<Q>(
    api_key: String,
    api_secret: String,
    first: ConfigStep<Q>,
    token_answer: Answer<AuthTokenResponse>,
    second: ConfigStep<Q>,
    third: ConfigStep<Q>,
    session_answer: Answer<SessionResponse>,
    fourth: ConfigStep<Q>,
)
    requires
        begins(ConfigCommands::LastfmAuth { api_key, api_secret }, first),
        advances(first.state, ConfigEvent::TokenAnswered { answer: token_answer }, second),
        token_answer.reading() is Ok,
        advances(second.state, ConfigEvent::EnterPressed, third),
        advances(third.state, ConfigEvent::SessionAnswered { answer: session_answer }, fourth),
        session_answer.reading() is Ok,
    ensures
        first.action matches ConfigAction::SendTokenRequest { request } && is_token_request(
            request,
            application(api_key@, api_secret@),
        ),
        second.action is AwaitEnter,
        text::lines(second.say@)[1] == "https://www.last.fm/api/auth/?api_key="@ + api_key@
            + "&token="@ + token_answer.reading()->Ok_0.token@,
        third.action matches ConfigAction::SendSessionRequest { request } && is_session_request(
            request,
            application(api_key@, api_secret@),
            token_answer.reading()->Ok_0.token@,
        ),
        fourth.action == (ConfigAction::<Q>::SaveLastfmSession {
            session_key: session_answer.reading()->Ok_0.session.key,
            username: session_answer.reading()->Ok_0.session.name,
            api_key,
            api_secret,
        }),
{
}

/// A session is stored only when one has been granted.
pub proof fn lemma_no_session_without_grant<Q>(
    state: ConfigState,
    event: ConfigEvent,
    step: ConfigStep<Q>,
)
    requires
        advances(state, event, step),
        step.action is SaveLastfmSession,
    ensures
        state is AwaitingSession,
        event matches ConfigEvent::SessionAnswered { answer } && answer.reading() is Ok,
{
}

/// How many more events a dialogue can take.
pub open spec fn events_left(state: ConfigState) -> nat {
    match state {
        ConfigState::AwaitingToken { .. } => 4,
        ConfigState::AwaitingUser { .. } => 3,
        ConfigState::AwaitingSession { .. } => 2,
        ConfigState::AskingPassword => 2,
        ConfigState::Saving { .. } => 1,
        ConfigState::Finished => 0,
    }
}

/// Every dialogue ends, and nothing is waited for after its end.
pub proof fn lemma_dialogue_ends<Q>(state: ConfigState, event: ConfigEvent, step: ConfigStep<Q>)
    requires
        advances(state, event, step),
    ensures
        events_left(step.state) < events_left(state),
        step.state == ConfigState::Finished <==> step.action is Stop,
        forall|later: ConfigEvent| step.state == ConfigState::Finished ==> !(
        #[trigger] step.state.awaits(later)),
{
}

/// A dialogue that ends well has stored what it was to store: its last event
/// reports that it was stored.
pub proof fn lemma_success_means_saved<Q>(
    state: ConfigState,
    event: ConfigEvent,
    step: ConfigStep<Q>,
)
    requires
        advances(state, event, step),
        step.action == (ConfigAction::<Q>::Stop { result: Ok(()) }),
    ensures
        state is Saving,
        event matches ConfigEvent::Saved { result } && result is Ok,
{
}

/// An error that a step meets with is what the command ends with, word for word.
pub proof fn lemma_errors_are_reported<Q>(
    state: ConfigState,
    event: ConfigEvent,
    step: ConfigStep<Q>,
    error: error::Error,
)
    requires
        advances(state, event, step),
        (event matches ConfigEvent::Saved { result } && result == Err::<(), error::Error>(error))
            || (event matches ConfigEvent::TokenAnswered { answer } && answer.reading()
            == Err::<AuthTokenResponse, error::Error>(error)) || (
        event matches ConfigEvent::SessionAnswered { answer } && answer.reading() == Err::<
            SessionResponse,
            error::Error,
        >(error)),
    ensures
        step.action matches ConfigAction::Stop { result: Err(reported) } && reported
            is PlayerError && reported.text() == error.text(),
{
}

/// What a command stores is what it is given. Only once that is stored is it
/// said to be, and the command ends well; where it cannot be stored, nothing
/// is said, and the command ends with the error.
pub proof fn lemma_given_value_is_stored<Q>(
    command: ConfigCommands<Q>,
    first: ConfigStep<Q>,
    second: ConfigStep<Q>,
    error: error::Error,
    other: ConfigStep<Q>,
)
    requires
        begins(command, first),
        !(command is LastfmAuth),
        !(command matches ConfigCommands::Password { password: None }),
        advances(first.state, ConfigEvent::Saved { result: Ok(()) }, second),
        advances(first.state, ConfigEvent::Saved { result: Err(error) }, other),
    ensures
        first.say@.len() == 0,
        first.action == (match command {
            ConfigCommands::Username { username } => ConfigAction::<Q>::SaveUsername { username },
            ConfigCommands::Password { password } => ConfigAction::<Q>::SavePassword {
                password: password->0,
            },
            ConfigCommands::MaxAudioQuality { quality } => ConfigAction::<
                Q,
            >::SaveMaxAudioQuality { quality },
            _ => ConfigAction::<Q>::ClearLastfmSession,
        }),
        second.say@.len() == 1,
        second.say@[0]@ == (match command {
            ConfigCommands::Username { .. } => "Username saved."@,
            ConfigCommands::Password { .. } => "Password saved."@,
            ConfigCommands::MaxAudioQuality { .. } => "Max audio quality saved."@,
            _ => "Last.fm session cleared."@,
        }),
        second.action == (ConfigAction::<Q>::Stop { result: Ok(()) }),
        other.say@.len() == 0,
        other.action matches ConfigAction::Stop { result: Err(reported) } && reported.text()
            == error.text(),
{
}

/// A password that is not given is asked for, and the line that is read is
/// what is stored. Where no line can be read, nothing is stored.
pub proof fn lemma_password_is_asked_for<Q>(
    first: ConfigStep<Q>,
    line: String,
    second: ConfigStep<Q>,
    third: ConfigStep<Q>,
    other: ConfigStep<Q>,
)
    requires
        begins(ConfigCommands::Password { password: None }, first),
        advances(first.state, ConfigEvent::PasswordRead { line: Some(line) }, second),
        advances(second.state, ConfigEvent::Saved { result: Ok(()) }, third),
        advances(first.state, ConfigEvent::PasswordRead { line: None }, other),
    ensures
        first.say@.len() == 0,
        first.action matches ConfigAction::AskPassword { prompt } && prompt@ == "Password: "@,
        second.say@.len() == 0,
        second.action == (ConfigAction::<Q>::SavePassword { password: line }),
        third.say@.len() == 1,
        third.say@[0]@ == "Password saved."@,
        third.action == (ConfigAction::<Q>::Stop { result: Ok(()) }),
        other.say@.len() == 0,
        other.action == (ConfigAction::<Q>::Stop { result: Err(Error::PasswordError) }),
{
}

/// What a Last.fm login sends: first a request for a token and then one for
/// the session of the token that was answered, each with the application's own
/// key and signed with its own secret.
pub proof fn lemma_login_requests<Q>(
    api_key: String,
    api_secret: String,
    first: ConfigStep<Q>,
    token: String,
    second: ConfigStep<Q>,
    third: ConfigStep<Q>,
)
    requires
        begins(ConfigCommands::LastfmAuth { api_key, api_secret }, first),
        advances(
            first.state,
            ConfigEvent::TokenAnswered {
                answer: Answer::Text { error: None, value: Ok(AuthTokenResponse { token }) },
            },
            second,
        ),
        advances(second.state, ConfigEvent::EnterPressed, third),
    ensures
        first.action matches ConfigAction::SendTokenRequest { request } && {
            let sent = params::as_map(request.pairs());
            &&& request.verb == Verb::Get
            &&& request.url@ == "https://ws.audioscrobbler.com/2.0/"@
            &&& sent.contains_pair("method"@, "auth.getToken"@)
            &&& sent.contains_pair("api_key"@, api_key@)
            &&& sent.contains_pair("format"@, "json"@)
            &&& sent.contains_pair(
                "api_sig"@,
                signature::signature(
                    seq![("api_key"@, api_key@), ("method"@, "auth.getToken"@)],
                    api_secret@,
                ),
            )
        },
        third.action matches ConfigAction::SendSessionRequest { request } && {
            let sent = params::as_map(request.pairs());
            &&& request.verb == Verb::Get
            &&& request.url@ == "https://ws.audioscrobbler.com/2.0/"@
            &&& sent.contains_pair("method"@, "auth.getSession"@)
            &&& sent.contains_pair("api_key"@, api_key@)
            &&& sent.contains_pair("token"@, token@)
            &&& sent.contains_pair("format"@, "json"@)
            &&& sent.contains_pair(
                "api_sig"@,
                signature::signature(
                    seq![
                        ("api_key"@, api_key@),
                        ("method"@, "auth.getSession"@),
                        ("token"@, token@),
                    ],
                    api_secret@,
                ),
            )
        },
{
    let account = application(api_key@, api_secret@);
    let token_sig = signature::signature(requests::auth_token_signed(account), api_secret@);
    requests::lemma_auth_token_tells(account, token_sig);
    let session_sig = signature::signature(
        requests::session_signed(account, token@),
        api_secret@,
    );
    requests::lemma_session_tells(account, token@, session_sig);
}

/// What a user who logs in to Last.fm is told: that a token is asked for,
/// where to authorize it and what to do then, that a session is asked for
/// and, once the session is stored, under which name.
pub proof fn lemma_login_is_told<Q>(
    api_key: String,
    api_secret: String,
    first: ConfigStep<Q>,
    token: String,
    second: ConfigStep<Q>,
    third: ConfigStep<Q>,
    session: Session,
    fourth: ConfigStep<Q>,
    fifth: ConfigStep<Q>,
)
    requires
        begins(ConfigCommands::LastfmAuth { api_key, api_secret }, first),
        advances(
            first.state,
            ConfigEvent::TokenAnswered {
                answer: Answer::Text { error: None, value: Ok(AuthTokenResponse { token }) },
            },
            second,
        ),
        advances(second.state, ConfigEvent::EnterPressed, third),
        advances(
            third.state,
            ConfigEvent::SessionAnswered {
                answer: Answer::Text { error: None, value: Ok(SessionResponse { session }) },
            },
            fourth,
        ),
        advances(fourth.state, ConfigEvent::Saved { result: Ok(()) }, fifth),
    ensures
        text::lines(first.say@) == seq!["Getting Last.fm authentication token..."@],
        text::lines(second.say@) == seq![
            "\nPlease open this URL in your browser to authorize:"@,
            "https://www.last.fm/api/auth/?api_key="@ + api_key@ + "&token="@ + token@,
            "\nPress Enter after you've authorized the application..."@,
        ],
        text::lines(third.say@) == seq!["Getting session..."@],
        fourth.say@.len() == 0,
        fourth.action == (ConfigAction::<Q>::SaveLastfmSession {
            session_key: session.key,
            username: session.name,
            api_key,
            api_secret,
        }),
        text::lines(fifth.say@) == seq![
            "Last.fm authentication successful! Logged in as: "@ + session.name@,
        ],
        fifth.action == (ConfigAction::<Q>::Stop { result: Ok(()) }),
{
}

/// A login that Last.fm refuses, or does not answer, ends with what went
/// wrong, word for word, and stores nothing.
pub proof fn lemma_refused_login_ends<Q>(
    api_key: String,
    api_secret: String,
    token_answer: Answer<AuthTokenResponse>,
    session_answer: Answer<SessionResponse>,
    words: String,
    first: ConfigStep<Q>,
    second: ConfigStep<Q>,
)
    requires
        advances(
            ConfigState::AwaitingToken { api_key, api_secret },
            ConfigEvent::TokenAnswered { answer: token_answer },
            first,
        ),
        match token_answer {
            Answer::Missing { reason } => reason == words,
            Answer::Text { error: Some(refusal), .. } => refusal.message == words,
            Answer::Text { error: None, value } => value matches Err(reason) && reason == words,
        },
        advances(
            ConfigState::AwaitingSession { api_key, api_secret },
            ConfigEvent::SessionAnswered { answer: session_answer },
            second,
        ),
        match session_answer {
            Answer::Missing { reason } => reason == words,
            Answer::Text { error: Some(refusal), .. } => refusal.message == words,
            Answer::Text { error: None, value } => value matches Err(reason) && reason == words,
        },
    ensures
        first.say@.len() == 0,
        first.action matches ConfigAction::Stop { result: Err(reported) } && reported.text()
            == words@,
        second.say@.len() == 0,
        second.action matches ConfigAction::Stop { result: Err(reported) } && reported.text()
            == words@,
{
}

/// Each step waits for what its action brings, whether or not it went well,
/// and for nothing else.
pub proof fn lemma_reports_are_awaited<Q>(
    command: ConfigCommands<Q>,
    state: ConfigState,
    event: ConfigEvent,
    step: ConfigStep<Q>,
    report: ConfigEvent,
)
    requires
        begins(command, step) || advances(state, event, step),
    ensures
        step.state.awaits(report) <==> match step.action {
            ConfigAction::AskPassword { .. } => report is PasswordRead,
            ConfigAction::SendTokenRequest { .. } => report is TokenAnswered,
            ConfigAction::AwaitEnter => report is EnterPressed,
            ConfigAction::SendSessionRequest { .. } => report is SessionAnswered,
            ConfigAction::Stop { .. } => false,
            _ => report is Saved,
        },
{
}

} // verus!
