use qobuz_player::cli::{ConfigCommands, Error};
use qobuz_player::config::{ConfigAction, ConfigEvent, ConfigState, ConfigStep};
use qobuz_player::error;
use qobuz_player::lastfm::{
    Answer, AuthTokenResponse, LastFm, LastFmError, Session, SessionResponse,
};

type Command = ConfigCommands<u8>;

fn advance(state: ConfigState, event: ConfigEvent) -> ConfigStep<u8> {
    assert!(state.expects(&event));
    state.advance(event)
}

fn saved() -> ConfigEvent {
    ConfigEvent::Saved { result: Ok(()) }
}

fn token_answer() -> ConfigEvent {
    let token = AuthTokenResponse { token: "TOK".to_string() };
    ConfigEvent::TokenAnswered { answer: Answer::Text { error: None, value: Ok(token) } }
}

fn session_answer() -> ConfigEvent {
    let session = Session { key: "SK".to_string(), name: "someone".to_string() };
    ConfigEvent::SessionAnswered {
        answer: Answer::Text { error: None, value: Ok(SessionResponse { session }) },
    }
}

fn login() -> ConfigStep<u8> {
    let command =
        Command::LastfmAuth { api_key: "KEY".to_string(), api_secret: "SECRET".to_string() };
    command.begin()
}

fn ends_well(step: ConfigStep<u8>, message: &str) {
    assert_eq!(step.say, [message]);
    assert!(matches!(step.action, ConfigAction::Stop { result: Ok(()) }));
    assert!(!step.state.expects(&saved()));
}

fn ends_with(step: ConfigStep<u8>, text: &str) {
    assert!(step.say.is_empty());
    match step.action {
        ConfigAction::Stop { result: Err(error) } => assert_eq!(error.message(), text),
        _ => panic!("the dialogue goes on"),
    }
}

#[test]
fn username() {
    let step = Command::Username { username: "me".to_string() }.begin();
    assert!(step.say.is_empty());
    assert!(matches!(step.action, ConfigAction::SaveUsername { username } if username == "me"));
    ends_well(advance(step.state, saved()), "Username saved.");
}

#[test]
fn password_that_is_given() {
    let step = Command::Password { password: Some("pw".to_string()) }.begin();
    assert!(matches!(step.action, ConfigAction::SavePassword { password } if password == "pw"));
    ends_well(advance(step.state, saved()), "Password saved.");
}

#[test]
fn password_that_is_asked_for() {
    let step = Command::Password { password: None }.begin();
    assert!(matches!(step.action, ConfigAction::AskPassword { prompt } if prompt == "Password: "));
    let step = advance(step.state, ConfigEvent::PasswordRead { line: Some("pw".to_string()) });
    assert!(matches!(step.action, ConfigAction::SavePassword { password } if password == "pw"));
    ends_well(advance(step.state, saved()), "Password saved.");
}

#[test]
fn password_that_cannot_be_read() {
    let step = Command::Password { password: None }.begin();
    let step = advance(step.state, ConfigEvent::PasswordRead { line: None });
    assert!(matches!(&step.action, ConfigAction::Stop { result: Err(Error::PasswordError) }));
    ends_with(step, "Error reading error prompt");
}

#[test]
fn audio_quality() {
    let step = Command::MaxAudioQuality { quality: 6 }.begin();
    assert!(matches!(step.action, ConfigAction::SaveMaxAudioQuality { quality: 6 }));
    ends_well(advance(step.state, saved()), "Max audio quality saved.");
}

#[test]
fn logout() {
    let step = Command::LastfmLogout.begin();
    assert!(matches!(step.action, ConfigAction::ClearLastfmSession));
    ends_well(advance(step.state, saved()), "Last.fm session cleared.");
}

#[test]
fn a_login_stores_the_granted_session() {
    let lastfm = LastFm::new("KEY".to_string(), "SECRET".to_string(), None);
    let step = login();
    assert_eq!(step.say, ["Getting Last.fm authentication token..."]);
    match step.action {
        ConfigAction::SendTokenRequest { request } => {
            assert_eq!(request.params, lastfm.get_auth_token_request().params)
        }
        _ => panic!("no token is asked for"),
    }
    let step = advance(step.state, token_answer());
    assert_eq!(
        step.say,
        [
            "\nPlease open this URL in your browser to authorize:",
            "https://www.last.fm/api/auth/?api_key=KEY&token=TOK",
            "\nPress Enter after you've authorized the application...",
        ]
    );
    assert!(matches!(step.action, ConfigAction::AwaitEnter));
    let step = advance(step.state, ConfigEvent::EnterPressed);
    assert_eq!(step.say, ["Getting session..."]);
    match step.action {
        ConfigAction::SendSessionRequest { request } => {
            assert_eq!(request.params, lastfm.get_session_request("TOK").params)
        }
        _ => panic!("no session is asked for"),
    }
    let step = advance(step.state, session_answer());
    match step.action {
        ConfigAction::SaveLastfmSession { session_key, username, api_key, api_secret } => {
            assert_eq!(
                [session_key, username, api_key, api_secret],
                ["SK", "someone", "KEY", "SECRET"]
            )
        }
        _ => panic!("nothing is stored"),
    }
    ends_well(
        advance(step.state, saved()),
        "Last.fm authentication successful! Logged in as: someone",
    );
}

#[test]
fn a_login_without_a_token_ends() {
    let refusal = LastFmError { error: 10, message: "Invalid API key".to_string() };
    let answer = Answer::Text { error: Some(refusal), value: Err("no token".to_string()) };
    ends_with(advance(login().state, ConfigEvent::TokenAnswered { answer }), "Invalid API key");
    let answer = Answer::Missing { reason: "offline".to_string() };
    ends_with(advance(login().state, ConfigEvent::TokenAnswered { answer }), "offline");
}

#[test]
fn a_login_without_a_session_ends() {
    let step = advance(login().state, token_answer());
    let step = advance(step.state, ConfigEvent::EnterPressed);
    let answer = Answer::Text { error: None, value: Err("no session".to_string()) };
    ends_with(advance(step.state, ConfigEvent::SessionAnswered { answer }), "no session");
}

#[test]
fn what_cannot_be_stored_is_reported() {
    let step = Command::LastfmLogout.begin();
    let error = error::Error::DatabaseError { error: "disk full".to_string() };
    ends_with(advance(step.state, ConfigEvent::Saved { result: Err(error) }), "disk full");
}

#[test]
fn only_what_is_awaited_is_expected() {
    let state = login().state;
    assert!(state.expects(&token_answer()));
    assert!(!state.expects(&session_answer()));
    assert!(!state.expects(&ConfigEvent::EnterPressed));
    assert!(!state.expects(&saved()));
    assert!(!state.expects(&ConfigEvent::PasswordRead { line: None }));
}
