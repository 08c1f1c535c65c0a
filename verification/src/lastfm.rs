//! Last.fm: signed requests, and what their answers mean.

use crate::error::Error;
use crate::params;
use crate::params::{Pair, ParamMap};
use crate::requests;
use crate::signature;
use crate::text;
use crate::AppResult;
use vstd::prelude::*;
use vstd::string::*;

pub use crate::scrobble::ScrobbleState;

verus! {

/// Where every request goes.
pub const LASTFM_API_URL: &'static str = "https://ws.audioscrobbler.com/2.0/";

/// What Last.fm is told of a track.
#[derive(Debug)]
pub struct Track {
    pub title: String,
    pub artist_name: Option<String>,
    pub album_title: Option<String>,
    pub duration_seconds: u32,
}

impl Track {
    /// The artist's name, or a stand-in where it is not known.
    pub open spec fn artist_text(&self) -> Seq<char> {
        match self.artist_name {
            Some(name) => name@,
            None => "Unknown Artist"@,
        }
    }

    /// The album's title, empty where it is not known.
    pub open spec fn album_text(&self) -> Seq<char> {
        match self.album_title {
            Some(title) => title@,
            None => ""@,
        }
    }

    /// The artist's name as it is sent.
    pub fn artist(&self) -> (artist: &str)
        ensures
            artist@ == self.artist_text(),
    {
        match &self.artist_name {
            Some(name) => name.as_str(),
            None => "Unknown Artist",
        }
    }

    /// The album's title as it is sent.
    pub fn album(&self) -> (album: &str)
        ensures
            album@ == self.album_text(),
    {
        match &self.album_title {
            Some(title) => title.as_str(),
            None => "",
        }
    }
}

/// How a request is made.
#[derive(Debug, Clone, Copy, PartialEq, Eq, Structural)]
pub enum Verb {
    /// The parameters are the query of the URL.
    Get,
    /// The parameters are a form in the body.
    Post,
}

/// A request that is ready to be sent.
#[derive(Debug)]
pub struct Request {
    pub verb: Verb,
    pub url: String,
    pub params: Vec<(String, String)>,
}

impl Request {
    /// The parameters in the order in which they are sent.
    pub open spec fn pairs(&self) -> Seq<Pair> {
        params::texts(self.params@)
    }
}

/// What a [`LastFm`] holds.
pub struct Account {
    pub api_key: Seq<char>,
    pub api_secret: Seq<char>,
    pub session_key: Option<Seq<char>>,
}

/// The application's access to Last.fm.
pub struct LastFm {
    api_key: String,
    api_secret: String,
    session_key: Option<String>,
}

impl View for LastFm {
    type V = Account;

    closed spec fn view(&self) -> Account {
        Account {
            api_key: self.api_key@,
            api_secret: self.api_secret@,
            session_key: match self.session_key {
                Some(key) => Some(key@),
                None => None,
            },
        }
    }
}

impl Clone for LastFm {
    fn clone(&self) -> (copy: LastFm)
        ensures
            copy@ == self@,
    {
        LastFm {
            api_key: self.api_key.clone(),
            api_secret: self.api_secret.clone(),
            session_key: match &self.session_key {
                Some(key) => Some(key.clone()),
                None => None,
            },
        }
    }
}

impl LastFm {
    /// An application's access, in a session if one was granted before.
    pub fn new(api_key: String, api_secret: String, session_key: Option<String>) -> (lastfm: LastFm)
        ensures
            lastfm@.api_key == api_key@,
            lastfm@.api_secret == api_secret@,
            lastfm@.session_key == (match session_key {
                Some(key) => Some(key@),
                None => None,
            }),
    {
        LastFm { api_key, api_secret, session_key }
    }

    /// Whether a user has granted a session.
    pub fn is_authenticated(&self) -> (yes: bool)
        ensures
            yes == (self@.session_key is Some),
    {
        self.session_key.is_some()
    }

    /// Takes over the session that a user has granted.
    pub fn set_session_key(&mut self, session_key: String)
        ensures
            final(self)@ == (Account { session_key: Some(session_key@), ..old(self)@ }),
    {
        self.session_key = Some(session_key);
    }

    /// The text that [`LastFm::sign`] takes the digest of.
    pub fn signature_base(&self, params: &ParamMap) -> (text: String)
        ensures
            text@ == signature::signature_text(params.pairs(), self@.api_secret),
    {
        let mut text = String::new();
        let n = params.len();
        let mut i: usize = 0;
        while i < n
            invariant
                n == params.pairs().len(),
                i <= n,
                text@ == signature::joined(params.pairs().take(i as int)),
            decreases n - i,
        {
            text.append(params.key(i));
            text.append(params.value(i));
            proof {
                let next = params.pairs().take(i + 1);
                assert(next.drop_last() == params.pairs().take(i as int));
            }
            i += 1;
        }
        assert(params.pairs().take(n as int) == params.pairs());
        text.append(self.api_secret.as_str());
        text
    }

    /// The signature of `params`: the digest of every name and value in the
    /// order of the names, and of the secret.
    pub fn sign(&self, params: &ParamMap) -> (sig: String)
        ensures
            sig@ == signature::signature(params.pairs(), self@.api_secret),
            sig@.len() == 32,
            forall|i: int| 0 <= i < sig@.len() ==> signature::is_lower_hex(#[trigger] sig@[i]),
    {
        let text = self.signature_base(params);
        signature::md5_lower_hex(signature::md5_compute(text.as_str().as_bytes()))
    }
}

impl LastFm {
    /// The signed parameters of a request for an authentication token.
    pub fn auth_token_params(&self) -> (params: ParamMap)
        ensures
            params.wf(),
            params.pairs() == requests::auth_token_signed(self@),
    {
        let mut params = ParamMap::new();
        params.insert("method", "auth.getToken");
        params.insert("api_key", self.api_key.as_str());
        proof {
            let signed = requests::auth_token_signed(self@);
            requests::lemma_names_ascend();
            requests::lemma_names_differ();
            reveal_with_fuel(params::as_map, 3);
            assert(params::in_key_order(signed));
            assert(params@ =~= params::as_map(signed));
            params::lemma_key_order_unique(params.pairs(), signed);
        }
        params
    }

    /// The signed parameters of a request for a session.
    pub fn session_params(&self, token: &str) -> (params: ParamMap)
        ensures
            params.wf(),
            params.pairs() == requests::session_signed(self@, token@),
    {
        let mut params = ParamMap::new();
        params.insert("method", "auth.getSession");
        params.insert("api_key", self.api_key.as_str());
        params.insert("token", token);
        proof {
            let signed = requests::session_signed(self@, token@);
            requests::lemma_names_ascend();
            requests::lemma_names_differ();
            params::lemma_order_all();
            reveal_with_fuel(params::as_map, 4);
            assert(params::in_key_order(signed));
            assert(params@ =~= params::as_map(signed));
            params::lemma_key_order_unique(params.pairs(), signed);
        }
        params
    }

    /// The signed parameters of a now-playing notice.
    pub fn now_playing_params(&self, session_key: &str, track: &Track) -> (params: ParamMap)
        ensures
            params.wf(),
            params.pairs() == requests::now_playing_signed(self@, session_key@, track),
    {
        let artist = track.artist();
        let album = track.album();
        let duration = text::to_decimal(track.duration_seconds as u64);
        let mut params = ParamMap::new();
        params.insert("method", "track.updateNowPlaying");
        params.insert("api_key", self.api_key.as_str());
        params.insert("sk", session_key);
        params.insert("artist", artist);
        params.insert("track", track.title.as_str());
        if !album.is_empty() {
            params.insert("album", album);
        }
        params.insert("duration", duration.as_str());
        proof {
            let signed = requests::now_playing_signed(self@, session_key@, track);
            requests::lemma_track_signed(
                self@,
                session_key@,
                track,
                "track.updateNowPlaying"@,
                None,
            );
            requests::lemma_names_differ();
            assert(params@ =~= params::as_map(signed));
            params::lemma_key_order_unique(params.pairs(), signed);
        }
        params
    }

    /// The signed parameters of a scrobble.
    pub fn scrobble_params(
        &self,
        session_key: &str,
        track: &Track,
        timestamp: u64,
    ) -> (params: ParamMap)
        ensures
            params.wf(),
            params.pairs() == requests::scrobble_signed(self@, session_key@, track, timestamp),
    {
        let artist = track.artist();
        let album = track.album();
        let timestamp_str = text::to_decimal(timestamp);
        let duration = text::to_decimal(track.duration_seconds as u64);
        let mut params = ParamMap::new();
        params.insert("method", "track.scrobble");
        params.insert("api_key", self.api_key.as_str());
        params.insert("sk", session_key);
        params.insert("artist", artist);
        params.insert("track", track.title.as_str());
        if !album.is_empty() {
            params.insert("album", album);
        }
        params.insert("timestamp", timestamp_str.as_str());
        params.insert("duration", duration.as_str());
        proof {
            let signed = requests::scrobble_signed(self@, session_key@, track, timestamp);
            requests::lemma_track_signed(
                self@,
                session_key@,
                track,
                "track.scrobble"@,
                Some(timestamp),
            );
            requests::lemma_names_differ();
            assert(params@ =~= params::as_map(signed));
            params::lemma_key_order_unique(params.pairs(), signed);
        }
        params
    }

    /// The request for an authentication token, with `sig` as its signature.
    pub fn get_auth_token_request_with(&self, sig: &str) -> (request: Request)
        ensures
            request.verb == Verb::Get,
            request.url@ == LASTFM_API_URL@,
            request.pairs() == requests::auth_token_sent(self@, sig@),
    {
        let mut list: Vec<(String, String)> = Vec::new();
        params::push(&mut list, "method", "auth.getToken");
        params::push(&mut list, "api_key", self.api_key.as_str());
        params::push(&mut list, "api_sig", sig);
        params::push(&mut list, "format", "json");
        Request { verb: Verb::Get, url: LASTFM_API_URL.to_owned(), params: list }
    }

    /// The request for an authentication token.
    pub fn get_auth_token_request(&self) -> (request: Request)
        ensures
            request.verb == Verb::Get,
            request.url@ == LASTFM_API_URL@,
            request.pairs() == requests::auth_token_sent(
                self@,
                signature::signature(requests::auth_token_signed(self@), self@.api_secret),
            ),
    {
        let sig = self.sign(&self.auth_token_params());
        self.get_auth_token_request_with(sig.as_str())
    }

    /// Where the user authorizes the application to use `token`.
    pub fn get_auth_url(&self, token: &str) -> (url: String)
        ensures
            url@ == "https://www.last.fm/api/auth/?api_key="@ + self@.api_key + "&token="@ + token@,
    {
        let mut url = "https://www.last.fm/api/auth/?api_key=".to_owned();
        url.append(self.api_key.as_str());
        url.append("&token=");
        url.append(token);
        url
    }

    /// The request for a session, with `sig` as its signature.
    pub fn get_session_request_with(&self, token: &str, sig: &str) -> (request: Request)
        ensures
            request.verb == Verb::Get,
            request.url@ == LASTFM_API_URL@,
            request.pairs() == requests::session_sent(self@, token@, sig@),
    {
        let mut list: Vec<(String, String)> = Vec::new();
        params::push(&mut list, "method", "auth.getSession");
        params::push(&mut list, "api_key", self.api_key.as_str());
        params::push(&mut list, "token", token);
        params::push(&mut list, "api_sig", sig);
        params::push(&mut list, "format", "json");
        Request { verb: Verb::Get, url: LASTFM_API_URL.to_owned(), params: list }
    }

    /// The request for a session, to be made once the user has authorized `token`.
    pub fn get_session_request(&self, token: &str) -> (request: Request)
        ensures
            request.verb == Verb::Get,
            request.url@ == LASTFM_API_URL@,
            request.pairs() == requests::session_sent(
                self@,
                token@,
                signature::signature(requests::session_signed(self@, token@), self@.api_secret),
            ),
    {
        let sig = self.sign(&self.session_params(token));
        self.get_session_request_with(token, sig.as_str())
    }

    /// The now-playing notice in the session `session_key`, with `sig` as its signature.
    pub fn now_playing_request_with(&self, session_key: &str, track: &Track, sig: &str) -> (request:
        Request)
        ensures
            request.verb == Verb::Post,
            request.url@ == LASTFM_API_URL@,
            request.pairs() == requests::now_playing_sent(self@, session_key@, track, sig@),
    {
        let artist = track.artist();
        let album = track.album();
        let duration = text::to_decimal(track.duration_seconds as u64);
        let mut list: Vec<(String, String)> = Vec::new();
        params::push(&mut list, "method", "track.updateNowPlaying");
        params::push(&mut list, "api_key", self.api_key.as_str());
        params::push(&mut list, "sk", session_key);
        params::push(&mut list, "artist", artist);
        params::push(&mut list, "track", track.title.as_str());
        params::push(&mut list, "duration", duration.as_str());
        params::push(&mut list, "api_sig", sig);
        params::push(&mut list, "format", "json");
        if !album.is_empty() {
            params::push(&mut list, "album", album);
        }
        Request { verb: Verb::Post, url: LASTFM_API_URL.to_owned(), params: list }
    }

    /// The now-playing notice for `track`. Without a session there is none to send.
    pub fn now_playing_request(&self, track: &Track) -> (request: Option<Request>)
        ensures
            match (self@.session_key, request) {
                (Some(key), Some(r)) => {
                    &&& r.verb == Verb::Post
                    &&& r.url@ == LASTFM_API_URL@
                    &&& r.pairs() == requests::now_playing_sent(
                        self@,
                        key,
                        track,
                        signature::signature(requests::now_playing_signed(self@, key, track), self@.api_secret),
                    )
                },
                (None, None) => true,
                _ => false,
            },
    {
        match &self.session_key {
            Some(key) => {
                let sig = self.sign(&self.now_playing_params(key.as_str(), track));
                Some(self.now_playing_request_with(key.as_str(), track, sig.as_str()))
            },
            None => None,
        }
    }

    /// The scrobble in the session `session_key`, with `sig` as its signature.
    pub fn scrobble_request_with(
        &self,
        session_key: &str,
        track: &Track,
        timestamp: u64,
        sig: &str,
    ) -> (request: Request)
        ensures
            request.verb == Verb::Post,
            request.url@ == LASTFM_API_URL@,
            request.pairs() == requests::scrobble_sent(self@, session_key@, track, timestamp, sig@),
    {
        let artist = track.artist();
        let album = track.album();
        let timestamp_str = text::to_decimal(timestamp);
        let duration = text::to_decimal(track.duration_seconds as u64);
        let mut list: Vec<(String, String)> = Vec::new();
        params::push(&mut list, "method", "track.scrobble");
        params::push(&mut list, "api_key", self.api_key.as_str());
        params::push(&mut list, "sk", session_key);
        params::push(&mut list, "artist", artist);
        params::push(&mut list, "track", track.title.as_str());
        params::push(&mut list, "timestamp", timestamp_str.as_str());
        params::push(&mut list, "duration", duration.as_str());
        params::push(&mut list, "api_sig", sig);
        params::push(&mut list, "format", "json");
        if !album.is_empty() {
            params::push(&mut list, "album", album);
        }
        Request { verb: Verb::Post, url: LASTFM_API_URL.to_owned(), params: list }
    }

    /// The scrobble of `track`, which began to play at `timestamp`. Without a
    /// session there is none to send.
    pub fn scrobble_request(&self, track: &Track, timestamp: u64) -> (request: Option<Request>)
        ensures
            match (self@.session_key, request) {
                (Some(key), Some(r)) => {
                    &&& r.verb == Verb::Post
                    &&& r.url@ == LASTFM_API_URL@
                    &&& r.pairs() == requests::scrobble_sent(
                        self@,
                        key,
                        track,
                        timestamp,
                        signature::signature(requests::scrobble_signed(self@, key, track, timestamp), self@.api_secret),
                    )
                },
                (None, None) => true,
                _ => false,
            },
    {
        match &self.session_key {
            Some(key) => {
                let sig = self.sign(&self.scrobble_params(key.as_str(), track, timestamp));
                Some(self.scrobble_request_with(key.as_str(), track, timestamp, sig.as_str()))
            },
            None => None,
        }
    }

    /// What the answer to a request for an authentication token means: the token.
    pub fn get_auth_token_result(answer: Answer<AuthTokenResponse>) -> (result: AppResult<String>)
        ensures
            result == (match answer.reading() {
                Ok(response) => Ok(response.token),
                Err(error) => Err(error),
            }),
    {
        match answer.read() {
            Ok(response) => Ok(response.token),
            Err(error) => Err(error),
        }
    }

    /// What the answer to a request for a session means: the session's key
    /// and the name of its user.
    pub fn get_session_result(answer: Answer<SessionResponse>) -> (result: AppResult<
        (String, String),
    >)
        ensures
            result == (match answer.reading() {
                Ok(response) => Ok((response.session.key, response.session.name)),
                Err(error) => Err(error),
            }),
    {
        match answer.read() {
            Ok(response) => Ok((response.session.key, response.session.name)),
            Err(error) => Err(error),
        }
    }

    /// What comes of a now-playing notice. `None` means that there was none to
    /// send, which is no failure.
    pub fn now_playing_outcome<T>(answer: Option<Answer<T>>) -> (result: AppResult<()>)
        ensures
            result == (match answer {
                None => Ok(()),
                Some(came) => came.acknowledgement(),
            }),
    {
        match answer {
            None => Ok(()),
            Some(came) => came.acknowledge(),
        }
    }

    /// What comes of a scrobble. `None` means that there was none to send,
    /// which is no failure.
    pub fn scrobble_outcome<T>(answer: Option<Answer<T>>) -> (result: AppResult<()>)
        ensures
            result == (match answer {
                None => Ok(()),
                Some(came) => came.acknowledgement(),
            }),
    {
        match answer {
            None => Ok(()),
            Some(came) => came.acknowledge(),
        }
    }
}

/// The answer to a request for an authentication token.
#[derive(Debug)]
pub struct AuthTokenResponse {
    pub token: String,
}

/// The answer to a request for a session.
#[derive(Debug)]
pub struct SessionResponse {
    pub session: Session,
}

/// A session that a user has granted.
#[derive(Debug)]
pub struct Session {
    pub key: String,
    pub name: String,
}

/// An answer that reports an error.
#[derive(Debug)]
pub struct LastFmError {
    pub error: u32,
    pub message: String,
}

/// What came back for a request.
#[derive(Debug)]
pub enum Answer<T> {
    /// Nothing came back, for the reason given.
    Missing { reason: String },
    /// A text came back: whether it reads as an error, and what else it
    /// reads as, or why it does not.
    Text { error: Option<LastFmError>, value: Result<T, String> },
}

impl<T> Answer<T> {
    /// A text that reads as an error is one, whatever else it reads as.
    pub open spec fn reading(self) -> AppResult<T> {
        match self {
            Answer::Missing { reason } => Err(Error::RequestError { error: reason }),
            Answer::Text { error: Some(error), .. } => Err(
                Error::LastFmError { message: error.message },
            ),
            Answer::Text { error: None, value: Err(error) } => Err(Error::JsonError { error }),
            Answer::Text { error: None, value: Ok(value) } => Ok(value),
        }
    }

    /// Reads the answer.
    pub fn read(self) -> (result: AppResult<T>)
        ensures
            result == self.reading(),
    {
        match self {
            Answer::Missing { reason } => Err(Error::RequestError { error: reason }),
            Answer::Text { error: Some(error), .. } => Err(
                Error::LastFmError { message: error.message },
            ),
            Answer::Text { error: None, value: Err(error) } => Err(Error::JsonError { error }),
            Answer::Text { error: None, value: Ok(value) } => Ok(value),
        }
    }

    /// A text that does not read as an error is an acknowledgement, whatever
    /// else it reads as.
    pub open spec fn acknowledgement(self) -> AppResult<()> {
        match self {
            Answer::Missing { reason } => Err(Error::RequestError { error: reason }),
            Answer::Text { error: Some(error), .. } => Err(
                Error::LastFmError { message: error.message },
            ),
            Answer::Text { error: None, .. } => Ok(()),
        }
    }

    /// Reads the answer to a request that only asks to be taken note of.
    pub fn acknowledge(self) -> (result: AppResult<()>)
        ensures
            result == self.acknowledgement(),
    {
        match self {
            Answer::Missing { reason } => Err(Error::RequestError { error: reason }),
            Answer::Text { error: Some(error), .. } => Err(
                Error::LastFmError { message: error.message },
            ),
            Answer::Text { error: None, .. } => Ok(()),
        }
    }
}

/// A refusal is reported as one, in the words of Last.fm, whatever else the
/// text may read as; so is an answer that never came. Only an answer that is
/// neither counts as success.
pub proof fn lemma_refusal_is_reported<T>(answer: Answer<T>)
    ensures
        answer matches Answer::Text { error: Some(refusal), .. } ==> {
            &&& answer.reading() == Err::<T, Error>(
                Error::LastFmError { message: refusal.message },
            )
            &&& answer.acknowledgement() == Err::<(), Error>(
                Error::LastFmError { message: refusal.message },
            )
        },
        answer matches Answer::Missing { reason } ==> {
            &&& answer.reading() == Err::<T, Error>(Error::RequestError { error: reason })
            &&& answer.acknowledgement() == Err::<(), Error>(Error::RequestError { error: reason })
        },
        answer.reading() is Ok ==> answer.acknowledgement() is Ok,
        answer.acknowledgement() is Ok <==> answer matches Answer::Text { error: None, .. },
{
}

/// What a request tells is what it sends: every parameter, by its name and its
/// value, in the order in which it is sent.
pub proof fn lemma_request_tells_what_it_sends(request: Request, i: int)
    ensures
        request.pairs().len() == request.params@.len(),
        0 <= i < request.params@.len() ==> request.pairs()[i].0 == request.params@[i].0@
            && request.pairs()[i].1 == request.params@[i].1@,
{
}

/// What is told of a track: its artist's name and its album's title as they
/// are, a stand-in for a name that is not known, and nothing for a title that
/// is not.
pub proof fn lemma_track_texts(track: Track)
    ensures
        track.artist_name matches Some(name) ==> track.artist_text() == name@,
        track.artist_name is None ==> track.artist_text() == "Unknown Artist"@,
        track.album_title matches Some(title) ==> track.album_text() == title@,
        track.album_title is None ==> track.album_text().len() == 0,
{
    reveal_strlit("");
}

/// A text that does not read as an error is taken as it reads: for its value
/// where there is one, and else for a text that cannot be understood. To have
/// been taken note of, it need not be understood.
pub proof fn lemma_value_is_kept<T>(value: T, reason: String)
    ensures
        (Answer::Text { error: None, value: Ok(value) }).reading() == Ok::<T, Error>(value),
        (Answer::<T>::Text { error: None, value: Err(reason) }).reading() == Err::<T, Error>(
            Error::JsonError { error: reason },
        ),
        (Answer::Text { error: None, value: Ok(value) }).acknowledgement() == Ok::<(), Error>(()),
        (Answer::<T>::Text { error: None, value: Err(reason) }).acknowledgement() == Ok::<
            (),
            Error,
        >(()),
{
}

} // verus!
