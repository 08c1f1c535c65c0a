//! The parameters of each Last.fm request: which are signed, which are sent,
//! and that they are the same.

use crate::lastfm::{Account, Track};
use crate::params;
use crate::params::Pair;
use crate::text;
use vstd::prelude::*;
use vstd::string::*;

verus! {

/// The signed parameters of a request for an authentication token.
pub open spec fn auth_token_signed(account: Account) -> Seq<Pair> {
    seq![("api_key"@, account.api_key), ("method"@, "auth.getToken"@)]
}

/// What a request for an authentication token sends.
pub open spec fn auth_token_sent(account: Account, sig: Seq<char>) -> Seq<Pair> {
    seq![
        ("method"@, "auth.getToken"@),
        ("api_key"@, account.api_key),
        ("api_sig"@, sig),
        ("format"@, "json"@),
    ]
}

/// The signed parameters of a request for a session.
pub open spec fn session_signed(account: Account, token: Seq<char>) -> Seq<Pair> {
    seq![("api_key"@, account.api_key), ("method"@, "auth.getSession"@), ("token"@, token)]
}

/// What a request for a session sends.
pub open spec fn session_sent(account: Account, token: Seq<char>, sig: Seq<char>) -> Seq<Pair> {
    seq![
        ("method"@, "auth.getSession"@),
        ("api_key"@, account.api_key),
        ("token"@, token),
        ("api_sig"@, sig),
        ("format"@, "json"@),
    ]
}

/// The album parameter, which is left out where there is no title.
pub open spec fn album_pairs(track: &Track) -> Seq<Pair> {
    if track.album_text().len() == 0 {
        Seq::empty()
    } else {
        seq![("album"@, track.album_text())]
    }
}

/// The signed parameters of a now-playing notice.
pub open spec fn now_playing_signed(
    account: Account,
    session_key: Seq<char>,
    track: &Track,
) -> Seq<Pair> {
    album_pairs(track) + seq![
        ("api_key"@, account.api_key),
        ("artist"@, track.artist_text()),
        ("duration"@, text::decimal(track.duration_seconds as nat)),
        ("method"@, "track.updateNowPlaying"@),
        ("sk"@, session_key),
        ("track"@, track.title@),
    ]
}

/// What a now-playing notice sends.
pub open spec fn now_playing_sent(
    account: Account,
    session_key: Seq<char>,
    track: &Track,
    sig: Seq<char>,
) -> Seq<Pair> {
    seq![
        ("method"@, "track.updateNowPlaying"@),
        ("api_key"@, account.api_key),
        ("sk"@, session_key),
        ("artist"@, track.artist_text()),
        ("track"@, track.title@),
        ("duration"@, text::decimal(track.duration_seconds as nat)),
        ("api_sig"@, sig),
        ("format"@, "json"@),
    ] + album_pairs(track)
}

/// The signed parameters of a scrobble.
pub open spec fn scrobble_signed(
    account: Account,
    session_key: Seq<char>,
    track: &Track,
    timestamp: u64,
) -> Seq<Pair> {
    album_pairs(track) + seq![
        ("api_key"@, account.api_key),
        ("artist"@, track.artist_text()),
        ("duration"@, text::decimal(track.duration_seconds as nat)),
        ("method"@, "track.scrobble"@),
        ("sk"@, session_key),
        ("timestamp"@, text::decimal(timestamp as nat)),
        ("track"@, track.title@),
    ]
}

/// What a scrobble sends.
pub open spec fn scrobble_sent(
    account: Account,
    session_key: Seq<char>,
    track: &Track,
    timestamp: u64,
    sig: Seq<char>,
) -> Seq<Pair> {
    seq![
        ("method"@, "track.scrobble"@),
        ("api_key"@, account.api_key),
        ("sk"@, session_key),
        ("artist"@, track.artist_text()),
        ("track"@, track.title@),
        ("timestamp"@, text::decimal(timestamp as nat)),
        ("duration"@, text::decimal(track.duration_seconds as nat)),
        ("api_sig"@, sig),
        ("format"@, "json"@),
    ] + album_pairs(track)
}

/// The parameter names that occur in signed requests, in their order.
pub(crate) proof fn lemma_names_ascend()
    ensures
        text::text_before("album"@, "api_key"@),
        text::text_before("api_key"@, "artist"@),
        text::text_before("api_key"@, "method"@),
        text::text_before("artist"@, "duration"@),
        text::text_before("duration"@, "method"@),
        text::text_before("method"@, "sk"@),
        text::text_before("method"@, "token"@),
        text::text_before("sk"@, "timestamp"@),
        text::text_before("sk"@, "track"@),
        text::text_before("timestamp"@, "track"@),
{
    reveal_strlit("album");
    reveal_strlit("api_key");
    reveal_strlit("artist");
    reveal_strlit("duration");
    reveal_strlit("method");
    reveal_strlit("sk");
    reveal_strlit("timestamp");
    reveal_strlit("token");
    reveal_strlit("track");
    text::lemma_ascii_before_at("album"@, "api_key"@, 1);
    text::lemma_ascii_before_at("api_key"@, "artist"@, 1);
    text::lemma_ascii_before_at("api_key"@, "method"@, 0);
    text::lemma_ascii_before_at("artist"@, "duration"@, 0);
    text::lemma_ascii_before_at("duration"@, "method"@, 0);
    text::lemma_ascii_before_at("method"@, "sk"@, 0);
    text::lemma_ascii_before_at("method"@, "token"@, 0);
    text::lemma_ascii_before_at("sk"@, "timestamp"@, 0);
    text::lemma_ascii_before_at("sk"@, "track"@, 0);
    text::lemma_ascii_before_at("timestamp"@, "track"@, 1);
}

/// What tells the parameter names apart: their lengths and a few characters.
pub(crate) proof fn lemma_names_differ()
    ensures
        "album"@.len() == 5,
        "api_key"@.len() == 7,
        "api_sig"@.len() == 7,
        "artist"@.len() == 6,
        "duration"@.len() == 8,
        "format"@.len() == 6,
        "method"@.len() == 6,
        "sk"@.len() == 2,
        "timestamp"@.len() == 9,
        "token"@.len() == 5,
        "track"@.len() == 5,
        "album"@[0] == 'a',
        "api_key"@[0] == 'a',
        "api_sig"@[0] == 'a',
        "artist"@[0] == 'a',
        "duration"@[0] == 'd',
        "format"@[0] == 'f',
        "method"@[0] == 'm',
        "sk"@[0] == 's',
        "timestamp"@[0] == 't',
        "token"@[0] == 't',
        "track"@[0] == 't',
        "api_key"@[4] == 'k',
        "api_sig"@[4] == 's',
        "token"@[1] == 'o',
        "track"@[1] == 'r',
{
    reveal_strlit("album");
    reveal_strlit("api_key");
    reveal_strlit("api_sig");
    reveal_strlit("artist");
    reveal_strlit("duration");
    reveal_strlit("format");
    reveal_strlit("method");
    reveal_strlit("sk");
    reveal_strlit("timestamp");
    reveal_strlit("token");
    reveal_strlit("track");
}

/// The album parameter as a map.
pub open spec fn album_map(track: &Track) -> Map<Seq<char>, Seq<char>> {
    if track.album_text().len() == 0 {
        Map::empty()
    } else {
        Map::empty().insert("album"@, track.album_text())
    }
}

/// The parameter for the time at which a track began, where there is one.
pub open spec fn timestamp_pairs(timestamp: Option<u64>) -> Seq<Pair> {
    match timestamp {
        Some(started) => seq![("timestamp"@, text::decimal(started as nat))],
        None => Seq::empty(),
    }
}

/// What the signed parameters of a now-playing notice and of a scrobble have
/// in common: they differ in the method, and in whether they tell the time.
pub open spec fn track_signed(
    account: Account,
    session_key: Seq<char>,
    track: &Track,
    method: Seq<char>,
    timestamp: Option<u64>,
) -> Seq<Pair> {
    album_pairs(track) + seq![
        ("api_key"@, account.api_key),
        ("artist"@, track.artist_text()),
        ("duration"@, text::decimal(track.duration_seconds as nat)),
        ("method"@, method),
        ("sk"@, session_key),
    ] + timestamp_pairs(timestamp) + seq![("track"@, track.title@)]
}

/// The map that [`track_signed`] stands for.
pub open spec fn track_map(
    account: Account,
    session_key: Seq<char>,
    track: &Track,
    method: Seq<char>,
    timestamp: Option<u64>,
) -> Map<Seq<char>, Seq<char>> {
    let timeless = album_map(track).insert("api_key"@, account.api_key).insert(
        "artist"@,
        track.artist_text(),
    ).insert("duration"@, text::decimal(track.duration_seconds as nat)).insert(
        "method"@,
        method,
    ).insert("sk"@, session_key);
    let timed = match timestamp {
        Some(started) => timeless.insert("timestamp"@, text::decimal(started as nat)),
        None => timeless,
    };
    timed.insert("track"@, track.title@)
}

/// The signed parameters of a request about a track are in order, and what
/// map they stand for.
pub(crate) proof fn lemma_track_signed(
    account: Account,
    session_key: Seq<char>,
    track: &Track,
    method: Seq<char>,
    timestamp: Option<u64>,
)
    ensures
        params::in_key_order(track_signed(account, session_key, track, method, timestamp)),
        params::as_map(track_signed(account, session_key, track, method, timestamp)) == track_map(
            account,
            session_key,
            track,
            method,
            timestamp,
        ),
        method == "track.updateNowPlaying"@ && timestamp is None ==> track_signed(
            account,
            session_key,
            track,
            method,
            timestamp,
        ) == now_playing_signed(account, session_key, track),
        method == "track.scrobble"@ && timestamp is Some ==> track_signed(
            account,
            session_key,
            track,
            method,
            timestamp,
        ) == scrobble_signed(account, session_key, track, timestamp->0),
{
    lemma_names_ascend();
    let duration = text::decimal(track.duration_seconds as nat);
    let s0 = album_pairs(track);
    assert(params::as_map(s0) == album_map(track)) by {
        reveal_with_fuel(params::as_map, 2);
        if track.album_text().len() != 0 {
            assert(s0.drop_last() == Seq::<Pair>::empty());
        }
    }
    let s1 = s0.push(("api_key"@, account.api_key));
    let s2 = s1.push(("artist"@, track.artist_text()));
    let s3 = s2.push(("duration"@, duration));
    let s4 = s3.push(("method"@, method));
    let s5 = s4.push(("sk"@, session_key));
    params::lemma_key_order_push(s0, ("api_key"@, account.api_key));
    params::lemma_key_order_push(s1, ("artist"@, track.artist_text()));
    params::lemma_key_order_push(s2, ("duration"@, duration));
    params::lemma_key_order_push(s3, ("method"@, method));
    params::lemma_key_order_push(s4, ("sk"@, session_key));
    let s6 = s5 + timestamp_pairs(timestamp);
    match timestamp {
        Some(started) => {
            let timed = ("timestamp"@, text::decimal(started as nat));
            params::lemma_key_order_push(s5, timed);
            assert(s6 == s5.push(timed));
        },
        None => {
            assert(s6 == s5);
        },
    }
    params::lemma_key_order_push(s6, ("track"@, track.title@));
    let signed = track_signed(account, session_key, track, method, timestamp);
    assert(s6.push(("track"@, track.title@)) == signed);
    if timestamp is None && method == "track.updateNowPlaying"@ {
        assert(signed =~= now_playing_signed(account, session_key, track));
    }
    if timestamp is Some && method == "track.scrobble"@ {
        assert(signed =~= scrobble_signed(account, session_key, track, timestamp->0));
    }
}

/// Whether `sent` is exactly what `signed` holds, with the signature `sig` and
/// the wish for JSON added, and no name twice.
pub open spec fn carries(sent: Seq<Pair>, signed: Seq<Pair>, sig: Seq<char>) -> bool {
    let map = params::as_map(sent);
    &&& map.contains_pair("api_sig"@, sig)
    &&& map.contains_pair("format"@, "json"@)
    &&& map.remove("api_sig"@).remove("format"@) == params::as_map(signed)
    &&& forall|i: int, j: int|
        0 <= i < j < sent.len() ==> #[trigger] sent[i].0 != #[trigger] sent[j].0
}

/// A request for an authentication token is signed whole: the signature is
/// taken over everything that is sent but itself and the format.
pub proof fn lemma_auth_token_signed_whole(account: Account, sig: Seq<char>)
    ensures
        carries(auth_token_sent(account, sig), auth_token_signed(account), sig),
        params::in_key_order(auth_token_signed(account)),
{
    lemma_names_ascend();
    lemma_names_differ();
    params::lemma_as_map_push();
    let sent = Seq::<Pair>::empty()
        .push(("method"@, "auth.getToken"@))
        .push(("api_key"@, account.api_key))
        .push(("api_sig"@, sig))
        .push(("format"@, "json"@));
    assert(sent == auth_token_sent(account, sig));
    let signed = Seq::<Pair>::empty()
        .push(("api_key"@, account.api_key))
        .push(("method"@, "auth.getToken"@));
    assert(signed == auth_token_signed(account));
    let map = params::as_map(sent);
    assert(map.remove("api_sig"@).remove("format"@) =~= params::as_map(signed));
}

/// A request for a session is signed whole: the signature is taken over
/// everything that is sent but itself and the format.
pub proof fn lemma_session_signed_whole(account: Account, token: Seq<char>, sig: Seq<char>)
    ensures
        carries(session_sent(account, token, sig), session_signed(account, token), sig),
        params::in_key_order(session_signed(account, token)),
{
    lemma_names_ascend();
    lemma_names_differ();
    params::lemma_as_map_push();
    params::lemma_order_all();
    let sent = Seq::<Pair>::empty()
        .push(("method"@, "auth.getSession"@))
        .push(("api_key"@, account.api_key))
        .push(("token"@, token))
        .push(("api_sig"@, sig))
        .push(("format"@, "json"@));
    assert(sent == session_sent(account, token, sig));
    let signed = Seq::<Pair>::empty()
        .push(("api_key"@, account.api_key))
        .push(("method"@, "auth.getSession"@))
        .push(("token"@, token));
    assert(signed == session_signed(account, token));
    let map = params::as_map(sent);
    assert(map.remove("api_sig"@).remove("format"@) =~= params::as_map(signed));
}

/// A now-playing notice is signed whole: the signature is taken over
/// everything that is sent but itself and the format. It is sent in the given
/// session, and names an album if and only if the track has a title for one.
pub proof fn lemma_now_playing_signed_whole(
    account: Account,
    session_key: Seq<char>,
    track: &Track,
    sig: Seq<char>,
)
    ensures
        carries(
            now_playing_sent(account, session_key, track, sig),
            now_playing_signed(account, session_key, track),
            sig,
        ),
        params::in_key_order(now_playing_signed(account, session_key, track)),
        params::as_map(now_playing_sent(account, session_key, track, sig)).contains_pair(
            "sk"@,
            session_key,
        ),
        params::as_map(now_playing_sent(account, session_key, track, sig)).dom().contains("album"@)
            <==> track.album_text().len() > 0,
{
    lemma_track_signed(account, session_key, track, "track.updateNowPlaying"@, None);
    lemma_names_differ();
    params::lemma_as_map_push();
    let sent = now_playing_sent(account, session_key, track, sig);
    let base = Seq::<Pair>::empty()
        .push(("method"@, "track.updateNowPlaying"@))
        .push(("api_key"@, account.api_key))
        .push(("sk"@, session_key))
        .push(("artist"@, track.artist_text()))
        .push(("track"@, track.title@))
        .push(("duration"@, text::decimal(track.duration_seconds as nat)))
        .push(("api_sig"@, sig))
        .push(("format"@, "json"@));
    if track.album_text().len() == 0 {
        assert(sent == base);
    } else {
        assert(sent == base.push(("album"@, track.album_text())));
    }
    let map = params::as_map(sent);
    assert(map.remove("api_sig"@).remove("format"@) =~= params::as_map(
        now_playing_signed(account, session_key, track),
    ));
}

/// A scrobble is signed whole: the signature is taken over everything that is
/// sent but itself and the format. It is sent in the given session, tells the
/// time at which the track began, and names an album if and only if the track
/// has a title for one.
pub proof fn lemma_scrobble_signed_whole(
    account: Account,
    session_key: Seq<char>,
    track: &Track,
    timestamp: u64,
    sig: Seq<char>,
)
    ensures
        carries(
            scrobble_sent(account, session_key, track, timestamp, sig),
            scrobble_signed(account, session_key, track, timestamp),
            sig,
        ),
        params::in_key_order(scrobble_signed(account, session_key, track, timestamp)),
        params::as_map(scrobble_sent(account, session_key, track, timestamp, sig)).contains_pair(
            "sk"@,
            session_key,
        ),
        params::as_map(scrobble_sent(account, session_key, track, timestamp, sig)).contains_pair(
            "timestamp"@,
            text::decimal(timestamp as nat),
        ),
        params::as_map(scrobble_sent(account, session_key, track, timestamp, sig)).dom().contains(
            "album"@,
        ) <==> track.album_text().len() > 0,
{
    lemma_track_signed(account, session_key, track, "track.scrobble"@, Some(timestamp));
    lemma_names_differ();
    params::lemma_as_map_push();
    let sent = scrobble_sent(account, session_key, track, timestamp, sig);
    let base = Seq::<Pair>::empty()
        .push(("method"@, "track.scrobble"@))
        .push(("api_key"@, account.api_key))
        .push(("sk"@, session_key))
        .push(("artist"@, track.artist_text()))
        .push(("track"@, track.title@))
        .push(("timestamp"@, text::decimal(timestamp as nat)))
        .push(("duration"@, text::decimal(track.duration_seconds as nat)))
        .push(("api_sig"@, sig))
        .push(("format"@, "json"@));
    if track.album_text().len() == 0 {
        assert(sent == base);
    } else {
        assert(sent == base.push(("album"@, track.album_text())));
    }
    let map = params::as_map(sent);
    assert(map.remove("api_sig"@).remove("format"@) =~= params::as_map(
        scrobble_signed(account, session_key, track, timestamp),
    ));
}

/// What a request for an authentication token tells Last.fm: the method, the
/// application's key, the signature and the wish for JSON, and nothing else.
/// What is signed is what is told but the last two, in the order of the names.
pub proof fn lemma_auth_token_tells(account: Account, sig: Seq<char>)
    ensures
        ({
            let sent = auth_token_sent(account, sig);
            let signed = auth_token_signed(account);
            let map = params::as_map(sent);
            &&& map.contains_pair("method"@, "auth.getToken"@)
            &&& map.contains_pair("api_key"@, account.api_key)
            &&& map.contains_pair("api_sig"@, sig)
            &&& map.contains_pair("format"@, "json"@)
            &&& forall|name: Seq<char>|
                #[trigger] map.dom().contains(name) <==> (name == "method"@
                || name == "api_key"@
                || name == "api_sig"@
                || name == "format"@)
            &&& params::as_map(signed) == map.remove("api_sig"@).remove("format"@)
            &&& forall|i: int, j: int|
                0 <= i < j < signed.len() ==> text::text_before(
                    #[trigger] signed[i].0,
                    #[trigger] signed[j].0,
                )
            &&& forall|i: int, j: int|
                0 <= i < j < sent.len() ==> #[trigger] sent[i].0 != #[trigger] sent[j].0
        }),
{
    lemma_auth_token_signed_whole(account, sig);
    lemma_names_differ();
    params::lemma_as_map_push();
    let sent = Seq::<Pair>::empty()
        .push(("method"@, "auth.getToken"@))
        .push(("api_key"@, account.api_key))
        .push(("api_sig"@, sig))
        .push(("format"@, "json"@));
    assert(sent == auth_token_sent(account, sig));
}

/// What a request for a session tells Last.fm: the method, the application's
/// key, the token, the signature and the wish for JSON, and nothing else. What
/// is signed is what is told but the last two, in the order of the names.
pub proof fn lemma_session_tells(account: Account, token: Seq<char>, sig: Seq<char>)
    ensures
        ({
            let sent = session_sent(account, token, sig);
            let signed = session_signed(account, token);
            let map = params::as_map(sent);
            &&& map.contains_pair("method"@, "auth.getSession"@)
            &&& map.contains_pair("api_key"@, account.api_key)
            &&& map.contains_pair("token"@, token)
            &&& map.contains_pair("api_sig"@, sig)
            &&& map.contains_pair("format"@, "json"@)
            &&& forall|name: Seq<char>|
                #[trigger] map.dom().contains(name) <==> (name == "method"@
                || name == "api_key"@
                || name == "token"@
                || name == "api_sig"@
                || name == "format"@)
            &&& params::as_map(signed) == map.remove("api_sig"@).remove("format"@)
            &&& forall|i: int, j: int|
                0 <= i < j < signed.len() ==> text::text_before(
                    #[trigger] signed[i].0,
                    #[trigger] signed[j].0,
                )
            &&& forall|i: int, j: int|
                0 <= i < j < sent.len() ==> #[trigger] sent[i].0 != #[trigger] sent[j].0
        }),
{
    lemma_session_signed_whole(account, token, sig);
    lemma_names_differ();
    params::lemma_as_map_push();
    let sent = Seq::<Pair>::empty()
        .push(("method"@, "auth.getSession"@))
        .push(("api_key"@, account.api_key))
        .push(("token"@, token))
        .push(("api_sig"@, sig))
        .push(("format"@, "json"@));
    assert(sent == session_sent(account, token, sig));
}

/// What a now-playing notice tells Last.fm: the method, the application's key,
/// the session, the artist by name (a stand-in only where the name is not
/// known), the title, the length in seconds, the album's own title where there
/// is one, the signature and the wish for JSON, and nothing else. What is
/// signed is what is told but the last two, in the order of the names.
pub proof fn lemma_now_playing_tells(
    account: Account,
    session_key: Seq<char>,
    track: &Track,
    sig: Seq<char>,
)
    ensures
        ({
            let sent = now_playing_sent(account, session_key, track, sig);
            let signed = now_playing_signed(account, session_key, track);
            let map = params::as_map(sent);
            &&& map.contains_pair("method"@, "track.updateNowPlaying"@)
            &&& map.contains_pair("api_key"@, account.api_key)
            &&& map.contains_pair("sk"@, session_key)
            &&& match track.artist_name {
                Some(name) => map.contains_pair("artist"@, name@),
                None => map.contains_pair("artist"@, "Unknown Artist"@),
            }
            &&& map.contains_pair("track"@, track.title@)
            &&& map.contains_pair("duration"@, text::decimal(track.duration_seconds as nat))
            &&& match track.album_title {
                Some(title) => if title@.len() > 0 {
                    map.contains_pair("album"@, title@)
                } else {
                    !map.dom().contains("album"@)
                },
                None => !map.dom().contains("album"@),
            }
            &&& map.contains_pair("api_sig"@, sig)
            &&& map.contains_pair("format"@, "json"@)
            &&& forall|name: Seq<char>|
                #[trigger] map.dom().contains(name) <==> (name == "method"@
                || name == "api_key"@
                || name == "sk"@
                || name == "artist"@
                || name == "track"@
                || name == "duration"@
                || name == "api_sig"@
                || name == "format"@
                || name == "album"@ && track.album_title is Some && track.album_title->0@.len() > 0)
            &&& params::as_map(signed) == map.remove("api_sig"@).remove("format"@)
            &&& forall|i: int, j: int|
                0 <= i < j < signed.len() ==> text::text_before(
                    #[trigger] signed[i].0,
                    #[trigger] signed[j].0,
                )
            &&& forall|i: int, j: int|
                0 <= i < j < sent.len() ==> #[trigger] sent[i].0 != #[trigger] sent[j].0
        }),
{
    lemma_now_playing_signed_whole(account, session_key, track, sig);
    lemma_names_differ();
    params::lemma_as_map_push();
    reveal_strlit("");
    let sent = now_playing_sent(account, session_key, track, sig);
    let base = Seq::<Pair>::empty()
        .push(("method"@, "track.updateNowPlaying"@))
        .push(("api_key"@, account.api_key))
        .push(("sk"@, session_key))
        .push(("artist"@, track.artist_text()))
        .push(("track"@, track.title@))
        .push(("duration"@, text::decimal(track.duration_seconds as nat)))
        .push(("api_sig"@, sig))
        .push(("format"@, "json"@));
    if track.album_text().len() == 0 {
        assert(sent == base);
    } else {
        assert(sent == base.push(("album"@, track.album_text())));
    }
}

/// What a scrobble tells Last.fm: what a now-playing notice does, under its own
/// method, and the time at which the track began.
pub proof fn lemma_scrobble_tells(
    account: Account,
    session_key: Seq<char>,
    track: &Track,
    timestamp: u64,
    sig: Seq<char>,
)
    ensures
        ({
            let sent = scrobble_sent(account, session_key, track, timestamp, sig);
            let signed = scrobble_signed(account, session_key, track, timestamp);
            let map = params::as_map(sent);
            &&& map.contains_pair("method"@, "track.scrobble"@)
            &&& map.contains_pair("api_key"@, account.api_key)
            &&& map.contains_pair("sk"@, session_key)
            &&& match track.artist_name {
                Some(name) => map.contains_pair("artist"@, name@),
                None => map.contains_pair("artist"@, "Unknown Artist"@),
            }
            &&& map.contains_pair("track"@, track.title@)
            &&& map.contains_pair("duration"@, text::decimal(track.duration_seconds as nat))
            &&& map.contains_pair("timestamp"@, text::decimal(timestamp as nat))
            &&& match track.album_title {
                Some(title) => if title@.len() > 0 {
                    map.contains_pair("album"@, title@)
                } else {
                    !map.dom().contains("album"@)
                },
                None => !map.dom().contains("album"@),
            }
            &&& map.contains_pair("api_sig"@, sig)
            &&& map.contains_pair("format"@, "json"@)
            &&& forall|name: Seq<char>|
                #[trigger] map.dom().contains(name) <==> (name == "method"@
                || name == "api_key"@
                || name == "sk"@
                || name == "artist"@
                || name == "track"@
                || name == "timestamp"@
                || name == "duration"@
                || name == "api_sig"@
                || name == "format"@
                || name == "album"@ && track.album_title is Some && track.album_title->0@.len() > 0)
            &&& params::as_map(signed) == map.remove("api_sig"@).remove("format"@)
            &&& forall|i: int, j: int|
                0 <= i < j < signed.len() ==> text::text_before(
                    #[trigger] signed[i].0,
                    #[trigger] signed[j].0,
                )
            &&& forall|i: int, j: int|
                0 <= i < j < sent.len() ==> #[trigger] sent[i].0 != #[trigger] sent[j].0
        }),
{
    lemma_scrobble_signed_whole(account, session_key, track, timestamp, sig);
    lemma_names_differ();
    params::lemma_as_map_push();
    reveal_strlit("");
    let sent = scrobble_sent(account, session_key, track, timestamp, sig);
    let base = Seq::<Pair>::empty()
        .push(("method"@, "track.scrobble"@))
        .push(("api_key"@, account.api_key))
        .push(("sk"@, session_key))
        .push(("artist"@, track.artist_text()))
        .push(("track"@, track.title@))
        .push(("timestamp"@, text::decimal(timestamp as nat)))
        .push(("duration"@, text::decimal(track.duration_seconds as nat)))
        .push(("api_sig"@, sig))
        .push(("format"@, "json"@));
    if track.album_text().len() == 0 {
        assert(sent == base);
    } else {
        assert(sent == base.push(("album"@, track.album_text())));
    }
}

} // verus!
