//! When the track that plays is announced, and when it is scrobbled.

use std::time::UNIX_EPOCH;
use vstd::prelude::*;

verus! {

/// A track shorter than this many seconds is never scrobbled.
pub const MIN_DURATION_SECS: u32 = 30;

/// A track that has played for this many seconds may be scrobbled, however
/// long it is.
pub const LONGEST_WAIT_SECS: u64 = 240;

/// What is known of the track that plays.
pub struct Progress {
    /// The track, if any has begun.
    pub track: Option<u32>,
    /// When it began, in seconds since the Unix epoch.
    pub started: u64,
    /// Whether it has been scrobbled.
    pub scrobbled: bool,
    /// Whether it has been announced.
    pub announced: bool,
}

/// How long a track of `duration` seconds has to play before it is scrobbled:
/// half of it, rounded down, but no longer than [`LONGEST_WAIT_SECS`].
pub open spec fn scrobble_threshold(duration: nat) -> nat {
    if duration / 2 < LONGEST_WAIT_SECS as nat {
        duration / 2
    } else {
        LONGEST_WAIT_SECS as nat
    }
}

impl Progress {
    /// Before any track has begun.
    pub open spec fn initial() -> Progress {
        Progress { track: None, started: 0, scrobbled: false, announced: false }
    }

    /// Track `track_id` has begun at `now`.
    pub open spec fn on_track(self, track_id: u32, now: u64) -> Progress {
        Progress { track: Some(track_id), started: now, scrobbled: false, announced: false }
    }

    /// The track has been announced.
    pub open spec fn on_announced(self) -> Progress {
        Progress { announced: true, ..self }
    }

    /// The track has been scrobbled.
    pub open spec fn on_scrobbled(self) -> Progress {
        Progress { scrobbled: true, ..self }
    }

    /// Whether track `track_id` is to be announced.
    pub open spec fn announce_due(self, track_id: u32) -> bool {
        self.track == Some(track_id) && !self.announced
    }

    /// Whether track `track_id` of `duration` seconds is to be scrobbled after
    /// `position` seconds.
    pub open spec fn scrobble_due(self, track_id: u32, position: u64, duration: u32) -> bool {
        &&& self.track == Some(track_id)
        &&& !self.scrobbled
        &&& duration >= MIN_DURATION_SECS
        &&& position >= scrobble_threshold(duration as nat)
    }
}

/// Reads the system clock: `SystemTime::elapsed` of `UNIX_EPOCH`, in whole
/// seconds. It is `None` where the clock stands before the epoch. Nothing is
/// claimed of the time itself.
#[verifier::external_body]
fn seconds_since_epoch() -> (now: Option<u64>) {
    match UNIX_EPOCH.elapsed() {
        Ok(elapsed) => Some(elapsed.as_secs()),
        Err(_) => None,
    }
}

/// Keeps track of what has been told to Last.fm about the track that plays.
pub struct ScrobbleState {
    current_track_id: Option<u32>,
    track_start_timestamp: u64,
    scrobbled: bool,
    now_playing_sent: bool,
}

impl View for ScrobbleState {
    type V = Progress;

    closed spec fn view(&self) -> Progress {
        Progress {
            track: self.current_track_id,
            started: self.track_start_timestamp,
            scrobbled: self.scrobbled,
            announced: self.now_playing_sent,
        }
    }
}

impl Default for ScrobbleState {
    fn default() -> (state: ScrobbleState)
        ensures
            state@ == Progress::initial(),
    {
        ScrobbleState {
            current_track_id: None,
            track_start_timestamp: 0,
            scrobbled: false,
            now_playing_sent: false,
        }
    }
}

impl ScrobbleState {
    /// Before any track has begun.
    pub fn new() -> (state: ScrobbleState)
        ensures
            state@ == Progress::initial(),
    {
        Self::default()
    }

    /// Track `track_id` begins to play now.
    pub fn track_changed(&mut self, track_id: u32)
        ensures
            exists|now: u64| final(self)@ == #[trigger] old(self)@.on_track(track_id, now),
    {
        let now = seconds_since_epoch();
        self.track_changed_at(track_id, now);
    }

    /// Track `track_id` begins to play at `now`, in seconds since the Unix
    /// epoch. A clock that stands before the epoch counts as the epoch.
    pub fn track_changed_at(&mut self, track_id: u32, now: Option<u64>)
        ensures
            final(self)@ == old(self)@.on_track(
                track_id,
                match now {
                    Some(secs) => secs,
                    None => 0,
                },
            ),
    {
        self.current_track_id = Some(track_id);
        self.track_start_timestamp = match now {
            Some(secs) => secs,
            None => 0,
        };
        self.scrobbled = false;
        self.now_playing_sent = false;
    }

    /// The track has been announced.
    pub fn mark_now_playing_sent(&mut self)
        ensures
            final(self)@ == old(self)@.on_announced(),
    {
        self.now_playing_sent = true;
    }

    /// The track has been scrobbled.
    pub fn mark_scrobbled(&mut self)
        ensures
            final(self)@ == old(self)@.on_scrobbled(),
    {
        self.scrobbled = true;
    }

    /// Whether track `track_id` is to be announced.
    pub fn should_send_now_playing(&self, track_id: u32) -> (due: bool)
        ensures
            due == self@.announce_due(track_id),
    {
        self.is_tracking(track_id) && !self.now_playing_sent
    }

    /// A track of at least [`MIN_DURATION_SECS`] is to be scrobbled once, when
    /// half of it or [`LONGEST_WAIT_SECS`] have played, whichever is less.
    pub fn should_scrobble(&self, track_id: u32, position_secs: u64, duration_secs: u32) -> (due:
        bool)
        ensures
            due == self@.scrobble_due(track_id, position_secs, duration_secs),
    {
        if self.scrobbled || !self.is_tracking(track_id) {
            return false;
        }
        if duration_secs < MIN_DURATION_SECS {
            return false;
        }
        let half_duration = (duration_secs / 2) as u64;
        let scrobble_threshold = if half_duration < LONGEST_WAIT_SECS {
            half_duration
        } else {
            LONGEST_WAIT_SECS
        };
        position_secs >= scrobble_threshold
    }

    /// When the track began, in seconds since the Unix epoch.
    pub fn start_timestamp(&self) -> (started: u64)
        ensures
            started == self@.started,
    {
        self.track_start_timestamp
    }

    /// Whether track `track_id` is the one that plays.
    pub fn is_tracking(&self, track_id: u32) -> (yes: bool)
        ensures
            yes == (self@.track == Some(track_id)),
    {
        match self.current_track_id {
            Some(current) => current == track_id,
            None => false,
        }
    }
}

/// Something that happens to a [`ScrobbleState`].
pub enum Happening {
    Track { track_id: u32, now: u64 },
    Announced,
    Scrobbled,
}

/// What is known after one happening.
pub open spec fn after(progress: Progress, happening: Happening) -> Progress {
    match happening {
        Happening::Track { track_id, now } => progress.on_track(track_id, now),
        Happening::Announced => progress.on_announced(),
        Happening::Scrobbled => progress.on_scrobbled(),
    }
}

/// What is known after a series of happenings.
pub open spec fn after_all(progress: Progress, happenings: Seq<Happening>) -> Progress
    decreases happenings.len(),
{
    if happenings.len() == 0 {
        progress
    } else {
        after(after_all(progress, happenings.drop_last()), happenings.last())
    }
}

/// Whether no track begins in the series.
pub open spec fn same_track(happenings: Seq<Happening>) -> bool {
    forall|i: int| 0 <= i < happenings.len() ==> !(#[trigger] happenings[i] is Track)
}

/// While no track begins, the track and the time at which it began stay, and
/// what has been told once stays told.
pub proof fn lemma_same_track_keeps(progress: Progress, happenings: Seq<Happening>)
    requires
        same_track(happenings),
    ensures
        after_all(progress, happenings).track == progress.track,
        after_all(progress, happenings).started == progress.started,
        progress.scrobbled ==> after_all(progress, happenings).scrobbled,
        progress.announced ==> after_all(progress, happenings).announced,
    decreases happenings.len(),
{
    if happenings.len() > 0 {
        let front = happenings.drop_last();
        assert forall|i: int| 0 <= i < front.len() implies !(#[trigger] front[i] is Track) by {
            assert(front[i] == happenings[i]);
        }
        lemma_same_track_keeps(progress, front);
        assert(!(happenings[happenings.len() - 1] is Track));
    }
}

/// A track that has been scrobbled is not scrobbled again before another
/// begins, whatever is asked and whatever else happens.
pub proof fn lemma_scrobbled_once(
    progress: Progress,
    happenings: Seq<Happening>,
    track_id: u32,
    position: u64,
    duration: u32,
)
    requires
        same_track(happenings),
    ensures
        !after_all(progress.on_scrobbled(), happenings).scrobble_due(track_id, position, duration),
{
    lemma_same_track_keeps(progress.on_scrobbled(), happenings);
}

/// A track that has been announced is not announced again before another begins.
pub proof fn lemma_announced_once(progress: Progress, happenings: Seq<Happening>, track_id: u32)
    requires
        same_track(happenings),
    ensures
        !after_all(progress.on_announced(), happenings).announce_due(track_id),
{
    lemma_same_track_keeps(progress.on_announced(), happenings);
}

/// A track that begins is due to be announced, and is the only one that is
/// tracked; that it was told of before counts no more.
pub proof fn lemma_fresh_track(
    progress: Progress,
    track_id: u32,
    other: u32,
    now: u64,
    position: u64,
    duration: u32,
)
    ensures
        progress.on_track(track_id, now).announce_due(other) <==> other == track_id,
        progress.on_track(track_id, now).scrobble_due(other, position, duration) <==> {
            &&& other == track_id
            &&& duration >= MIN_DURATION_SECS
            &&& position >= scrobble_threshold(duration as nat)
        },
        progress.on_track(track_id, now) == Progress::initial().on_track(track_id, now),
{
}

/// Before any track has begun nothing is due, whatever else happens, and the
/// time is the epoch.
pub proof fn lemma_idle_at_first(
    happenings: Seq<Happening>,
    track_id: u32,
    position: u64,
    duration: u32,
)
    requires
        same_track(happenings),
    ensures
        ({
            let progress = after_all(Progress::initial(), happenings);
            &&& progress.track is None
            &&& progress.started == 0
            &&& !progress.announce_due(track_id)
            &&& !progress.scrobble_due(track_id, position, duration)
        }),
{
    lemma_same_track_keeps(Progress::initial(), happenings);
}

/// A scrobble that is due stays due as the track plays on.
pub proof fn lemma_due_as_it_plays_on(
    progress: Progress,
    track_id: u32,
    position: u64,
    later: u64,
    duration: u32,
)
    requires
        position <= later,
        progress.scrobble_due(track_id, position, duration),
    ensures
        progress.scrobble_due(track_id, later, duration),
{
}

/// Announcing a track has no bearing on when it is scrobbled, nor scrobbling
/// it on whether it is announced.
pub proof fn lemma_marks_are_independent(
    progress: Progress,
    track_id: u32,
    position: u64,
    duration: u32,
)
    ensures
        progress.on_announced().scrobble_due(track_id, position, duration)
            == progress.scrobble_due(track_id, position, duration),
        progress.on_scrobbled().announce_due(track_id) == progress.announce_due(track_id),
        progress.on_announced().on_scrobbled() == progress.on_scrobbled().on_announced(),
{
}

/// A track of thirty seconds or more is due once it has played for four
/// minutes or for half of it, whichever comes first, and not before; half of an
/// odd number of seconds is rounded down. A shorter track is never due.
pub proof fn lemma_threshold(progress: Progress, track_id: u32, position: u64, duration: u32)
    requires
        progress.track == Some(track_id),
        !progress.scrobbled,
    ensures
        progress.scrobble_due(track_id, position, duration) <==> duration >= 30 && (position >= 240
            || 2 * position + 1 >= duration),
{
}

/// What is due follows from what has happened since the track began: it is to
/// be announced until it has been, and to be scrobbled when it has played for
/// long enough until it has been; no other track is. The time at which it
/// began stays.
pub proof fn lemma_due_until_told(
    earlier: Progress,
    track_id: u32,
    now: u64,
    happenings: Seq<Happening>,
    asked: u32,
    position: u64,
    duration: u32,
)
    requires
        same_track(happenings),
    ensures
        ({
            let progress = after_all(earlier.on_track(track_id, now), happenings);
            &&& progress.track == Some(track_id)
            &&& progress.started == now
            &&& progress.announce_due(asked) <==> asked == track_id && forall|i: int|
                0 <= i < happenings.len() ==> !(#[trigger] happenings[i] is Announced)
            &&& progress.scrobble_due(asked, position, duration) <==> {
                &&& asked == track_id
                &&& duration >= 30
                &&& position >= 240 || 2 * position + 1 >= duration
                &&& forall|i: int|
                    0 <= i < happenings.len() ==> !(#[trigger] happenings[i] is Scrobbled)
            }
        }),
    decreases happenings.len(),
{
    if happenings.len() > 0 {
        let front = happenings.drop_last();
        let last = happenings.len() - 1;
        assert forall|i: int| 0 <= i < front.len() implies !(#[trigger] front[i] is Track) by {
            assert(front[i] == happenings[i]);
        }
        lemma_due_until_told(earlier, track_id, now, front, asked, position, duration);
        assert(!(happenings[last] is Track));
        assert(forall|i: int| 0 <= i < front.len() ==> #[trigger] front[i] == happenings[i]);
        assert(forall|i: int| 0 <= i < front.len() ==> #[trigger] happenings[i] == front[i]);
        let told = after_all(earlier.on_track(track_id, now), front);
        assert(after_all(earlier.on_track(track_id, now), happenings) == after(
            told,
            happenings[last],
        ));
        lemma_told(earlier.on_track(track_id, now), happenings);
        lemma_told(earlier.on_track(track_id, now), front);
    }
}

/// What has been told is what was told before, or is told in the series.
proof fn lemma_told(progress: Progress, happenings: Seq<Happening>)
    requires
        same_track(happenings),
    ensures
        after_all(progress, happenings).announced <==> progress.announced || exists|i: int|
            0 <= i < happenings.len() && #[trigger] happenings[i] is Announced,
        after_all(progress, happenings).scrobbled <==> progress.scrobbled || exists|i: int|
            0 <= i < happenings.len() && #[trigger] happenings[i] is Scrobbled,
    decreases happenings.len(),
{
    if happenings.len() > 0 {
        let front = happenings.drop_last();
        let last = happenings.len() - 1;
        assert(forall|i: int| 0 <= i < front.len() ==> #[trigger] front[i] == happenings[i]);
        assert(forall|i: int| 0 <= i < front.len() ==> #[trigger] happenings[i] == front[i]);
        lemma_told(progress, front);
        assert(!(happenings[last] is Track));
        if exists|i: int| 0 <= i < happenings.len() && #[trigger] happenings[i] is Announced {
            let i = choose|i: int| 0 <= i < happenings.len() && #[trigger] happenings[i] is Announced;
            if i < last {
                assert(front[i] is Announced);
            }
        }
        if exists|i: int| 0 <= i < happenings.len() && #[trigger] happenings[i] is Scrobbled {
            let i = choose|i: int| 0 <= i < happenings.len() && #[trigger] happenings[i] is Scrobbled;
            if i < last {
                assert(front[i] is Scrobbled);
            }
        }
    }
}

} // verus!
