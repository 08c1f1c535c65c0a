//! Keeping the computer awake while music plays.

use crate::Status;
use vstd::prelude::*;

verus! {

/// What is heard of the player.
#[derive(Debug, Clone, Copy, PartialEq, Eq, Structural)]
pub enum StatusChange {
    /// The player's status is now this.
    Changed(Status),
    /// The player is gone.
    Closed,
}

/// What the operating system is asked for.
#[derive(Debug)]
pub struct KeepAwakeRequest {
    /// Whether to prevent sleep for want of input.
    pub idle: bool,
    /// Whether to prevent sleep altogether.
    pub sleep: bool,
    pub reason: String,
    pub app_name: String,
}

/// The request of this player.
pub fn keep_awake_request() -> (request: KeepAwakeRequest)
    ensures
        request.idle,
        request.sleep,
        request.reason@ == "Audio playback"@,
        request.app_name@ == "qobuz-player"@,
{
    KeepAwakeRequest {
        idle: true,
        sleep: true,
        reason: "Audio playback".to_owned(),
        app_name: "qobuz-player".to_owned(),
    }
}

/// What is to be done after a [`StatusChange`].
#[derive(Debug, Clone, Copy, PartialEq, Eq, Structural)]
pub enum SleepAction {
    /// Make a [`keep_awake_request`] and hand the outcome to
    /// [`SleepInhibitor::block_sleep`].
    Block,
    /// Nothing: sleep is prevented already.
    Keep,
    /// Call [`SleepInhibitor::restore_sleep`].
    Restore,
    /// Call [`SleepInhibitor::restore_sleep`] and listen no longer.
    Stop,
}

/// Whether the computer should stay awake while the player has this status.
pub open spec fn needs_awake(status: Status) -> bool {
    status != Status::Paused
}

/// What is to be done where `held` is held.
pub open spec fn action_on<H>(held: Option<H>, change: StatusChange) -> SleepAction {
    match change {
        StatusChange::Closed => SleepAction::Stop,
        StatusChange::Changed(status) => if !needs_awake(status) {
            SleepAction::Restore
        } else if held is None {
            SleepAction::Block
        } else {
            SleepAction::Keep
        },
    }
}

/// What is held once a request has been answered with `created`.
pub open spec fn blocked<H>(held: Option<H>, created: Option<H>) -> Option<H> {
    if held is None {
        created
    } else {
        held
    }
}

/// What is held after `change`, where a request would be answered with `created`.
pub open spec fn held_after<H>(
    held: Option<H>,
    change: StatusChange,
    created: Option<H>,
) -> Option<H> {
    match action_on(held, change) {
        SleepAction::Block => blocked(held, created),
        SleepAction::Keep => held,
        SleepAction::Restore => None,
        SleepAction::Stop => None,
    }
}

/// Holds on to the operating system's promise not to sleep: a value of type
/// `H` that withdraws the promise when it is dropped.
pub struct SleepInhibitor<H> {
    awake: Option<H>,
}

impl<H> View for SleepInhibitor<H> {
    type V = Option<H>;

    closed spec fn view(&self) -> Option<H> {
        self.awake
    }
}

impl<H> SleepInhibitor<H> {
    /// Holds no promise yet.
    pub fn new() -> (inhibitor: SleepInhibitor<H>)
        ensures
            inhibitor@ == None::<H>,
    {
        SleepInhibitor { awake: None }
    }

    /// What is to be done after `change`.
    pub fn action(&self, change: StatusChange) -> (action: SleepAction)
        ensures
            action == action_on(self@, change),
    {
        match change {
            StatusChange::Closed => SleepAction::Stop,
            StatusChange::Changed(Status::Paused) => SleepAction::Restore,
            StatusChange::Changed(_) => if self.awake.is_none() {
                SleepAction::Block
            } else {
                SleepAction::Keep
            },
        }
    }

    /// Holds on to `created`, unless a promise is held already. `None` means
    /// that the request failed: then nothing changes.
    pub fn block_sleep(&mut self, created: Option<H>)
        ensures
            final(self)@ == blocked(old(self)@, created),
    {
        if self.awake.is_none() {
            self.awake = created;
        }
    }

    /// Lets go of the promise, if one is held, and hands it out to be dropped.
    pub fn restore_sleep(&mut self) -> (released: Option<H>)
        ensures
            final(self)@ == None::<H>,
            released == old(self)@,
    {
        self.awake.take()
    }
}

/// What is held after a series of changes, each with the answer that a
/// request made then would get.
pub open spec fn held_after_all<H>(events: Seq<(StatusChange, Option<H>)>) -> Option<H>
    decreases events.len(),
{
    if events.len() == 0 {
        None
    } else {
        held_after(held_after_all(events.drop_last()), events.last().0, events.last().1)
    }
}

/// Where every request is granted, the computer is kept awake exactly while
/// the player plays or buffers.
pub proof fn lemma_awake_while_playing<H>(events: Seq<(StatusChange, Option<H>)>)
    requires
        forall|i: int| 0 <= i < events.len() ==> (#[trigger] events[i]).1 is Some,
    ensures
        held_after_all(events) is Some <==> events.len() > 0 && match events.last().0 {
            StatusChange::Changed(status) => needs_awake(status),
            StatusChange::Closed => false,
        },
{
    if events.len() > 0 {
        assert(events[events.len() - 1].1 is Some);
    }
}

/// Whatever the requests are answered, nothing is held while the player is
/// paused or gone.
pub proof fn lemma_asleep_when_paused<H>(events: Seq<(StatusChange, Option<H>)>)
    requires
        events.len() > 0,
        events.last().0 == StatusChange::Closed || events.last().0 == StatusChange::Changed(
            Status::Paused,
        ),
    ensures
        held_after_all(events) is None,
{
}

/// No second promise is asked for while one is held: as long as the player
/// plays or buffers, the one that is held stays.
pub proof fn lemma_one_promise_at_a_time<H>(held: H, status: Status, created: Option<H>)
    requires
        needs_awake(status),
    ensures
        action_on(Some(held), StatusChange::Changed(status)) == SleepAction::Keep,
        held_after(Some(held), StatusChange::Changed(status), created) == Some(held),
{
}

/// A request that failed is made again at the next change, if the player
/// still plays or buffers then.
pub proof fn lemma_failed_request_is_repeated<H>(first: Status, next: Status)
    requires
        needs_awake(first),
        needs_awake(next),
    ensures
        action_on(
            held_after(None::<H>, StatusChange::Changed(first), None),
            StatusChange::Changed(next),
        ) == SleepAction::Block,
{
}

/// What each change leads to. While the player plays or buffers, a promise
/// that is held is kept, and where none is held one is asked for and, if it is
/// granted, held. When the player is paused or gone, nothing is held any more;
/// it is listened to until it is gone.
pub proof fn lemma_what_a_change_leads_to<H>(held: Option<H>, created: Option<H>, kept: H)
    ensures
        forall|status: Status|
            #![trigger action_on(held, StatusChange::Changed(status))]
            status == Status::Playing || status == Status::Buffering ==> {
                &&& action_on(held, StatusChange::Changed(status)) == (if held is Some {
                    SleepAction::Keep
                } else {
                    SleepAction::Block
                })
                &&& held_after(Some(kept), StatusChange::Changed(status), created) == Some(kept)
                &&& held_after(None, StatusChange::Changed(status), created) == created
            },
        action_on(held, StatusChange::Changed(Status::Paused)) == SleepAction::Restore,
        action_on(held, StatusChange::Closed) == SleepAction::Stop,
        held_after(held, StatusChange::Changed(Status::Paused), created) is None,
        held_after(held, StatusChange::Closed, created) is None,
        blocked(Some(kept), created) == Some(kept),
        blocked(None, created) == created,
{
}

} // verus!
