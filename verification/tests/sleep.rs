use qobuz_player::sleep::{keep_awake_request, SleepAction, SleepInhibitor, StatusChange};
use qobuz_player::Status;

/// Plays the operating system, which grants every request but those refused.
fn react(inhibitor: &mut SleepInhibitor<u32>, change: StatusChange, granted: Option<u32>) -> SleepAction {
    let action = inhibitor.action(change);
    match action {
        SleepAction::Block => inhibitor.block_sleep(granted),
        SleepAction::Keep => {}
        SleepAction::Restore | SleepAction::Stop => {
            inhibitor.restore_sleep();
        }
    }
    action
}

#[test]
fn request_for_the_operating_system() {
    let request = keep_awake_request();
    assert!(request.idle && request.sleep);
    assert_eq!(request.reason, "Audio playback");
    assert_eq!(request.app_name, "qobuz-player");
}

#[test]
fn awake_exactly_while_playing() {
    let mut inhibitor = SleepInhibitor::new();
    let playing = StatusChange::Changed(Status::Playing);
    let buffering = StatusChange::Changed(Status::Buffering);
    let paused = StatusChange::Changed(Status::Paused);
    assert_eq!(react(&mut inhibitor, paused, Some(1)), SleepAction::Restore);
    assert_eq!(react(&mut inhibitor, buffering, Some(2)), SleepAction::Block);
    assert_eq!(react(&mut inhibitor, playing, Some(3)), SleepAction::Keep);
    assert_eq!(react(&mut inhibitor, paused, Some(4)), SleepAction::Restore);
    assert_eq!(inhibitor.restore_sleep(), None);
    assert_eq!(react(&mut inhibitor, playing, Some(5)), SleepAction::Block);
    assert_eq!(react(&mut inhibitor, StatusChange::Closed, Some(6)), SleepAction::Stop);
    assert_eq!(inhibitor.restore_sleep(), None);
}

#[test]
fn a_refused_request_is_repeated() {
    let mut inhibitor = SleepInhibitor::new();
    let playing = StatusChange::Changed(Status::Playing);
    assert_eq!(react(&mut inhibitor, playing, None), SleepAction::Block);
    assert_eq!(react(&mut inhibitor, playing, Some(1)), SleepAction::Block);
    assert_eq!(react(&mut inhibitor, playing, Some(2)), SleepAction::Keep);
    assert_eq!(inhibitor.restore_sleep(), Some(1));
}

#[test]
fn a_held_promise_is_not_replaced() {
    let mut inhibitor = SleepInhibitor::new();
    inhibitor.block_sleep(Some(1));
    inhibitor.block_sleep(Some(2));
    assert_eq!(inhibitor.restore_sleep(), Some(1));
}

#[test]
fn a_player_is_paused_at_first() {
    assert_eq!(Status::default(), Status::Paused);
}
