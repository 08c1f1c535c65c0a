use qobuz_player::scrobble::ScrobbleState;

fn playing(track_id: u32) -> ScrobbleState {
    let mut state = ScrobbleState::new();
    state.track_changed_at(track_id, Some(1000));
    state
}

#[test]
fn nothing_is_due_at_first() {
    let state = ScrobbleState::new();
    assert!(!state.is_tracking(0));
    assert!(!state.should_send_now_playing(0));
    assert!(!state.should_scrobble(0, u64::MAX, u32::MAX));
    assert_eq!(state.start_timestamp(), 0);
}

#[test]
fn threshold_is_half_of_a_short_track() {
    let state = playing(1);
    assert!(!state.should_scrobble(1, 99, 200));
    assert!(state.should_scrobble(1, 100, 200));
    assert!(!state.should_scrobble(1, 14, 31));
    assert!(state.should_scrobble(1, 15, 31));
}

#[test]
fn threshold_is_four_minutes_of_a_long_track() {
    let state = playing(1);
    assert!(!state.should_scrobble(1, 239, 480));
    assert!(state.should_scrobble(1, 240, 480));
    assert!(!state.should_scrobble(1, 239, u32::MAX));
    assert!(state.should_scrobble(1, 240, u32::MAX));
    assert!(state.should_scrobble(1, 239, 479));
}

#[test]
fn short_tracks_are_never_scrobbled() {
    let state = playing(1);
    assert!(!state.should_scrobble(1, u64::MAX, 29));
    assert!(!state.should_scrobble(1, 0, 0));
    assert!(state.should_scrobble(1, 15, 30));
}

#[test]
fn only_the_current_track_counts() {
    let state = playing(1);
    assert!(state.is_tracking(1));
    assert!(!state.is_tracking(2));
    assert!(state.should_send_now_playing(1));
    assert!(!state.should_send_now_playing(2));
    assert!(!state.should_scrobble(2, 300, 300));
}

#[test]
fn a_track_is_scrobbled_once() {
    let mut state = playing(1);
    assert!(state.should_scrobble(1, 300, 300));
    state.mark_scrobbled();
    assert!(!state.should_scrobble(1, 300, 300));
    state.mark_now_playing_sent();
    assert!(!state.should_scrobble(1, 300, 300));
    state.track_changed_at(1, Some(2000));
    assert!(state.should_scrobble(1, 300, 300));
}

#[test]
fn a_track_is_announced_once() {
    let mut state = playing(1);
    assert!(state.should_send_now_playing(1));
    state.mark_now_playing_sent();
    assert!(!state.should_send_now_playing(1));
    assert!(state.should_scrobble(1, 300, 300));
    state.track_changed_at(2, Some(2000));
    assert!(state.should_send_now_playing(2));
}

#[test]
fn marks_keep_the_start_time() {
    let mut state = playing(1);
    state.mark_now_playing_sent();
    state.mark_scrobbled();
    assert_eq!(state.start_timestamp(), 1000);
    assert!(state.is_tracking(1));
}

#[test]
fn a_clock_before_the_epoch_counts_as_the_epoch() {
    let mut state = playing(1);
    state.track_changed_at(2, None);
    assert_eq!(state.start_timestamp(), 0);
    assert!(state.is_tracking(2));
}

#[test]
fn the_clock_is_read_when_a_track_begins() {
    let seconds = || {
        std::time::SystemTime::now()
            .duration_since(std::time::UNIX_EPOCH)
            .unwrap()
            .as_secs()
    };
    let mut state = ScrobbleState::new();
    let before = seconds();
    state.track_changed(9);
    let after = seconds();
    assert!(before <= state.start_timestamp() && state.start_timestamp() <= after);
    assert!(state.is_tracking(9));
    assert!(state.should_send_now_playing(9));
}
