use tetris::input::{Command, CommandState, DropSpeed, RotateDirection, SlideDirection};

#[test]
fn fresh_state_is_idle() {
    let mut state = CommandState::new();
    assert!(matches!(state.get_drop_speed(), DropSpeed::Slow));
    assert!(!state.lock());
    assert!(state.do_slide().is_none());
    assert!(state.do_rotate().is_none());
}

#[test]
fn key_press_requests_slide() {
    let mut state = CommandState::new();
    state.key_press(Command::SlideLeft);
    assert!(matches!(state.do_slide(), Some(SlideDirection::Left)));
}

#[test]
fn opposing_slide_keys_cancel() {
    let mut state = CommandState::new();
    state.key_press(Command::SlideLeft);
    state.key_press(Command::SlideRight);
    // both keys are now down: the slide request is cancelled
    assert!(state.do_slide().is_none());
}

#[test]
fn opposing_rotate_keys_cancel() {
    let mut state = CommandState::new();
    state.key_press(Command::RotateClockwise);
    state.key_press(Command::RotateCounterClockwise);
    assert!(state.do_rotate().is_none());
}

#[test]
fn slide_repeats_while_key_held() {
    let mut state = CommandState::new();
    state.key_press(Command::SlideRight);
    assert!(matches!(state.do_slide(), Some(SlideDirection::Right)));
    assert!(matches!(state.do_slide(), Some(SlideDirection::Right)));
}

#[test]
fn slide_stops_after_release() {
    let mut state = CommandState::new();
    state.key_press(Command::SlideRight);
    state.key_release(Command::SlideRight);
    // the pending request is delivered once more, then cleared
    assert!(matches!(state.do_slide(), Some(SlideDirection::Right)));
    assert!(state.do_slide().is_none());
}

#[test]
fn rotate_stops_after_release() {
    let mut state = CommandState::new();
    state.key_press(Command::RotateClockwise);
    state.key_release(Command::RotateClockwise);
    assert!(matches!(state.do_rotate(), Some(RotateDirection::Clockwise)));
    assert!(state.do_rotate().is_none());
}

#[test]
fn down_fast_tracks_key() {
    let mut state = CommandState::new();
    state.key_press(Command::DownFast);
    assert!(matches!(state.get_drop_speed(), DropSpeed::Fast));
    state.key_release(Command::DownFast);
    assert!(matches!(state.get_drop_speed(), DropSpeed::Slow));
}

#[test]
fn lock_request_sticks_until_cleared() {
    let mut state = CommandState::new();
    state.key_press(Command::Lock);
    assert!(state.lock());
    state.clear_state();
    assert!(!state.lock());
    assert!(matches!(state.get_drop_speed(), DropSpeed::Slow));
}
