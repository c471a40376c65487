use soldag::PollState;

#[test]
fn first_tick_never_raises_catch_up() {
    let mut state = PollState::new();
    assert!(state.previous_height.is_none());
    let request = state.observe(12345);
    assert_eq!(request, None);
    assert_eq!(state.previous_height, Some(12345));
}

#[test]
fn consecutive_height_is_no_gap() {
    let mut state = PollState::new();
    state.observe(100);
    let request = state.observe(101);
    assert_eq!(request, None);
    assert_eq!(state.previous_height, Some(101));
}

#[test]
fn skipped_heights_raise_one_request() {
    let mut state = PollState::new();
    state.observe(100);
    let request = state.observe(105);
    assert_eq!(request, Some((100, 105)));
    assert_eq!(state.previous_height, Some(105));
}

#[test]
fn repeated_height_counts_as_gap() {
    let mut state = PollState::new();
    state.observe(100);
    let request = state.observe(100);
    assert_eq!(request, Some((100, 100)));
}

#[test]
fn zero_previous_height_is_no_gap() {
    let mut state = PollState::new();
    state.observe(0);
    let request = state.observe(7);
    assert_eq!(request, None);
    assert_eq!(state.previous_height, Some(7));
}

#[test]
fn each_gap_is_reported_against_the_latest_height() {
    let mut state = PollState::new();
    state.observe(10);
    assert_eq!(state.observe(20), Some((10, 20)));
    assert_eq!(state.observe(21), None);
    assert_eq!(state.observe(25), Some((21, 25)));
}
