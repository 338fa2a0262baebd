use desk_controller::{
    current_panel_key, debounce_panel_key, handle_panel_read, panel_frame_counts, ControlState,
    PanelKeyDebouncer, PanelToDeskMessage,
};

#[test]
fn silent_panel_releases_key() {
    let mut state = ControlState::new();
    let mut debouncer = PanelKeyDebouncer::new(0);
    handle_panel_read(&mut state, &mut debouncer, (Some(PanelToDeskMessage::Up), 0), 5000);
    assert_eq!(current_panel_key(&state), Some(PanelToDeskMessage::Up));
    assert!(!debounce_panel_key(&mut state, &debouncer, 6000));
    assert_eq!(current_panel_key(&state), Some(PanelToDeskMessage::Up));
    assert!(debounce_panel_key(&mut state, &debouncer, 6001));
    assert_eq!(current_panel_key(&state), None);
    assert!(!debounce_panel_key(&mut state, &debouncer, 9000));
}

#[test]
fn no_key_frame_restarts_window() {
    let mut state = ControlState::new();
    let mut debouncer = PanelKeyDebouncer::new(0);
    handle_panel_read(&mut state, &mut debouncer, (Some(PanelToDeskMessage::Up), 0), 1000);
    handle_panel_read(&mut state, &mut debouncer, (Some(PanelToDeskMessage::NoKey), 0), 1900);
    assert!(!debounce_panel_key(&mut state, &debouncer, 2500));
    assert_eq!(current_panel_key(&state), Some(PanelToDeskMessage::NoKey));
    assert!(debounce_panel_key(&mut state, &debouncer, 2901));
    assert_eq!(current_panel_key(&state), None);
}

#[test]
fn timeouts_do_not_restart_window() {
    let mut state = ControlState::new();
    let mut debouncer = PanelKeyDebouncer::new(0);
    handle_panel_read(&mut state, &mut debouncer, (Some(PanelToDeskMessage::Down), 2), 100);
    handle_panel_read(&mut state, &mut debouncer, (None, 0), 900);
    handle_panel_read(&mut state, &mut debouncer, (None, 4), 1000);
    assert!(debounce_panel_key(&mut state, &debouncer, 1101));
    assert_eq!(panel_frame_counts(&state), (1, 6));
}

#[test]
fn panel_key_change_wakes_control_loop() {
    let mut state = ControlState::new();
    let mut debouncer = PanelKeyDebouncer::new(0);
    assert!(!state.take_wake());
    handle_panel_read(&mut state, &mut debouncer, (Some(PanelToDeskMessage::NoKey), 0), 10);
    assert!(state.take_wake());
    handle_panel_read(&mut state, &mut debouncer, (None, 0), 20);
    assert!(!state.take_wake());
}
