use desk_controller::{
    clear_target_height, current_height, desk_frame_counts, handle_desk_read, move_to_height,
    panel_frame_counts, target_height, write_to_desk, write_to_panel, ControlState,
    DeskToPanelMessage, PanelToDeskMessage,
};

#[test]
fn below_range_is_rejected() {
    let mut state = ControlState::new();
    let e = move_to_height(&mut state, 645).unwrap_err();
    assert!(e.out_of_range());
    assert!(!e.not_multiple_of_zero_point_five());
    assert_eq!(e.height(), 645);
    assert_eq!(target_height(&state), None);
    assert!(!state.take_wake());
}

#[test]
fn above_range_is_rejected() {
    let mut state = ControlState::new();
    let e = move_to_height(&mut state, 1300).unwrap_err();
    assert!(e.out_of_range());
    assert_eq!(target_height(&state), None);
}

#[test]
fn off_step_is_rejected() {
    let mut state = ControlState::new();
    let e = move_to_height(&mut state, 1003).unwrap_err();
    assert!(!e.out_of_range());
    assert!(e.not_multiple_of_zero_point_five());
    assert_eq!(target_height(&state), None);
}

#[test]
fn in_range_heights_are_accepted() {
    let mut state = ControlState::new();
    assert_eq!(move_to_height(&mut state, 1000), Ok(()));
    assert_eq!(target_height(&state), Some(1000));
    assert!(state.take_wake());
    assert_eq!(move_to_height(&mut state, 1295), Ok(()));
    assert_eq!(target_height(&state), Some(1295));
    assert_eq!(move_to_height(&mut state, 650), Ok(()));
    assert_eq!(target_height(&state), Some(650));
}

#[test]
fn clearing_target() {
    let mut state = ControlState::new();
    move_to_height(&mut state, 1000).unwrap();
    state.take_wake();
    clear_target_height(&mut state);
    assert_eq!(target_height(&state), None);
    assert!(state.take_wake());
}

#[test]
fn desk_reads_update_height_and_counters() {
    let mut state = ControlState::new();
    assert_eq!(current_height(&state), 0);
    let forwarded = handle_desk_read(&mut state, (Some(DeskToPanelMessage::Height(1000)), 3));
    assert_eq!(forwarded, Some(DeskToPanelMessage::Height(1000)));
    assert_eq!(current_height(&state), 1000);
    assert_eq!(desk_frame_counts(&state), (1, 3));
    handle_desk_read(&mut state, (None, 0));
    handle_desk_read(&mut state, (Some(DeskToPanelMessage::Unknown(1, 9, 0, 0, 10)), 7));
    assert_eq!(current_height(&state), 1000);
    assert_eq!(desk_frame_counts(&state), (2, 10));
    assert_eq!(panel_frame_counts(&state), (0, 0));
}

#[test]
fn writers_encode() {
    assert_eq!(write_to_desk(PanelToDeskMessage::Up), [0x68, 1, 1, 0, 0, 2, 0x16]);
    assert_eq!(write_to_panel(DeskToPanelMessage::Height(650)), [0x68, 1, 0, 0, 0, 1, 0x16]);
}
