use desk_controller::protocol::{checksum, is_start_byte, validate_frame};
use desk_controller::{DeskToPanelMessage, PanelToDeskMessage};

#[test]
fn height_at_lowest_position() {
    assert_eq!(DeskToPanelMessage::Height(650).as_frame(), [0x68, 1, 0, 0, 0, 1, 0x16]);
}

#[test]
fn height_at_highest_position() {
    assert_eq!(DeskToPanelMessage::Height(1295).as_frame(), [0x68, 1, 0, 2, 133, 136, 0x16]);
}

#[test]
fn preset_at_zero() {
    assert_eq!(PanelToDeskMessage::One(0).as_frame(), [0x68, 1, 6, 0, 0, 7, 0x16]);
}

#[test]
fn preset_bytes_are_low_then_high() {
    assert_eq!(PanelToDeskMessage::One(650).as_frame(), [0x68, 1, 6, 138, 2, 147, 0x16]);
}

#[test]
fn key_frames() {
    assert_eq!(PanelToDeskMessage::Up.as_frame(), [0x68, 1, 1, 0, 0, 2, 0x16]);
    assert_eq!(PanelToDeskMessage::Down.as_frame(), [0x68, 1, 2, 0, 0, 3, 0x16]);
    assert_eq!(PanelToDeskMessage::NoKey.as_frame(), [0x68, 1, 3, 0, 0, 4, 0x16]);
    assert_eq!(PanelToDeskMessage::Two(1200).as_frame(), [0x68, 1, 7, 176, 4, 188, 0x16]);
    assert_eq!(PanelToDeskMessage::Three(1210).as_frame(), [0x68, 1, 8, 186, 4, 199, 0x16]);
}

#[test]
fn unknown_is_sent_verbatim() {
    let m = PanelToDeskMessage::Unknown(1, 10, 0, 0, 99);
    assert_eq!(m.as_frame(), [0x68, 1, 10, 0, 0, 99, 0x16]);
    let d = DeskToPanelMessage::Unknown(5, 4, 3, 2, 1);
    assert_eq!(d.as_frame(), [0x68, 5, 4, 3, 2, 1, 0x16]);
}

#[test]
fn panel_round_trip() {
    let messages = [
        PanelToDeskMessage::Up,
        PanelToDeskMessage::Down,
        PanelToDeskMessage::NoKey,
        PanelToDeskMessage::One(0),
        PanelToDeskMessage::Two(1200),
        PanelToDeskMessage::Three(65535),
        PanelToDeskMessage::Unknown(1, 11, 7, 8, 0),
    ];
    for m in messages {
        assert_eq!(PanelToDeskMessage::from_frame(&m.as_frame()), m);
    }
}

#[test]
fn desk_round_trip() {
    let messages = [
        DeskToPanelMessage::Height(650),
        DeskToPanelMessage::Height(1003),
        DeskToPanelMessage::Height(1295),
        DeskToPanelMessage::Height(650 + 65535),
        DeskToPanelMessage::Unknown(1, 9, 7, 8, 0),
    ];
    for m in messages {
        assert_eq!(DeskToPanelMessage::from_frame(&m.as_frame()), m);
    }
}

#[test]
fn checksum_matches_payload_sum() {
    for m in [PanelToDeskMessage::Up, PanelToDeskMessage::Three(40000)] {
        let f = m.as_frame();
        let sum = (f[1] as u32 + f[2] as u32 + f[3] as u32 + f[4] as u32) % 256;
        assert_eq!(f[5] as u32, sum);
    }
    let f = DeskToPanelMessage::Height(50000).as_frame();
    let sum = (f[1] as u32 + f[2] as u32 + f[3] as u32 + f[4] as u32) % 256;
    assert_eq!(f[5] as u32, sum);
    assert_eq!(checksum(200, 100, 0, 0), 44);
}

#[test]
fn decoding_ignores_checksum() {
    let frame = [0x68, 1, 2, 0, 0, 77, 0x16];
    assert!(!validate_frame(&frame));
    assert_eq!(PanelToDeskMessage::from_frame(&frame), PanelToDeskMessage::Down);
}

#[test]
fn panel_key_zero_is_unknown() {
    let frame = [0x68, 1, 0, 3, 4, 8, 0x16];
    assert_eq!(PanelToDeskMessage::from_frame(&frame), PanelToDeskMessage::Unknown(1, 0, 3, 4, 8));
    assert_eq!(DeskToPanelMessage::from_frame(&frame), DeskToPanelMessage::Height(650 + 3 * 256 + 4));
}

#[test]
fn desk_nonzero_key_is_unknown() {
    let frame = [0x68, 1, 1, 0, 0, 2, 0x16];
    assert_eq!(DeskToPanelMessage::from_frame(&frame), DeskToPanelMessage::Unknown(1, 1, 0, 0, 2));
}

#[test]
fn frame_validation() {
    assert!(validate_frame(&[0x68, 1, 0, 0, 0, 1, 0x16]));
    assert!(!validate_frame(&[0x67, 1, 0, 0, 0, 1, 0x16]));
    assert!(!validate_frame(&[0x68, 1, 0, 0, 0, 1, 0x17]));
    assert!(!validate_frame(&[0x68, 1, 0, 0, 0, 2, 0x16]));
    assert!(is_start_byte(0x68));
    assert!(!is_start_byte(0x16));
}
