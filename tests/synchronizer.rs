use desk_controller::{read_desk, read_panel, DeskToPanelMessage, FrameSynchronizer, PanelToDeskMessage};

fn feed(sync: &mut FrameSynchronizer, bytes: &[u8]) -> Vec<([u8; 7], u64)> {
    let mut out = Vec::new();
    for &b in bytes {
        if let Some(x) = sync.push_byte(b) {
            out.push(x);
        }
    }
    out
}

const VALID: [u8; 7] = [0x68, 1, 0, 1, 44, 46, 0x16];
const BAD_CHECKSUM: [u8; 7] = [0x68, 1, 0, 1, 44, 47, 0x16];

#[test]
fn corrupt_frame_between_valid_frames() {
    let mut sync = FrameSynchronizer::new();
    let mut bytes = Vec::new();
    bytes.extend_from_slice(&VALID);
    bytes.extend_from_slice(&BAD_CHECKSUM);
    bytes.extend_from_slice(&VALID);
    let out = feed(&mut sync, &bytes);
    assert_eq!(out, vec![(VALID, 0), (VALID, 7)]);
}

#[test]
fn noise_before_frame_is_counted() {
    let mut sync = FrameSynchronizer::new();
    let mut bytes = vec![1, 2, 0x16];
    bytes.extend_from_slice(&VALID);
    assert_eq!(feed(&mut sync, &bytes), vec![(VALID, 3)]);
}

#[test]
fn frame_split_mid_stream_resynchronizes() {
    let mut sync = FrameSynchronizer::new();
    // The tail of a frame, then a whole one.
    let mut bytes = vec![44, 46, 0x16];
    bytes.extend_from_slice(&VALID);
    assert_eq!(feed(&mut sync, &bytes), vec![(VALID, 3)]);
}

#[test]
fn bad_end_byte_drops_seven() {
    let mut sync = FrameSynchronizer::new();
    let mut bytes = vec![0x68, 1, 0, 1, 44, 46, 0x17];
    bytes.extend_from_slice(&VALID);
    assert_eq!(feed(&mut sync, &bytes), vec![(VALID, 7)]);
}

#[test]
fn read_desk_decodes_height() {
    let mut sync = FrameSynchronizer::new();
    let mut result = None;
    for (i, &b) in VALID.iter().enumerate() {
        result = read_desk(&mut sync, Some(b));
        if i < 6 {
            assert_eq!(result, None);
        }
    }
    assert_eq!(result, Some((Some(DeskToPanelMessage::Height(650 + 256 + 44)), 0)));
}

#[test]
fn read_timeout_gives_nothing() {
    let mut sync = FrameSynchronizer::new();
    assert_eq!(read_panel(&mut sync, Some(9)), None);
    assert_eq!(read_panel(&mut sync, Some(0x68)), None);
    assert_eq!(read_panel(&mut sync, None), Some((None, 0)));
    // The partial frame was dropped with the timeout.
    for &b in &[1u8, 3, 0, 0, 4, 0x16] {
        assert_eq!(read_panel(&mut sync, Some(b)), None);
    }
}

#[test]
fn read_panel_reports_drops() {
    let mut sync = FrameSynchronizer::new();
    let frame = PanelToDeskMessage::NoKey.as_frame();
    let mut result = None;
    for &b in [7u8, 7].iter().chain(frame.iter()) {
        result = read_panel(&mut sync, Some(b));
    }
    assert_eq!(result, Some((Some(PanelToDeskMessage::NoKey), 2)));
}
