//! The 7-byte wire frame shared by both directions of the link:
//! `[START, a, key, c, d, checksum, END]`, with `checksum = (a + key + c + d) mod 256`.
use vstd::prelude::*;

verus! {

/// Number of bytes in one frame.
pub const DATA_FRAME_SIZE: usize = 7;

/// First byte of every frame.
pub const START_BYTE: u8 = 0x68;

/// Last byte of every frame.
pub const END_BYTE: u8 = 0x16;

/// One frame as it travels on the wire.
pub type DataFrame = [u8; 7];

/// The checksum of the four payload bytes: their sum modulo 256.
pub open spec fn checksum_of(a: u8, b: u8, c: u8, d: u8) -> u8 {
    ((a as int + b as int + c as int + d as int) % 256) as u8
}

/// The frame that carries the payload `a, b, c, d` and the checksum byte `chk`.
pub open spec fn frame_with(a: u8, b: u8, c: u8, d: u8, chk: u8) -> Seq<u8> {
    seq![START_BYTE, a, b, c, d, chk, END_BYTE]
}

/// The frame that carries the payload `a, b, c, d` with its correct checksum.
pub open spec fn checked_frame(a: u8, b: u8, c: u8, d: u8) -> Seq<u8> {
    frame_with(a, b, c, d, checksum_of(a, b, c, d))
}

/// A frame is valid when it has seven bytes, the start and end markers, and
/// a checksum byte that matches its payload.
pub open spec fn is_valid_frame(f: Seq<u8>) -> bool {
    &&& f.len() == 7
    &&& f[0] == START_BYTE
    &&& f[6] == END_BYTE
    &&& f[5] == checksum_of(f[1], f[2], f[3], f[4])
}

/// Sum of the four payload bytes, modulo 256.
pub fn checksum(a: u8, b: u8, c: u8, d: u8) -> (r: u8)
    ensures
        r == checksum_of(a, b, c, d),
{
    ((a as u32 + b as u32 + c as u32 + d as u32) % 256) as u8
}

/// Builds the frame for a payload, computing its checksum.
fn build_frame(a: u8, b: u8, c: u8, d: u8) -> (r: DataFrame)
    ensures
        r@ == checked_frame(a, b, c, d),
{
    let r = [START_BYTE, a, b, c, d, checksum(a, b, c, d), END_BYTE];
    assert(r@ =~= checked_frame(a, b, c, d));
    r
}


/// Lowest height the desk can report, in millimetres; desk telemetry is
/// encoded relative to it.
pub const HEIGHT_OFFSET_MM: u32 = 650;

/// Key byte of desk height telemetry.
pub const KEY_HEIGHT: u8 = 0;

/// Key byte of the "up" key.
pub const KEY_UP: u8 = 1;

/// Key byte of the "down" key.
pub const KEY_DOWN: u8 = 2;

/// Key byte sent while no key is held.
pub const KEY_NO_KEY: u8 = 3;

/// Key byte of the first preset key.
pub const KEY_PRESET_ONE: u8 = 6;

/// Key byte of the second preset key.
pub const KEY_PRESET_TWO: u8 = 7;

/// Key byte of the third preset key.
pub const KEY_PRESET_THREE: u8 = 8;

/// A message from the panel to the desk: a key press.
///
/// Preset heights are in millimetres and travel with no offset, low byte first.
#[derive(Debug, Clone, Copy, PartialEq, Eq, Structural)]
pub enum PanelToDeskMessage {
    Up,
    Down,
    NoKey,
    One(u16),
    Two(u16),
    Three(u16),
    /// A frame with an unrecognised key byte: payload bytes and checksum, verbatim.
    Unknown(u8, u8, u8, u8, u8),
}

/// A message from the desk to the panel: height telemetry.
///
/// The height is in millimetres and travels as its distance above
/// `HEIGHT_OFFSET_MM`, high byte first.
#[derive(Debug, Clone, Copy, PartialEq, Eq, Structural)]
pub enum DeskToPanelMessage {
    Height(u32),
    /// A frame with an unrecognised key byte: payload bytes and checksum, verbatim.
    Unknown(u8, u8, u8, u8, u8),
}

/// True of a key byte that decodes to a known panel message.
pub open spec fn is_panel_key(k: u8) -> bool {
    k == KEY_UP || k == KEY_DOWN || k == KEY_NO_KEY || k == KEY_PRESET_ONE || k == KEY_PRESET_TWO
        || k == KEY_PRESET_THREE
}

/// The frame for a preset key: the height's low byte, then its high byte.
pub open spec fn preset_frame(key: u8, h: u16) -> Seq<u8> {
    checked_frame(1, key, (h % 256) as u8, (h / 256) as u8)
}

/// The frame that encodes a panel message.
pub open spec fn panel_frame(m: PanelToDeskMessage) -> Seq<u8> {
    match m {
        PanelToDeskMessage::Up => checked_frame(1, KEY_UP, 0, 0),
        PanelToDeskMessage::Down => checked_frame(1, KEY_DOWN, 0, 0),
        PanelToDeskMessage::NoKey => checked_frame(1, KEY_NO_KEY, 0, 0),
        PanelToDeskMessage::One(h) => preset_frame(KEY_PRESET_ONE, h),
        PanelToDeskMessage::Two(h) => preset_frame(KEY_PRESET_TWO, h),
        PanelToDeskMessage::Three(h) => preset_frame(KEY_PRESET_THREE, h),
        PanelToDeskMessage::Unknown(a, b, c, d, chk) => frame_with(a, b, c, d, chk),
    }
}

/// The panel message that a frame decodes to. Only the key byte and the
/// payload are read; the checksum is the synchronizer's concern.
pub open spec fn panel_message(f: Seq<u8>) -> PanelToDeskMessage
    recommends
        f.len() == 7,
{
    let k = f[2];
    let preset = (f[3] as int + 256 * f[4] as int) as u16;
    if k == KEY_UP {
        PanelToDeskMessage::Up
    } else if k == KEY_DOWN {
        PanelToDeskMessage::Down
    } else if k == KEY_NO_KEY {
        PanelToDeskMessage::NoKey
    } else if k == KEY_PRESET_ONE {
        PanelToDeskMessage::One(preset)
    } else if k == KEY_PRESET_TWO {
        PanelToDeskMessage::Two(preset)
    } else if k == KEY_PRESET_THREE {
        PanelToDeskMessage::Three(preset)
    } else {
        PanelToDeskMessage::Unknown(f[1], f[2], f[3], f[4], f[5])
    }
}

/// Largest height that desk telemetry can carry, in millimetres.
pub open spec fn max_reported_height() -> int {
    HEIGHT_OFFSET_MM + 65535
}

impl DeskToPanelMessage {
    /// A height message must carry a height that fits the wire encoding.
    pub open spec fn wf(self) -> bool {
        match self {
            DeskToPanelMessage::Height(h) => HEIGHT_OFFSET_MM <= h <= max_reported_height(),
            DeskToPanelMessage::Unknown(..) => true,
        }
    }
}

/// The frame that encodes a desk message.
pub open spec fn desk_frame(m: DeskToPanelMessage) -> Seq<u8>
    recommends
        m.wf(),
{
    match m {
        DeskToPanelMessage::Height(h) => {
            let net = h - HEIGHT_OFFSET_MM;
            checked_frame(1, KEY_HEIGHT, (net / 256) as u8, (net % 256) as u8)
        },
        DeskToPanelMessage::Unknown(a, b, c, d, chk) => frame_with(a, b, c, d, chk),
    }
}

/// The desk message that a frame decodes to.
pub open spec fn desk_message(f: Seq<u8>) -> DeskToPanelMessage
    recommends
        f.len() == 7,
{
    if f[2] == KEY_HEIGHT {
        DeskToPanelMessage::Height((HEIGHT_OFFSET_MM + 256 * f[3] as int + f[4] as int) as u32)
    } else {
        DeskToPanelMessage::Unknown(f[1], f[2], f[3], f[4], f[5])
    }
}

impl PanelToDeskMessage {
    /// Encodes the message as one frame.
    pub fn as_frame(&self) -> (r: DataFrame)
        ensures
            r@ == panel_frame(*self),
    {
        match *self {
            PanelToDeskMessage::Up => build_frame(1, KEY_UP, 0, 0),
            PanelToDeskMessage::Down => build_frame(1, KEY_DOWN, 0, 0),
            PanelToDeskMessage::NoKey => build_frame(1, KEY_NO_KEY, 0, 0),
            PanelToDeskMessage::One(h) => build_frame(1, KEY_PRESET_ONE, (h % 256) as u8, (h / 256) as u8),
            PanelToDeskMessage::Two(h) => build_frame(1, KEY_PRESET_TWO, (h % 256) as u8, (h / 256) as u8),
            PanelToDeskMessage::Three(h) => build_frame(1, KEY_PRESET_THREE, (h % 256) as u8, (h / 256) as u8),
            PanelToDeskMessage::Unknown(a, b, c, d, chk) => {
                let r = [START_BYTE, a, b, c, d, chk, END_BYTE];
                assert(r@ =~= frame_with(a, b, c, d, chk));
                r
            },
        }
    }

    /// Decodes a frame. Every frame decodes: an unrecognised key byte gives `Unknown`.
    pub fn from_frame(frame: &DataFrame) -> (r: PanelToDeskMessage)
        ensures
            r == panel_message(frame@),
    {
        let k = frame[2];
        let preset = (frame[3] as u16) + 256 * (frame[4] as u16);
        if k == KEY_UP {
            PanelToDeskMessage::Up
        } else if k == KEY_DOWN {
            PanelToDeskMessage::Down
        } else if k == KEY_NO_KEY {
            PanelToDeskMessage::NoKey
        } else if k == KEY_PRESET_ONE {
            PanelToDeskMessage::One(preset)
        } else if k == KEY_PRESET_TWO {
            PanelToDeskMessage::Two(preset)
        } else if k == KEY_PRESET_THREE {
            PanelToDeskMessage::Three(preset)
        } else {
            PanelToDeskMessage::Unknown(frame[1], frame[2], frame[3], frame[4], frame[5])
        }
    }
}

impl DeskToPanelMessage {
    /// Encodes the message as one frame.
    pub fn as_frame(&self) -> (r: DataFrame)
        requires
            self.wf(),
        ensures
            r@ == desk_frame(*self),
    {
        match *self {
            DeskToPanelMessage::Height(h) => {
                let net = h - HEIGHT_OFFSET_MM;
                build_frame(1, KEY_HEIGHT, (net / 256) as u8, (net % 256) as u8)
            },
            DeskToPanelMessage::Unknown(a, b, c, d, chk) => {
                let r = [START_BYTE, a, b, c, d, chk, END_BYTE];
                assert(r@ =~= frame_with(a, b, c, d, chk));
                r
            },
        }
    }

    /// Decodes a frame. Every frame decodes: a key byte other than the
    /// height key gives `Unknown`.
    pub fn from_frame(frame: &DataFrame) -> (r: DeskToPanelMessage)
        ensures
            r == desk_message(frame@),
            r.wf(),
    {
        if frame[2] == KEY_HEIGHT {
            DeskToPanelMessage::Height(HEIGHT_OFFSET_MM + 256 * (frame[3] as u32) + (frame[4] as u32))
        } else {
            DeskToPanelMessage::Unknown(frame[1], frame[2], frame[3], frame[4], frame[5])
        }
    }
}


/// True of the byte that opens a frame.
pub fn is_start_byte(b: u8) -> (r: bool)
    ensures
        r == (b == START_BYTE),
{
    b == START_BYTE
}

/// Checks the start and end markers and the checksum of a frame.
pub fn validate_frame(frame: &DataFrame) -> (r: bool)
    ensures
        r == is_valid_frame(frame@),
{
    frame[0] == START_BYTE && frame[6] == END_BYTE && frame[5] == checksum(
        frame[1],
        frame[2],
        frame[3],
        frame[4],
    )
}

/// Decoding the encoding of a panel message gives the message back. For
/// `Unknown` this holds when its key byte is not one that a known message uses.
pub proof fn lemma_panel_round_trip(m: PanelToDeskMessage)
    requires
        m matches PanelToDeskMessage::Unknown(_, k, _, _, _) ==> !is_panel_key(k),
    ensures
        panel_frame(m).len() == 7,
        panel_message(panel_frame(m)) == m,
{
    match m {
        PanelToDeskMessage::One(h) => lemma_preset_bytes(h),
        PanelToDeskMessage::Two(h) => lemma_preset_bytes(h),
        PanelToDeskMessage::Three(h) => lemma_preset_bytes(h),
        _ => {},
    }
}

/// Decoding the encoding of a desk message gives the message back. For
/// `Unknown` this holds when its key byte is not the height key.
pub proof fn lemma_desk_round_trip(m: DeskToPanelMessage)
    requires
        m.wf(),
        m matches DeskToPanelMessage::Unknown(_, k, _, _, _) ==> k != KEY_HEIGHT,
    ensures
        desk_frame(m).len() == 7,
        desk_message(desk_frame(m)) == m,
{
    if let DeskToPanelMessage::Height(h) = m {
        let net = h - HEIGHT_OFFSET_MM;
        assert(net == 256 * (net / 256) + net % 256);
        assert(net / 256 < 256);
    }
}

/// A frame that decodes to an `Unknown` message is encoded again byte for
/// byte, checksum included, whether or not that checksum is correct.
pub proof fn lemma_unknown_pass_through(f: Seq<u8>)
    requires
        f.len() == 7,
        f[0] == START_BYTE,
        f[6] == END_BYTE,
    ensures
        panel_message(f) is Unknown ==> panel_frame(panel_message(f)) == f,
        desk_message(f) is Unknown ==> desk_frame(desk_message(f)) == f,
{
    assert(frame_with(f[1], f[2], f[3], f[4], f[5]) =~= f);
}

/// Every encoded message other than `Unknown` is a valid frame: start and end
/// markers in place and the checksum byte equal to the payload's sum modulo 256.
pub proof fn lemma_encoded_frames_are_valid(p: PanelToDeskMessage, d: DeskToPanelMessage)
    requires
        d.wf(),
    ensures
        !(p is Unknown) ==> is_valid_frame(panel_frame(p)),
        !(d is Unknown) ==> is_valid_frame(desk_frame(d)),
{
}

proof fn lemma_preset_bytes(h: u16)
    ensures
        (h % 256) as u8 as int + 256 * ((h / 256) as u8 as int) == h,
{
}

} // verus!
