//! What the relays do with each read: count frames and dropped bytes, record
//! the desk's height and the panel's key, and release the key once the panel
//! has been silent for the debounce window.
use crate::protocol::{DeskToPanelMessage, PanelToDeskMessage};
use crate::state::{
    current_panel_key,
    increment_desk_dropped_byte_count, increment_desk_found_frame_count,
    increment_panel_dropped_byte_count, increment_panel_found_frame_count, set_current_height,
    set_current_panel_key, ControlState, ControlStateView,
};
use crate::synchronizer::saturating_add;
use vstd::prelude::*;

verus! {

/// How long the panel may stay silent before its key counts as released, in milliseconds.
pub const PANEL_KEY_RESET_TIMEOUT_MS: u64 = 1000;

/// The state after a read from the desk's link: the dropped bytes are
/// counted, and a frame is counted too; a height message becomes the current
/// height.
pub open spec fn after_desk_read(s: ControlStateView, read: (Option<DeskToPanelMessage>, u64)) -> ControlStateView {
    let counted = ControlStateView { desk_dropped: saturating_add(s.desk_dropped, read.1 as int), ..s };
    match read.0 {
        None => counted,
        Some(m) => {
            let found = ControlStateView {
                desk_found: saturating_add(counted.desk_found, 1),
                ..counted
            };
            match m {
                DeskToPanelMessage::Height(h) => ControlStateView { height: h, ..found },
                DeskToPanelMessage::Unknown(..) => found,
            }
        },
    }
}

/// Handles one read from the desk's link. Returns the message to pass on to
/// the panel, if a frame was read.
pub fn handle_desk_read(state: &mut ControlState, read: (Option<DeskToPanelMessage>, u64)) -> (r:
    Option<DeskToPanelMessage>)
    ensures
        final(state)@ == after_desk_read(old(state)@, read),
        r == read.0,
{
    increment_desk_dropped_byte_count(state, read.1);
    if let Some(message) = read.0 {
        increment_desk_found_frame_count(state, 1);
        if let DeskToPanelMessage::Height(h) = message {
            set_current_height(state, h);
        }
    }
    read.0
}

/// Keeps the time at which the last panel frame arrived.
pub struct PanelKeyDebouncer {
    last_frame_ms: u64,
}

impl PanelKeyDebouncer {
    /// Milliseconds at which the last panel frame arrived.
    pub closed spec fn last_frame(&self) -> u64 {
        self.last_frame_ms
    }

    /// A debouncer whose last frame arrived at `now_ms`.
    pub fn new(now_ms: u64) -> (r: PanelKeyDebouncer)
        ensures
            r.last_frame() == now_ms,
    {
        PanelKeyDebouncer { last_frame_ms: now_ms }
    }
}

/// True when more than the debounce window has passed between a frame at
/// `last_ms` and the time `now_ms`.
pub open spec fn debounce_expired(last_ms: u64, now_ms: u64) -> bool {
    now_ms > last_ms + PANEL_KEY_RESET_TIMEOUT_MS
}

/// The panel key after a debounce check at `now_ms`.
pub open spec fn debounced_key(key: Option<PanelToDeskMessage>, last_ms: u64, now_ms: u64) -> Option<
    PanelToDeskMessage,
> {
    if debounce_expired(last_ms, now_ms) {
        None
    } else {
        key
    }
}

/// The state after a read from the panel's link: the dropped bytes are
/// counted, and a frame is counted too and its message becomes the panel key.
pub open spec fn after_panel_read(s: ControlStateView, read: (Option<PanelToDeskMessage>, u64)) -> ControlStateView {
    let counted = ControlStateView {
        panel_dropped: saturating_add(s.panel_dropped, read.1 as int),
        ..s
    };
    match read.0 {
        None => counted,
        Some(m) => ControlStateView {
            panel_found: saturating_add(counted.panel_found, 1),
            panel_key: Some(m),
            wake_pending: true,
            ..counted
        },
    }
}

/// Handles one read from the panel's link at `now_ms`. A frame of any kind,
/// "no key" included, restarts the debounce window.
pub fn handle_panel_read(
    state: &mut ControlState,
    debouncer: &mut PanelKeyDebouncer,
    read: (Option<PanelToDeskMessage>, u64),
    now_ms: u64,
)
    ensures
        final(state)@ == after_panel_read(old(state)@, read),
        final(debouncer).last_frame() == (if read.0 is Some {
            now_ms
        } else {
            old(debouncer).last_frame()
        }),
{
    increment_panel_dropped_byte_count(state, read.1);
    if let Some(message) = read.0 {
        increment_panel_found_frame_count(state, 1);
        set_current_panel_key(state, Some(message));
        debouncer.last_frame_ms = now_ms;
    }
}

/// Checks the debounce window at `now_ms`: once the panel has been silent for
/// longer than it, a held key is released. Returns whether it released one.
pub fn debounce_panel_key(state: &mut ControlState, debouncer: &PanelKeyDebouncer, now_ms: u64) -> (r:
    bool)
    ensures
        r == (old(state)@.panel_key is Some && debounce_expired(debouncer.last_frame(), now_ms)),
        r ==> final(state)@ == (ControlStateView {
            panel_key: None,
            wake_pending: true,
            ..old(state)@
        }),
        !r ==> final(state)@ == old(state)@,
        final(state)@.panel_key == debounced_key(old(state)@.panel_key, debouncer.last_frame(), now_ms),
{
    let expired = now_ms > debouncer.last_frame_ms && now_ms - debouncer.last_frame_ms
        > PANEL_KEY_RESET_TIMEOUT_MS;
    if expired && current_panel_key(state).is_some() {
        set_current_panel_key(state, None);
        true
    } else {
        false
    }
}

/// After a panel frame of any kind arrives at `t0`, a debounce check at `t`
/// leaves that frame's message as the panel key while no more than the
/// window has passed, and releases it after.
pub proof fn lemma_debounce_window(
    s: ControlStateView,
    m: PanelToDeskMessage,
    dropped: u64,
    t0: u64,
    t: u64,
)
    ensures
        debounced_key(after_panel_read(s, (Some(m), dropped)).panel_key, t0, t) == (if t > t0
            + PANEL_KEY_RESET_TIMEOUT_MS {
            None
        } else {
            Some(m)
        }),
{
}

} // verus!
