//! The state shared by the readers, the relays and the control loop: the
//! desk's last reported height, the requested target, the last panel key,
//! frame counters, and the flag that asks the control loop to wake up.
use crate::protocol::PanelToDeskMessage;
use crate::synchronizer::saturating_add;
use vstd::prelude::*;

verus! {

/// Lowest height that may be requested, in millimetres.
pub const MIN_DESK_HEIGHT_MM: u32 = 650;

/// Highest height that may be requested, in millimetres.
pub const MAX_DESK_HEIGHT_MM: u32 = 1295;

/// Requested heights are whole multiples of this many millimetres (half a centimetre).
pub const HEIGHT_STEP_MM: u32 = 5;

/// Why a requested height was refused.
#[derive(Debug, Clone, Copy, PartialEq, Eq, Structural)]
pub struct InvalidHeightError {
    height: u32,
    out_of_range: bool,
    not_multiple_of_zero_point_five: bool,
}

impl InvalidHeightError {
    /// The refused height, in millimetres.
    pub closed spec fn spec_height(&self) -> u32 {
        self.height
    }

    /// True when the height lies outside the desk's range.
    pub closed spec fn spec_out_of_range(&self) -> bool {
        self.out_of_range
    }

    /// True when the height is in range but not a multiple of half a centimetre.
    pub closed spec fn spec_not_multiple(&self) -> bool {
        self.not_multiple_of_zero_point_five
    }

    fn new_out_of_range(height: u32) -> (r: InvalidHeightError)
        ensures
            r.spec_height() == height,
            r.spec_out_of_range(),
            !r.spec_not_multiple(),
    {
        InvalidHeightError { height, out_of_range: true, not_multiple_of_zero_point_five: false }
    }

    fn new_not_multiple_of_zero_point_five(height: u32) -> (r: InvalidHeightError)
        ensures
            r.spec_height() == height,
            !r.spec_out_of_range(),
            r.spec_not_multiple(),
    {
        InvalidHeightError { height, out_of_range: false, not_multiple_of_zero_point_five: true }
    }

    /// The refused height, in millimetres.
    pub fn height(&self) -> (r: u32)
        ensures
            r == self.spec_height(),
    {
        self.height
    }

    /// True when the height lies outside the desk's range.
    pub fn out_of_range(&self) -> (r: bool)
        ensures
            r == self.spec_out_of_range(),
    {
        self.out_of_range
    }

    /// True when the height is in range but not a multiple of half a centimetre.
    pub fn not_multiple_of_zero_point_five(&self) -> (r: bool)
        ensures
            r == self.spec_not_multiple(),
    {
        self.not_multiple_of_zero_point_five
    }
}

/// True of a height that lies in the desk's range.
pub open spec fn height_in_range(h: u32) -> bool {
    MIN_DESK_HEIGHT_MM <= h <= MAX_DESK_HEIGHT_MM
}

/// True of a height that is a whole multiple of half a centimetre.
pub open spec fn height_on_step(h: u32) -> bool {
    h % HEIGHT_STEP_MM == 0
}

/// What the shared state holds, as a value. Heights are in millimetres.
pub ghost struct ControlStateView {
    /// The desk's last reported height.
    pub height: u32,
    /// The height that the control loop is driving the desk to, if any.
    pub target: Option<u32>,
    /// The last key that the panel sent, until the debounce window runs out.
    pub panel_key: Option<PanelToDeskMessage>,
    /// Frames found on the desk's link.
    pub desk_found: u64,
    /// Bytes dropped on the desk's link.
    pub desk_dropped: u64,
    /// Frames found on the panel's link.
    pub panel_found: u64,
    /// Bytes dropped on the panel's link.
    pub panel_dropped: u64,
    /// True when the target or the panel key was set since the control loop
    /// last woke up.
    pub wake_pending: bool,
}

/// The state shared by the parts of the controller.
pub struct ControlState {
    current_height: u32,
    target_height: Option<u32>,
    current_panel_key: Option<PanelToDeskMessage>,
    desk_found_frame_count: u64,
    desk_dropped_byte_count: u64,
    panel_found_frame_count: u64,
    panel_dropped_byte_count: u64,
    wake_pending: bool,
}

impl View for ControlState {
    type V = ControlStateView;

    closed spec fn view(&self) -> ControlStateView {
        ControlStateView {
            height: self.current_height,
            target: self.target_height,
            panel_key: self.current_panel_key,
            desk_found: self.desk_found_frame_count,
            desk_dropped: self.desk_dropped_byte_count,
            panel_found: self.panel_found_frame_count,
            panel_dropped: self.panel_dropped_byte_count,
            wake_pending: self.wake_pending,
        }
    }
}

impl ControlState {
    /// A fresh state: height 0, no target, no key, all counters 0.
    pub fn new() -> (r: ControlState)
        ensures
            r@ == (ControlStateView {
                height: 0,
                target: None,
                panel_key: None,
                desk_found: 0,
                desk_dropped: 0,
                panel_found: 0,
                panel_dropped: 0,
                wake_pending: false,
            }),
    {
        ControlState {
            current_height: 0,
            target_height: None,
            current_panel_key: None,
            desk_found_frame_count: 0,
            desk_dropped_byte_count: 0,
            panel_found_frame_count: 0,
            panel_dropped_byte_count: 0,
            wake_pending: false,
        }
    }

    /// Clears the wake-up request and tells whether there was one.
    pub fn take_wake(&mut self) -> (r: bool)
        ensures
            r == old(self)@.wake_pending,
            final(self)@ == (ControlStateView { wake_pending: false, ..old(self)@ }),
    {
        let r = self.wake_pending;
        self.wake_pending = false;
        r
    }
}

impl ControlState {
    /// Asks the control loop to wake up.
    pub fn request_wake(&mut self)
        ensures
            final(self)@ == (ControlStateView { wake_pending: true, ..old(self)@ }),
    {
        self.wake_pending = true;
    }
}

/// The desk's last reported height.
pub fn current_height(state: &ControlState) -> (r: u32)
    ensures
        r == state@.height,
{
    state.current_height
}

/// Records a height reported by the desk.
pub fn set_current_height(state: &mut ControlState, h: u32)
    ensures
        final(state)@ == (ControlStateView { height: h, ..old(state)@ }),
{
    state.current_height = h;
}

/// The height that the control loop is driving the desk to, if any.
pub fn target_height(state: &ControlState) -> (r: Option<u32>)
    ensures
        r == state@.target,
{
    state.target_height
}

/// Sets or clears the target, and asks the control loop to wake up.
pub fn set_target_height(state: &mut ControlState, h: Option<u32>)
    ensures
        final(state)@ == (ControlStateView { target: h, wake_pending: true, ..old(state)@ }),
{
    state.target_height = h;
    state.wake_pending = true;
}

/// Drops the target, so that the control loop stops driving the desk.
pub fn clear_target_height(state: &mut ControlState)
    ensures
        final(state)@ == (ControlStateView { target: None, wake_pending: true, ..old(state)@ }),
{
    set_target_height(state, None);
}

/// The last key that the panel sent, until the debounce window runs out.
pub fn current_panel_key(state: &ControlState) -> (r: Option<PanelToDeskMessage>)
    ensures
        r == state@.panel_key,
{
    state.current_panel_key
}

/// Sets or clears the panel key, and asks the control loop to wake up.
pub fn set_current_panel_key(state: &mut ControlState, key: Option<PanelToDeskMessage>)
    ensures
        final(state)@ == (ControlStateView { panel_key: key, wake_pending: true, ..old(state)@ }),
{
    state.current_panel_key = key;
    state.wake_pending = true;
}

/// Frames found and bytes dropped on the desk's link.
pub fn desk_frame_counts(state: &ControlState) -> (r: (u64, u64))
    ensures
        r == (state@.desk_found, state@.desk_dropped),
{
    (state.desk_found_frame_count, state.desk_dropped_byte_count)
}

/// Adds to the frames found on the desk's link, holding at `u64::MAX`.
pub fn increment_desk_found_frame_count(state: &mut ControlState, u: u64)
    ensures
        final(state)@ == (ControlStateView {
            desk_found: saturating_add(old(state)@.desk_found, u as int),
            ..old(state)@
        }),
{
    state.desk_found_frame_count = state.desk_found_frame_count.saturating_add(u);
}

/// Adds to the bytes dropped on the desk's link, holding at `u64::MAX`.
pub fn increment_desk_dropped_byte_count(state: &mut ControlState, u: u64)
    ensures
        final(state)@ == (ControlStateView {
            desk_dropped: saturating_add(old(state)@.desk_dropped, u as int),
            ..old(state)@
        }),
{
    state.desk_dropped_byte_count = state.desk_dropped_byte_count.saturating_add(u);
}

/// Frames found and bytes dropped on the panel's link.
pub fn panel_frame_counts(state: &ControlState) -> (r: (u64, u64))
    ensures
        r == (state@.panel_found, state@.panel_dropped),
{
    (state.panel_found_frame_count, state.panel_dropped_byte_count)
}

/// Adds to the frames found on the panel's link, holding at `u64::MAX`.
pub fn increment_panel_found_frame_count(state: &mut ControlState, u: u64)
    ensures
        final(state)@ == (ControlStateView {
            panel_found: saturating_add(old(state)@.panel_found, u as int),
            ..old(state)@
        }),
{
    state.panel_found_frame_count = state.panel_found_frame_count.saturating_add(u);
}

/// Adds to the bytes dropped on the panel's link, holding at `u64::MAX`.
pub fn increment_panel_dropped_byte_count(state: &mut ControlState, u: u64)
    ensures
        final(state)@ == (ControlStateView {
            panel_dropped: saturating_add(old(state)@.panel_dropped, u as int),
            ..old(state)@
        }),
{
    state.panel_dropped_byte_count = state.panel_dropped_byte_count.saturating_add(u);
}

/// Asks the control loop to drive the desk to `height_in_mm`. The height must
/// lie between 650 and 1295 mm and be a multiple of 5 mm; otherwise the state
/// is left as it was and the error says which rule failed, range first.
pub fn move_to_height(state: &mut ControlState, height_in_mm: u32) -> (r: Result<(), InvalidHeightError>)
    ensures
        r is Ok <==> height_in_range(height_in_mm) && height_on_step(height_in_mm),
        r is Ok ==> final(state)@ == (ControlStateView {
            target: Some(height_in_mm),
            wake_pending: true,
            ..old(state)@
        }),
        r matches Err(e) ==> {
            &&& final(state)@ == old(state)@
            &&& e.spec_height() == height_in_mm
            &&& e.spec_out_of_range() == !height_in_range(height_in_mm)
            &&& e.spec_not_multiple() == (height_in_range(height_in_mm) && !height_on_step(
                height_in_mm,
            ))
        },
{
    if height_in_mm < MIN_DESK_HEIGHT_MM || height_in_mm > MAX_DESK_HEIGHT_MM {
        return Err(InvalidHeightError::new_out_of_range(height_in_mm));
    }
    if height_in_mm % HEIGHT_STEP_MM != 0 {
        return Err(InvalidHeightError::new_not_multiple_of_zero_point_five(height_in_mm));
    }
    set_target_height(state, Some(height_in_mm));
    Ok(())
}

} // verus!
