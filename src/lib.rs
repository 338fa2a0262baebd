//! Frame codec, frame synchronizer and control decisions for a serial desk
//! controller that sits between a motorised desk's motor unit and its panel,
//! relays what each sends to the other, and drives the desk to a requested
//! height by sending key presses of its own.
//!
//! Heights are in millimetres throughout.
pub mod control;
pub mod link;
pub mod protocol;
pub mod relay;
pub mod state;
pub mod synchronizer;

pub use crate::control::{
    calculate_panel_to_desk_message, control_step, LoopAction, Wakeup, ERROR_WINDOW_MM,
    IDLE_TIMEOUT_MS, STOP_REPEAT_COUNT,
};
pub use crate::link::{read_desk, read_panel, write_to_desk, write_to_panel};
pub use crate::protocol::{
    DataFrame, DeskToPanelMessage, PanelToDeskMessage, DATA_FRAME_SIZE, END_BYTE, START_BYTE,
};
pub use crate::relay::{
    debounce_panel_key, handle_desk_read, handle_panel_read, PanelKeyDebouncer,
    PANEL_KEY_RESET_TIMEOUT_MS,
};
pub use crate::state::{
    clear_target_height, current_height, current_panel_key, desk_frame_counts, move_to_height,
    panel_frame_counts, target_height, ControlState, InvalidHeightError, MAX_DESK_HEIGHT_MM,
    MIN_DESK_HEIGHT_MM,
};
pub use crate::synchronizer::FrameSynchronizer;
