//! The control loop's decisions: what to send to the desk, how many times,
//! and whether the desk has arrived at its target.
use crate::protocol::PanelToDeskMessage;
use crate::state::{
    current_height, current_panel_key, set_target_height, target_height, ControlState,
    ControlStateView,
};
use vstd::prelude::*;

verus! {

/// The desk counts as arrived when it is within this many millimetres of the target.
pub const ERROR_WINDOW_MM: u32 = 5;

/// How many times "no key" is sent to stop the desk on arrival.
pub const STOP_REPEAT_COUNT: usize = 200;

/// How long the control loop sleeps when nothing wakes it, in milliseconds.
pub const IDLE_TIMEOUT_MS: u64 = 10_000;

/// The command for one tick of the control loop, from a snapshot of the panel
/// key, the target and the current height: the message to send, how many
/// times to send it, and whether the target is to be cleared.
///
/// A key other than "no key" is passed straight through. "No key" with no
/// target is passed through too. Otherwise, with no target there is nothing
/// to do; within the error window of the target the desk is stopped and the
/// target cleared; below it the desk goes up, above it down.
pub open spec fn next_command(
    panel_key: Option<PanelToDeskMessage>,
    target: Option<u32>,
    current: u32,
) -> Option<(PanelToDeskMessage, usize, bool)> {
    match panel_key {
        Some(k) if k != PanelToDeskMessage::NoKey => Some((k, 1, false)),
        Some(_) if target is None => Some((PanelToDeskMessage::NoKey, 1, false)),
        _ => match target {
            None => None,
            Some(t) => if t - ERROR_WINDOW_MM <= current <= t + ERROR_WINDOW_MM {
                Some((PanelToDeskMessage::NoKey, STOP_REPEAT_COUNT, true))
            } else if current < t - ERROR_WINDOW_MM {
                Some((PanelToDeskMessage::Up, 1, false))
            } else {
                Some((PanelToDeskMessage::Down, 1, false))
            },
        },
    }
}

/// Computes `next_command`.
pub fn calculate_panel_to_desk_message(
    received_panel_key: Option<PanelToDeskMessage>,
    target_height: Option<u32>,
    current_height: u32,
) -> (r: Option<(PanelToDeskMessage, usize, bool)>)
    ensures
        r == next_command(received_panel_key, target_height, current_height),
{
    match received_panel_key {
        Some(PanelToDeskMessage::NoKey) => {
            if target_height.is_none() {
                return Some((PanelToDeskMessage::NoKey, 1, false));
            }
        },
        Some(key) => return Some((key, 1, false)),
        None => {},
    }
    let target = match target_height {
        None => return None,
        Some(t) => t as u64,
    };
    let current = current_height as u64;
    let window = ERROR_WINDOW_MM as u64;
    if current + window < target {
        Some((PanelToDeskMessage::Up, 1, false))
    } else if current > target + window {
        Some((PanelToDeskMessage::Down, 1, false))
    } else {
        Some((PanelToDeskMessage::NoKey, STOP_REPEAT_COUNT, true))
    }
}

/// The command depends on the snapshot alone: two decisions on equal
/// snapshots are equal, so repeating a decision on an unchanged snapshot
/// gives the same command.
pub proof fn lemma_next_command_idempotent(
    k1: Option<PanelToDeskMessage>,
    t1: Option<u32>,
    c1: u32,
    k2: Option<PanelToDeskMessage>,
    t2: Option<u32>,
    c2: u32,
)
    requires
        k1 == k2,
        t1 == t2,
        c1 == c2,
    ensures
        next_command(k1, t1, c1) == next_command(k2, t2, c2),
{
}

/// What woke the control loop.
#[derive(Debug, Clone, Copy, PartialEq, Eq, Structural)]
pub enum Wakeup {
    /// The process is shutting down.
    Shutdown,
    /// The target or the panel key changed.
    StateChanged,
    /// Nothing happened for `IDLE_TIMEOUT_MS`.
    IdleTimeout,
}

/// What the control loop does after waking up.
#[derive(Debug, Clone, Copy, PartialEq, Eq, Structural)]
pub enum LoopAction {
    /// Leave the loop.
    Stop,
    /// Send nothing and wait for the next wake-up.
    Wait,
    /// Send the message to the desk this many times, then wait for the next wake-up.
    Send(PanelToDeskMessage, usize),
}

/// One wake-up of the control loop. Unless shutting down, it takes the
/// pending wake-up request, decides on the snapshot of key, target and height,
/// clears the target on arrival, and, while the desk is moving up or down
/// towards a target, asks to be woken again at once so that the movement is
/// polled back to back instead of once per idle timeout.
pub fn control_step(state: &mut ControlState, wakeup: Wakeup) -> (r: LoopAction)
    ensures
        wakeup == Wakeup::Shutdown ==> r == LoopAction::Stop && final(state)@ == old(state)@,
        wakeup != Wakeup::Shutdown ==> {
            let s = old(state)@;
            match next_command(s.panel_key, s.target, s.height) {
                None => r == LoopAction::Wait && final(state)@ == (ControlStateView {
                    wake_pending: false,
                    ..s
                }),
                Some((m, times, clears)) => {
                    &&& r == LoopAction::Send(m, times)
                    &&& final(state)@.target == (if clears {
                        None
                    } else {
                        s.target
                    })
                    &&& final(state)@.wake_pending == (clears || (s.target is Some && (m
                        == PanelToDeskMessage::Up || m == PanelToDeskMessage::Down)))
                    &&& final(state)@ == (ControlStateView {
                        target: final(state)@.target,
                        wake_pending: final(state)@.wake_pending,
                        ..s
                    })
                },
            }
        },
{
    if wakeup == Wakeup::Shutdown {
        return LoopAction::Stop;
    }
    state.take_wake();
    let height = current_height(state);
    let key = current_panel_key(state);
    let target = target_height(state);
    match calculate_panel_to_desk_message(key, target, height) {
        None => LoopAction::Wait,
        Some((message, times, clears_target)) => {
            if clears_target {
                set_target_height(state, None);
            } else if target.is_some() && (message == PanelToDeskMessage::Up || message
                == PanelToDeskMessage::Down) {
                state.request_wake();
            }
            LoopAction::Send(message, times)
        },
    }
}

} // verus!
