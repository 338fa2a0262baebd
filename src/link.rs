//! The two ends of each serial link: a reader that turns bytes into decoded
//! messages, and a writer that turns a message into the frame it sends.
//!
//! The serial port itself stays with the caller. A read is driven one byte at
//! a time: the caller hands over each byte it reads, or `None` when the port's
//! read timed out, until a call returns a result.
use crate::protocol::{
    desk_frame, desk_message, panel_frame, panel_message, DataFrame, DeskToPanelMessage,
    PanelToDeskMessage,
};
use crate::synchronizer::{sync_step, FrameSynchronizer};
use vstd::prelude::*;

verus! {

/// What a reader hands back after one input, given the synchronizer's state
/// before it and a decoder for frames: `None` while the read goes on,
/// `Some((message, dropped))` when it is over. A timeout ends the read with no
/// message and nothing reported dropped; a completed valid frame ends it with
/// the frame decoded and the bytes dropped before it.
pub open spec fn read_result<M>(
    pending: Seq<u8>,
    dropped: u64,
    input: Option<u8>,
    decode: spec_fn(Seq<u8>) -> M,
) -> Option<(Option<M>, u64)> {
    match input {
        None => Some((None, 0)),
        Some(b) => match sync_step(pending, dropped, b).2 {
            Some((f, n)) => Some((Some(decode(f)), n)),
            None => None,
        },
    }
}

/// The synchronizer's state after one input: a timeout sends it back to
/// seeking with nothing dropped, a byte takes one step.
pub open spec fn reader_after(s: FrameSynchronizer, final_s: FrameSynchronizer, input: Option<u8>) -> bool {
    match input {
        None => final_s.pending() == Seq::<u8>::empty() && final_s.dropped() == 0,
        Some(b) => {
            let (p, d, _) = sync_step(s.pending(), s.dropped(), b);
            final_s.pending() == p && final_s.dropped() == d
        },
    }
}

/// Takes one input from the desk's port.
pub fn read_desk(sync: &mut FrameSynchronizer, input: Option<u8>) -> (r: Option<
    (Option<DeskToPanelMessage>, u64),
>)
    requires
        old(sync).wf(),
    ensures
        final(sync).wf(),
        reader_after(*old(sync), *final(sync), input),
        r == read_result(
            old(sync).pending(),
            old(sync).dropped(),
            input,
            |f: Seq<u8>| desk_message(f),
        ),
{
    match input {
        None => {
            sync.reset();
            Some((None, 0))
        },
        Some(b) => match sync.push_byte(b) {
            Some((frame, dropped)) => Some((Some(DeskToPanelMessage::from_frame(&frame)), dropped)),
            None => None,
        },
    }
}

/// Takes one input from the panel's port.
pub fn read_panel(sync: &mut FrameSynchronizer, input: Option<u8>) -> (r: Option<
    (Option<PanelToDeskMessage>, u64),
>)
    requires
        old(sync).wf(),
    ensures
        final(sync).wf(),
        reader_after(*old(sync), *final(sync), input),
        r == read_result(
            old(sync).pending(),
            old(sync).dropped(),
            input,
            |f: Seq<u8>| panel_message(f),
        ),
{
    match input {
        None => {
            sync.reset();
            Some((None, 0))
        },
        Some(b) => match sync.push_byte(b) {
            Some((frame, dropped)) => Some((Some(PanelToDeskMessage::from_frame(&frame)), dropped)),
            None => None,
        },
    }
}

/// The frame to send to the panel for a message from the desk.
pub fn write_to_panel(message: DeskToPanelMessage) -> (r: DataFrame)
    requires
        message.wf(),
    ensures
        r@ == desk_frame(message),
{
    message.as_frame()
}

/// The frame to send to the desk for a message from the panel.
pub fn write_to_desk(message: PanelToDeskMessage) -> (r: DataFrame)
    ensures
        r@ == panel_frame(message),
{
    message.as_frame()
}

} // verus!
