//! Recovers frame boundaries from a byte stream that may drop, repeat or
//! corrupt bytes, one byte at a time.
use crate::protocol::{checksum_of, END_BYTE, is_start_byte, is_valid_frame, validate_frame, DataFrame, START_BYTE};
use vstd::prelude::*;

verus! {

/// `a + n`, held at `u64::MAX` instead of wrapping.
pub open spec fn saturating_add(a: u64, n: int) -> u64 {
    if a + n > u64::MAX {
        u64::MAX
    } else {
        (a + n) as u64
    }
}

/// One step of the synchronizer: from the bytes held of a frame that is being
/// filled and the bytes dropped since the last emitted frame, the next byte
/// gives the new pending bytes, the new drop count, and the emitted frame with
/// the drop count reported beside it, if the byte completed a valid frame.
///
/// A byte other than the start byte at position 0 is dropped. The seventh
/// byte completes a frame: a valid one is emitted and the drop count restarts
/// at 0; an invalid one is dropped whole, seven bytes, and seeking starts again
/// at the next byte.
pub open spec fn sync_step(pending: Seq<u8>, dropped: u64, b: u8) -> (
    Seq<u8>,
    u64,
    Option<(Seq<u8>, u64)>,
) {
    if pending.len() == 0 && b != START_BYTE {
        (pending, saturating_add(dropped, 1), None)
    } else {
        let p = pending.push(b);
        if p.len() < 7 {
            (p, dropped, None)
        } else if is_valid_frame(p) {
            (Seq::empty(), 0, Some((p, dropped)))
        } else {
            (Seq::empty(), saturating_add(dropped, 7), None)
        }
    }
}

/// Feeds a run of bytes through `sync_step`, collecting what is emitted.
pub open spec fn sync_run(pending: Seq<u8>, dropped: u64, bytes: Seq<u8>) -> (
    Seq<u8>,
    u64,
    Seq<(Seq<u8>, u64)>,
)
    decreases bytes.len(),
{
    if bytes.len() == 0 {
        (pending, dropped, Seq::empty())
    } else {
        let (p1, d1, e) = sync_step(pending, dropped, bytes[0]);
        let (p2, d2, es) = sync_run(p1, d1, bytes.subrange(1, bytes.len() as int));
        let first = match e {
            Some(x) => seq![x],
            None => Seq::empty(),
        };
        (p2, d2, first + es)
    }
}

/// The frame-boundary state machine: seeking while nothing is pending,
/// filling while a start byte and the bytes after it are held.
pub struct FrameSynchronizer {
    pending: Vec<u8>,
    dropped: u64,
}

impl FrameSynchronizer {
    /// Bytes held of the frame being filled.
    pub closed spec fn pending(&self) -> Seq<u8> {
        self.pending@
    }

    /// Bytes dropped since the last emitted frame.
    pub closed spec fn dropped(&self) -> u64 {
        self.dropped
    }

    /// At most six bytes are held, and the first of them is a start byte.
    pub open spec fn wf(&self) -> bool {
        &&& self.pending().len() < 7
        &&& self.pending().len() > 0 ==> self.pending()[0] == START_BYTE
    }

    /// A synchronizer that is seeking, with nothing dropped.
    pub fn new() -> (r: FrameSynchronizer)
        ensures
            r.wf(),
            r.pending() == Seq::<u8>::empty(),
            r.dropped() == 0,
    {
        FrameSynchronizer { pending: Vec::new(), dropped: 0 }
    }

    /// Goes back to seeking and forgets the drop count, as after a read that
    /// timed out.
    pub fn reset(&mut self)
        ensures
            final(self).wf(),
            final(self).pending() == Seq::<u8>::empty(),
            final(self).dropped() == 0,
    {
        self.pending = Vec::new();
        self.dropped = 0;
    }

    /// Takes one byte. Returns the frame that it completes, if that frame is
    /// valid, with the number of bytes dropped before it.
    pub fn push_byte(&mut self, b: u8) -> (r: Option<(DataFrame, u64)>)
        requires
            old(self).wf(),
        ensures
            final(self).wf(),
            ({
                let (p, d, e) = sync_step(old(self).pending(), old(self).dropped(), b);
                &&& final(self).pending() == p
                &&& final(self).dropped() == d
                &&& match r {
                    Some((f, n)) => e == Some((f@, n)),
                    None => e is None,
                }
            }),
    {
        if self.pending.len() == 0 && !is_start_byte(b) {
            self.dropped = self.dropped.saturating_add(1);
            return None;
        }
        self.pending.push(b);
        if self.pending.len() < 7 {
            return None;
        }
        let p = &self.pending;
        let frame: DataFrame = [p[0], p[1], p[2], p[3], p[4], p[5], p[6]];
        assert(frame@ =~= self.pending@);
        if validate_frame(&frame) {
            let dropped = self.dropped;
            self.pending = Vec::new();
            self.dropped = 0;
            Some((frame, dropped))
        } else {
            self.pending = Vec::new();
            self.dropped = self.dropped.saturating_add(7);
            None
        }
    }
}


proof fn lemma_run_concat(pending: Seq<u8>, dropped: u64, a: Seq<u8>, b: Seq<u8>)
    ensures
        ({
            let (p1, d1, e1) = sync_run(pending, dropped, a);
            let (p2, d2, e2) = sync_run(p1, d1, b);
            sync_run(pending, dropped, a + b) == (p2, d2, e1 + e2)
        }),
    decreases a.len(),
{
    if a.len() == 0 {
        assert(a + b =~= b);
        let (p2, d2, e2) = sync_run(pending, dropped, b);
        assert(Seq::<(Seq<u8>, u64)>::empty() + e2 =~= e2);
    } else {
        let (p1, d1, e) = sync_step(pending, dropped, a[0]);
        let rest = a.subrange(1, a.len() as int);
        assert((a + b).subrange(1, (a + b).len() as int) =~= rest + b);
        assert((a + b)[0] == a[0]);
        lemma_run_concat(p1, d1, rest, b);
        let first = match e {
            Some(x) => seq![x],
            None => Seq::empty(),
        };
        let (q1, c1, es1) = sync_run(p1, d1, rest);
        let (q2, c2, es2) = sync_run(q1, c1, b);
        assert(first + (es1 + es2) =~= (first + es1) + es2);
    }
}

/// What feeding the last `7 - i` bytes of a frame does once its first `i`
/// bytes are pending.
proof fn lemma_fill_frame(dropped: u64, f: Seq<u8>, i: int)
    requires
        f.len() == 7,
        1 <= i <= 6,
    ensures
        sync_run(f.subrange(0, i), dropped, f.subrange(i, 7)) == sync_run_frame(dropped, f),
    decreases 7 - i,
{
    let p = f.subrange(0, i);
    let rest = f.subrange(i, 7);
    assert(p.push(f[i]) =~= f.subrange(0, i + 1));
    assert(rest[0] == f[i]);
    assert(rest.subrange(1, rest.len() as int) =~= f.subrange(i + 1, 7));
    if i == 6 {
        assert(f.subrange(0, 7) =~= f);
        let (p1, d1, e) = sync_step(p, dropped, f[i]);
        assert(sync_run(p1, d1, f.subrange(7, 7)) == (p1, d1, Seq::<(Seq<u8>, u64)>::empty()));
        if let Some(x) = e {
            assert(seq![x] + Seq::<(Seq<u8>, u64)>::empty() =~= seq![x]);
        } else {
            assert(Seq::<(Seq<u8>, u64)>::empty() + Seq::<(Seq<u8>, u64)>::empty() =~= Seq::<
                (Seq<u8>, u64),
            >::empty());
        }
    } else {
        lemma_fill_frame(dropped, f, i + 1);
        let (p2, d2, es) = sync_run(f.subrange(0, i + 1), dropped, f.subrange(i + 1, 7));
        assert(Seq::<(Seq<u8>, u64)>::empty() + es =~= es);
    }
}

/// What feeding one whole frame to a seeking synchronizer gives.
pub open spec fn sync_run_frame(dropped: u64, f: Seq<u8>) -> (Seq<u8>, u64, Seq<(Seq<u8>, u64)>) {
    if is_valid_frame(f) {
        (Seq::empty(), 0, seq![(f, dropped)])
    } else {
        (Seq::empty(), saturating_add(dropped, 7), Seq::empty())
    }
}

proof fn lemma_run_one_frame(dropped: u64, f: Seq<u8>)
    requires
        f.len() == 7,
        f[0] == START_BYTE,
    ensures
        sync_run(Seq::empty(), dropped, f) == sync_run_frame(dropped, f),
{
    lemma_fill_frame(dropped, f, 1);
    assert(Seq::<u8>::empty().push(f[0]) =~= f.subrange(0, 1));
    assert(f.subrange(1, f.len() as int) =~= f.subrange(1, 7));
    let (p2, d2, es) = sync_run(f.subrange(0, 1), dropped, f.subrange(1, 7));
    assert(Seq::<(Seq<u8>, u64)>::empty() + es =~= es);
}

/// A valid frame, then a frame whose markers are intact but whose checksum is
/// wrong, then a valid frame: the synchronizer emits the two valid frames,
/// the first with nothing dropped before it, the second with the seven bytes
/// of the corrupt frame reported as dropped.
pub proof fn lemma_resync_after_corrupt_frame(f1: Seq<u8>, f2: Seq<u8>, f3: Seq<u8>)
    requires
        is_valid_frame(f1),
        is_valid_frame(f3),
        f2.len() == 7,
        f2[0] == START_BYTE,
        f2[6] == END_BYTE,
        f2[5] != checksum_of(f2[1], f2[2], f2[3], f2[4]),
    ensures
        sync_run(Seq::empty(), 0, f1 + f2 + f3) == (
            Seq::<u8>::empty(),
            0u64,
            seq![(f1, 0u64), (f3, 7u64)],
        ),
{
    lemma_run_one_frame(0, f1);
    lemma_run_one_frame(0, f2);
    lemma_run_one_frame(7, f3);
    lemma_run_concat(Seq::empty(), 0, f1, f2);
    lemma_run_concat(Seq::empty(), 0, f1 + f2, f3);
    assert(seq![(f1, 0u64)] + Seq::<(Seq<u8>, u64)>::empty() =~= seq![(f1, 0u64)]);
    assert(seq![(f1, 0u64)] + seq![(f3, 7u64)] =~= seq![(f1, 0u64), (f3, 7u64)]);
}

} // verus!
