//! The echo-loop state machine.
//!
//! One iteration of the device's main loop is: poll the bus; on activity,
//! read at most one 64-byte packet; transform it; write it back, retrying
//! partial writes until every byte is flushed.  The hardware calls (`poll`,
//! `read`, `write` on the serial class) happen outside; this machine takes
//! their outcomes as plain values and decides everything else.  Its phases
//! force the ordering the bus requires: a poll must precede every read, and
//! the write-retry loop finishes before the next poll.
//!
//! Two ghost sequences record the history of a packet: `input` holds the
//! bytes the host sent, `sent` the bytes accepted by the bus so far.  The
//! well-formedness invariant ties `sent` to the transformed buffer, so that
//! when flushing finishes, `sent` is exactly the transform of `input` —
//! in order, nothing dropped, nothing duplicated, however the bus split
//! the writes.

use vstd::prelude::*;

use crate::transform::spec_transform_seq;
use crate::transform::transform_prefix;

verus! {

/// Where the machine stands inside one iteration of the loop.
#[derive(Clone, Copy, PartialEq, Eq, Structural, Debug)]
pub enum Phase {
    /// Waiting for the next poll of the bus.
    Idle,
    /// The poll reported activity; a read should be attempted.
    AwaitRead,
    /// A transformed packet is pending; writes continue until it is flushed.
    Writing,
}

/// The state carried across the echo loop's decisions.
pub struct EchoMachine {
    /// Current phase of the iteration.
    pub phase: Phase,
    /// The transfer buffer, holding the transformed packet.
    pub buf: Vec<u8>,
    /// Number of bytes of the current packet (`buf[..count]` is the packet).
    pub count: usize,
    /// Bytes of the packet already accepted by the bus.
    pub offset: usize,
    /// The packet as the host sent it, before the transform.
    pub input: Ghost<Seq<u8>>,
    /// Every byte accepted by the bus so far, in order.
    pub sent: Ghost<Seq<u8>>,
}

impl EchoMachine {
    /// The machine's invariant: the buffer prefix is the transform of the
    /// input packet, `sent` is exactly the flushed prefix of that buffer,
    /// and the phase matches how much is flushed.
    pub open spec fn wf(self) -> bool {
        &&& self.count <= self.buf@.len()
        &&& self.offset <= self.count
        &&& self.input@.len() == self.count
        &&& self.buf@.subrange(0, self.count as int) == spec_transform_seq(self.input@)
        &&& self.sent@ == self.buf@.subrange(0, self.offset as int)
        &&& (self.phase is Writing ==> self.offset < self.count)
        &&& (!(self.phase is Writing) ==> self.offset == self.count)
    }

    /// A fresh machine: idle, nothing received, nothing sent.
    pub fn new() -> (m: EchoMachine)
        ensures
            m.wf(),
            m.phase is Idle,
            m.count == 0,
            m.input@ == Seq::<u8>::empty(),
            m.sent@ == Seq::<u8>::empty(),
    {
        let m = EchoMachine {
            phase: Phase::Idle,
            buf: Vec::new(),
            count: 0,
            offset: 0,
            input: Ghost(Seq::empty()),
            sent: Ghost(Seq::empty()),
        };
        proof {
            assert(m.buf@.subrange(0, 0) =~= spec_transform_seq(m.input@));
            assert(m.sent@ =~= m.buf@.subrange(0, 0));
        }
        m
    }

    /// Record the outcome of polling the bus.  The returned flag is what the
    /// status indicator should show: asserted exactly when the poll reported
    /// activity.  Without activity the iteration ends here, nothing else
    /// changes, and no read or write will be accepted by the machine.
    pub fn on_poll(&mut self, active: bool) -> (led: bool)
        requires
            old(self).wf(),
            old(self).phase is Idle,
        ensures
            final(self).wf(),
            led == active,
            active ==> final(self).phase is AwaitRead,
            !active ==> final(self).phase is Idle,
            !active ==> *final(self) == *old(self),
            final(self).buf@ == old(self).buf@,
            final(self).count == old(self).count,
            final(self).offset == old(self).offset,
            final(self).input@ == old(self).input@,
            final(self).sent@ == old(self).sent@,
    {
        if active {
            self.phase = Phase::AwaitRead;
        }
        active
    }

    /// Record that the read could not complete (the would-block condition:
    /// no bulk-OUT packet was queued).  Not fatal: the iteration simply does
    /// nothing further.
    pub fn on_read_failed(&mut self)
        requires
            old(self).wf(),
            old(self).phase is AwaitRead,
        ensures
            final(self).wf(),
            final(self).phase is Idle,
            final(self).buf@ == old(self).buf@,
            final(self).count == old(self).count,
            final(self).offset == old(self).offset,
            final(self).input@ == old(self).input@,
            final(self).sent@ == old(self).sent@,
    {
        self.phase = Phase::Idle;
    }

    /// Take a freshly read packet: `data[..count]` are the bytes the host
    /// sent.  The machine transforms them in place and, if the packet is
    /// non-empty, moves to the writing phase; a zero-length read is a no-op
    /// and the iteration ends with no write attempted.
    pub fn on_read(&mut self, data: Vec<u8>, count: usize) -> (has_output: bool)
        requires
            old(self).wf(),
            old(self).phase is AwaitRead,
            count <= data.len(),
        ensures
            final(self).wf(),
            has_output == (count > 0),
            final(self).input@ == data@.subrange(0, count as int),
            final(self).count == count,
            final(self).offset == 0,
            final(self).sent@ == Seq::<u8>::empty(),
            count > 0 ==> final(self).phase is Writing,
            count == 0 ==> final(self).phase is Idle,
            final(self).buf@.len() == data@.len(),
            final(self).buf@.subrange(0, count as int) == spec_transform_seq(
                data@.subrange(0, count as int),
            ),
            forall|i: int| count <= i < data@.len() ==> final(self).buf@[i] == data@[i],
    {
        let ghost orig: Seq<u8> = data@.subrange(0, count as int);
        let mut data = data;
        transform_prefix(&mut data, count);
        self.buf = data;
        self.count = count;
        self.offset = 0;
        self.input = Ghost(orig);
        self.sent = Ghost(Seq::empty());
        if count > 0 {
            self.phase = Phase::Writing;
        } else {
            self.phase = Phase::Idle;
        }
        proof {
            assert(self.sent@ =~= self.buf@.subrange(0, 0));
        }
        count > 0
    }

    /// The bytes still to be flushed: a copy of `buf[offset..count]`, the
    /// slice the next write call should hand to the bus.
    pub fn pending(&self) -> (v: Vec<u8>)
        requires
            self.wf(),
            self.phase is Writing,
        ensures
            v@ == self.buf@.subrange(self.offset as int, self.count as int),
            v@.len() == self.count - self.offset,
            v@.len() > 0,
    {
        let mut v: Vec<u8> = Vec::new();
        let mut i: usize = self.offset;
        while i < self.count
            invariant
                self.offset <= i <= self.count,
                self.count <= self.buf@.len(),
                v@ == self.buf@.subrange(self.offset as int, i as int),
            decreases self.count - i,
        {
            let b = self.buf[i];
            v.push(b);
            i = i + 1;
            proof {
                assert(v@ =~= self.buf@.subrange(self.offset as int, i as int));
            }
        }
        proof {
            assert(v@ =~= self.buf@.subrange(self.offset as int, self.count as int));
        }
        v
    }

    /// Record the outcome of one write call: the bus accepted `accepted`
    /// bytes of the pending slice.  Zero (a would-block or error outcome)
    /// changes nothing and the same slice is retried; otherwise the flushed
    /// region advances, and when the whole packet is flushed the machine
    /// returns to idle with `sent` equal to the transform of the input —
    /// every byte exactly once, in order, however the bus split the writes.
    pub fn on_write(&mut self, accepted: usize)
        requires
            old(self).wf(),
            old(self).phase is Writing,
            accepted <= old(self).count - old(self).offset,
        ensures
            final(self).wf(),
            final(self).buf@ == old(self).buf@,
            final(self).count == old(self).count,
            final(self).input@ == old(self).input@,
            accepted > 0 ==> final(self).offset == old(self).offset + accepted,
            accepted == 0 ==> *final(self) == *old(self),
            final(self).sent@ == old(self).sent@ + old(self).buf@.subrange(
                old(self).offset as int,
                old(self).offset + accepted,
            ),
            (final(self).phase is Idle) <==> (final(self).offset == final(self).count),
            final(self).offset < final(self).count ==> final(self).phase is Writing,
            final(self).offset == final(self).count ==> final(self).sent@ == spec_transform_seq(
                final(self).input@,
            ),
    {
        if accepted > 0 {
            let prev = self.offset;
            self.offset = self.offset + accepted;
            self.sent = Ghost(self.sent@ + self.buf@.subrange(prev as int, self.offset as int));
            if self.offset == self.count {
                self.phase = Phase::Idle;
            }
            proof {
                assert(self.sent@ =~= self.buf@.subrange(0, self.offset as int));
            }
        } else {
            proof {
                assert(self.sent@ =~= old(self).sent@ + old(self).buf@.subrange(
                    old(self).offset as int,
                    old(self).offset as int,
                ));
            }
        }
    }

    /// True when the machine waits for the next poll.
    pub fn is_idle(&self) -> (r: bool)
        ensures
            r == (self.phase is Idle),
    {
        matches!(self.phase, Phase::Idle)
    }

    /// True when a read should be attempted.
    pub fn awaits_read(&self) -> (r: bool)
        ensures
            r == (self.phase is AwaitRead),
    {
        matches!(self.phase, Phase::AwaitRead)
    }

    /// True while transformed bytes are still pending on the bus.
    pub fn is_writing(&self) -> (r: bool)
        ensures
            r == (self.phase is Writing),
    {
        matches!(self.phase, Phase::Writing)
    }
}

/// The round-trip and partial-write law: whenever the machine is not in the
/// middle of flushing a packet, the bytes accepted by the bus are exactly
/// the element-wise transform of the packet the host sent — same length,
/// same order, no byte dropped or duplicated, regardless of how the
/// underlying writes split the packet.
pub proof fn lemma_echo_complete(m: EchoMachine)
    requires
        m.wf(),
        !(m.phase is Writing),
    ensures
        m.sent@ == spec_transform_seq(m.input@),
        m.sent@.len() == m.input@.len(),
{
    assert(m.sent@ =~= m.buf@.subrange(0, m.count as int));
}

} // verus!
