//! A byte-level model of the duplex serial channel.
//!
//! The real channel carries one writer (the command frame, one byte at a
//! time, flushed after every byte) and one continuous drain reader over
//! a single connection; a lock serializes them so each single-byte
//! operation completes before the other side runs. The model captures
//! exactly that granularity: a log of whole-byte events, one per locked
//! section. Whatever order the two activities interleave in, the written
//! bytes read back off the log in order and unbroken, and so do the
//! drained ones.

use vstd::prelude::*;

verus! {

/// One completed single-byte operation on the channel: a byte written
/// out to the device, or a byte drained from it.
#[derive(Clone, Copy)]
pub enum WireEvent {
    /// The writer sent this byte.
    Wrote(u8),
    /// The drain reader took this byte in.
    Drained(u8),
}

/// The written bytes of a log, in log order.
pub open spec fn spec_written(log: Seq<WireEvent>) -> Seq<u8>
    decreases log.len(),
{
    if log.len() == 0 {
        Seq::empty()
    } else {
        spec_written(log.drop_last()) + (match log.last() {
            WireEvent::Wrote(b) => seq![b],
            WireEvent::Drained(_) => Seq::empty(),
        })
    }
}

/// The drained bytes of a log, in log order.
pub open spec fn spec_drained(log: Seq<WireEvent>) -> Seq<u8>
    decreases log.len(),
{
    if log.len() == 0 {
        Seq::empty()
    } else {
        spec_drained(log.drop_last()) + (match log.last() {
            WireEvent::Wrote(_) => Seq::empty(),
            WireEvent::Drained(b) => seq![b],
        })
    }
}

/// Appending one event to a log appends its byte to the matching side
/// and leaves the other side untouched.
pub proof fn lemma_log_push(log: Seq<WireEvent>, e: WireEvent)
    ensures
        spec_written(log.push(e)) == spec_written(log) + (match e {
            WireEvent::Wrote(b) => seq![b],
            WireEvent::Drained(_) => Seq::<u8>::empty(),
        }),
        spec_drained(log.push(e)) == spec_drained(log) + (match e {
            WireEvent::Wrote(_) => Seq::<u8>::empty(),
            WireEvent::Drained(b) => seq![b],
        }),
{
    assert(log.push(e).drop_last() =~= log);
    assert(log.push(e).last() == e);
}

/// The channel, as the log of the single-byte operations completed on
/// it. Each exec operation stands for one locked section of the real
/// transport: it moves one whole byte and nothing less.
pub struct Transport {
    log: Vec<WireEvent>,
}

impl View for Transport {
    type V = Seq<WireEvent>;

    closed spec fn view(&self) -> Seq<WireEvent> {
        self.log@
    }
}

impl Transport {
    /// A channel on which nothing has happened yet.
    pub fn new() -> (t: Transport)
        ensures
            t@ == Seq::<WireEvent>::empty(),
    {
        Transport { log: Vec::new() }
    }

    /// One locked write: the whole byte goes out before anything else
    /// runs.
    pub fn write_byte(&mut self, b: u8)
        ensures
            final(self)@ == old(self)@.push(WireEvent::Wrote(b)),
    {
        self.log.push(WireEvent::Wrote(b));
    }

    /// One locked drain read: the whole byte comes in before anything
    /// else runs.
    pub fn drain_byte(&mut self, b: u8)
        ensures
            final(self)@ == old(self)@.push(WireEvent::Drained(b)),
    {
        self.log.push(WireEvent::Drained(b));
    }

    /// Read the written stream back off the captured log.
    pub fn written_bytes(&self) -> (r: Vec<u8>)
        ensures
            r@ == spec_written(self@),
    {
        let mut r: Vec<u8> = Vec::new();
        let mut i: usize = 0;
        while i < self.log.len()
            invariant
                i <= self.log@.len(),
                r@ == spec_written(self.log@.take(i as int)),
            decreases self.log@.len() - i,
        {
            proof {
                assert(self.log@.take(i as int + 1).drop_last() =~= self.log@.take(i as int));
                assert(self.log@.take(i as int + 1).last() == self.log@[i as int]);
            }
            match self.log[i] {
                WireEvent::Wrote(b) => r.push(b),
                WireEvent::Drained(_) => (),
            }
            i = i + 1;
        }
        proof {
            assert(self.log@.take(self.log@.len() as int) =~= self.log@);
        }
        r
    }

    /// Read the drained stream back off the captured log.
    pub fn drained_bytes(&self) -> (r: Vec<u8>)
        ensures
            r@ == spec_drained(self@),
    {
        let mut r: Vec<u8> = Vec::new();
        let mut i: usize = 0;
        while i < self.log.len()
            invariant
                i <= self.log@.len(),
                r@ == spec_drained(self.log@.take(i as int)),
            decreases self.log@.len() - i,
        {
            proof {
                assert(self.log@.take(i as int + 1).drop_last() =~= self.log@.take(i as int));
                assert(self.log@.take(i as int + 1).last() == self.log@[i as int]);
            }
            match self.log[i] {
                WireEvent::Wrote(_) => (),
                WireEvent::Drained(b) => r.push(b),
            }
            i = i + 1;
        }
        proof {
            assert(self.log@.take(self.log@.len() as int) =~= self.log@);
        }
        r
    }
}

/// Send a whole frame: one locked write per byte, in frame order, as
/// the real write path does.
pub fn write_frame(t: &mut Transport, frame: &[u8])
    ensures
        final(t)@ == old(t)@ + frame@.map_values(|b: u8| WireEvent::Wrote(b)),
        spec_written(final(t)@) == spec_written(old(t)@) + frame@,
        spec_drained(final(t)@) == spec_drained(old(t)@),
{
    let ghost evs = frame@.map_values(|b: u8| WireEvent::Wrote(b));
    proof {
        assert(old(t)@ + evs.take(0) =~= old(t)@);
    }
    let mut i: usize = 0;
    while i < frame.len()
        invariant
            i <= frame@.len(),
            evs == frame@.map_values(|b: u8| WireEvent::Wrote(b)),
            evs.len() == frame@.len(),
            t@ == old(t)@ + evs.take(i as int),
            spec_written(t@) == spec_written(old(t)@) + frame@.take(i as int),
            spec_drained(t@) == spec_drained(old(t)@),
        decreases frame@.len() - i,
    {
        let b = frame[i];
        proof {
            lemma_log_push(t@, WireEvent::Wrote(b));
            assert((old(t)@ + evs.take(i as int)).push(evs[i as int]) =~= old(t)@ + evs.take(
                i as int + 1,
            ));
            assert(spec_written(old(t)@) + frame@.take(i as int) + seq![b] =~= spec_written(
                old(t)@,
            ) + frame@.take(i as int + 1));
        }
        t.write_byte(b);
        i = i + 1;
    }
    proof {
        assert(evs.take(frame@.len() as int) =~= evs);
        assert(frame@.take(frame@.len() as int) =~= frame@);
    }
}

/// Run the two activities of the channel against each other: the
/// foreground writer sends the whole frame one byte at a time while the
/// drain reader takes in the device's bytes, the interleaving chosen by
/// an arbitrary schedule. However they interleave, no byte is torn on
/// either side: the written stream read back off the log is exactly the
/// frame, and the drained stream is exactly the device's output.
pub fn run_duplex(frame: &[u8], device_out: &[u8], schedule: &[bool]) -> (t: Transport)
    ensures
        spec_written(t@) == frame@,
        spec_drained(t@) == device_out@,
{
    let mut t = Transport::new();
    let mut i: usize = 0;
    let mut j: usize = 0;
    let mut k: usize = 0;
    while i < frame.len() || j < device_out.len()
        invariant
            i <= frame@.len(),
            j <= device_out@.len(),
            spec_written(t@) == frame@.take(i as int),
            spec_drained(t@) == device_out@.take(j as int),
        decreases frame@.len() - i + device_out@.len() - j,
    {
        let drain_turn = if k < schedule.len() {
            schedule[k]
        } else {
            false
        };
        k = if k >= schedule.len() {
            0
        } else {
            k + 1
        };
        if drain_turn && j < device_out.len() {
            proof {
                lemma_log_push(t@, WireEvent::Drained(device_out@[j as int]));
                assert(device_out@.take(j as int) + seq![device_out@[j as int]] =~= device_out@
                    .take(j as int + 1));
            }
            let b = device_out[j];
            t.drain_byte(b);
            j = j + 1;
        } else if i < frame.len() {
            proof {
                lemma_log_push(t@, WireEvent::Wrote(frame@[i as int]));
                assert(frame@.take(i as int) + seq![frame@[i as int]] =~= frame@.take(i as int + 1));
            }
            let b = frame[i];
            t.write_byte(b);
            i = i + 1;
        } else {
            proof {
                lemma_log_push(t@, WireEvent::Drained(device_out@[j as int]));
                assert(device_out@.take(j as int) + seq![device_out@[j as int]] =~= device_out@
                    .take(j as int + 1));
            }
            let b = device_out[j];
            t.drain_byte(b);
            j = j + 1;
        }
    }
    proof {
        assert(frame@.take(frame@.len() as int) =~= frame@);
        assert(device_out@.take(device_out@.len() as int) =~= device_out@);
    }
    t
}

} // verus!
