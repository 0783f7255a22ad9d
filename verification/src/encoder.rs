//! The one-wire protocol encoder model.
//!
//! The strip reads a self-clocked bitstream: a one is a long high pulse and
//! a short low pulse, a zero a short high pulse and a long low pulse, both
//! exactly ten state-machine cycles long at eight million cycles a second
//! (800 kHz bit rate).  After a frame the line must stay low for the
//! reset-latch interval before the strip treats new data as a new frame.
//! The hardware state machine runs the pulses; the library fixes the
//! timing numbers, the clock divisor, and the order of operations around
//! the transmit queue, which `FrameWriter` drives as a state machine: fill
//! the queue word by word, wait for it to drain, hold the latch pause.

use vstd::prelude::*;

verus! {

/// Cycles the line stays high at the start of every bit.
pub const T_LEAD: u8 = 2;
/// Cycles whose level is the bit's value.
pub const T_DATA: u8 = 5;
/// Cycles the line stays low at the end of every bit.
pub const T_TAIL: u8 = 3;
/// Every bit takes exactly this many state-machine cycles.
pub const CYCLES_PER_BIT: u32 = 10;
/// Bits per second on the wire.
pub const BIT_RATE: u32 = 800000;
/// Microseconds the line must rest low after a frame.
pub const RESET_LATCH_US: u32 = 80;

/// How many cycles of a bit's period the line is high.
pub open spec fn high_cycles(bit: bool) -> int {
    if bit {
        T_LEAD + T_DATA
    } else {
        T_LEAD as int
    }
}

/// How many cycles of a bit's period the line is low.
pub open spec fn low_cycles(bit: bool) -> int {
    if bit {
        T_TAIL as int
    } else {
        T_DATA + T_TAIL
    }
}

/// Every bit occupies exactly one bit period, whatever its value, and a one
/// holds the line high longer than a zero: the stream stays self-clocked
/// and jitter-free.
pub proof fn lemma_bit_period(bit: bool)
    ensures
        high_cycles(bit) + low_cycles(bit) == CYCLES_PER_BIT,
        high_cycles(!bit) != high_cycles(bit),
{
}

/// The state-machine clock divisor in 16.8 fixed point: the system clock
/// over ten cycles per bit at 800 kHz.
pub open spec fn divisor_256_spec(sys_freq_hz: int) -> int {
    sys_freq_hz * 256 / (BIT_RATE * CYCLES_PER_BIT)
}

/// The integer and fractional (in 256ths) parts of the clock divisor for a
/// system clock frequency.
pub fn clock_divisor(sys_freq_hz: u32) -> (d: (u32, u8))
    ensures
        d.0 == sys_freq_hz as int * 256 / 8000000 / 256,
        d.1 == sys_freq_hz as int * 256 / 8000000 % 256,
        d.0 * 256 + d.1 == divisor_256_spec(sys_freq_hz as int),
{
    let raw: u64 = (sys_freq_hz as u64) * 256 / 8000000;
    ((raw / 256) as u32, (raw % 256) as u8)
}

/// Where the writer stands while a frame goes out.
#[derive(Clone, Copy, Debug, PartialEq, Eq, Structural)]
pub enum WriterPhase {
    /// Words still to push into the transmit queue.
    Filling,
    /// All words pushed; waiting for the queue to drain.
    Draining,
    /// Queue empty; holding the line low for the latch interval.
    Latching,
    /// The frame is on the wire and latched.
    Done,
}

/// What the writer asks the hardware layer to do next.
#[derive(Clone, Copy, Debug, PartialEq, Eq, Structural)]
pub enum WriterAction {
    /// Push this word into the transmit queue.
    Push(u32),
    /// The queue is full (or still draining): poll again.
    Wait,
    /// Hold the line low for this many microseconds.
    Pause(u32),
    /// Nothing left to do for this frame.
    Idle,
}

/// Drives one frame of words through the bounded transmit queue: pushes
/// them in order while the queue has room, then waits for it to drain, then
/// holds the reset-latch pause.  Busy-waiting lives in the caller's loop;
/// the writer only decides.
#[derive(Debug)]
pub struct FrameWriter {
    words: Vec<u32>,
    next: usize,
    phase: WriterPhase,
}

impl FrameWriter {
    pub closed spec fn spec_words(&self) -> Seq<u32> {
        self.words@
    }

    pub closed spec fn spec_next(&self) -> int {
        self.next as int
    }

    pub closed spec fn spec_phase(&self) -> WriterPhase {
        self.phase
    }

    pub open spec fn wf(&self) -> bool {
        &&& (self.spec_phase() == WriterPhase::Filling ==> self.spec_next()
            < self.spec_words().len())
        &&& (self.spec_phase() != WriterPhase::Filling ==> self.spec_next()
            == self.spec_words().len())
    }

    /// A writer about to send `words` as one frame.
    pub fn new(words: Vec<u32>) -> (w: FrameWriter)
        ensures
            w.wf(),
            w.spec_words() == words@,
            w.spec_next() == 0,
            w.spec_phase() == if words@.len() == 0 {
                WriterPhase::Draining
            } else {
                WriterPhase::Filling
            },
    {
        let phase = if words.len() == 0 {
            WriterPhase::Draining
        } else {
            WriterPhase::Filling
        };
        FrameWriter { words, next: 0, phase }
    }

    /// One decision.  `queue_ready` reports the transmit queue: room for a
    /// word while filling, fully drained while draining.  Words go out in
    /// order, each exactly once; the latch pause is issued only after the
    /// queue drained; `Done` means the whole frame is out and latched.
    pub fn step(&mut self, queue_ready: bool) -> (a: WriterAction)
        requires
            old(self).wf(),
        ensures
            final(self).wf(),
            final(self).spec_words() == old(self).spec_words(),
            old(self).spec_phase() == WriterPhase::Filling && queue_ready ==> a
                == WriterAction::Push(old(self).spec_words()[old(self).spec_next()])
                && final(self).spec_next() == old(self).spec_next() + 1
                && final(self).spec_phase() == (if old(self).spec_next() + 1
                == old(self).spec_words().len() {
                    WriterPhase::Draining
                } else {
                    WriterPhase::Filling
                }),
            old(self).spec_phase() == WriterPhase::Filling && !queue_ready ==> a
                == WriterAction::Wait && *final(self) == *old(self),
            old(self).spec_phase() == WriterPhase::Draining ==> final(self).spec_next()
                == old(self).spec_next() && (if queue_ready {
                a == WriterAction::Pause(RESET_LATCH_US) && final(self).spec_phase()
                    == WriterPhase::Latching
            } else {
                a == WriterAction::Wait && final(self).spec_phase() == WriterPhase::Draining
            }),
            old(self).spec_phase() == WriterPhase::Latching ==> a == WriterAction::Idle
                && final(self).spec_phase() == WriterPhase::Done && final(self).spec_next()
                == old(self).spec_next(),
            old(self).spec_phase() == WriterPhase::Done ==> a == WriterAction::Idle
                && *final(self) == *old(self),
            final(self).spec_phase() == WriterPhase::Done ==> final(self).spec_next()
                == final(self).spec_words().len(),
    {
        match self.phase {
            WriterPhase::Filling => {
                if queue_ready {
                    let n = self.words.len();
                    let word = self.words[self.next];
                    self.next = self.next + 1;
                    if self.next == n {
                        self.phase = WriterPhase::Draining;
                    }
                    WriterAction::Push(word)
                } else {
                    WriterAction::Wait
                }
            },
            WriterPhase::Draining => {
                if queue_ready {
                    self.phase = WriterPhase::Latching;
                    WriterAction::Pause(RESET_LATCH_US)
                } else {
                    WriterAction::Wait
                }
            },
            WriterPhase::Latching => {
                self.phase = WriterPhase::Done;
                WriterAction::Idle
            },
            WriterPhase::Done => WriterAction::Idle,
        }
    }
}

} // verus!
