//! The in-memory frame buffer: one color per LED, turned into wire words at
//! display time.
//!
//! Shows write colors; the engine reads the whole buffer back as packed
//! GRBW words with the configured brightness applied, one word per LED.

use vstd::prelude::*;

verus! {

use crate::color::{
    brightness_scale,
    color_word_spec,
    exp_bits,
    scale_channel,
    NormRgbw,
};
use crate::fix::{Fix32, ONE_BITS};

/// The number of LEDs on the strip: four chained 60-LED segments.
pub const STRIP_LEN: usize = 240;

/// A color scaled channel by channel.
pub open spec fn scale_color_spec(c: NormRgbw, s: int) -> NormRgbw {
    NormRgbw {
        r: Fix32 { bits: scale_channel(c.r.bits as int, s) as i32 },
        g: Fix32 { bits: scale_channel(c.g.bits as int, s) as i32 },
        b: Fix32 { bits: scale_channel(c.b.bits as int, s) as i32 },
        w: Fix32 { bits: scale_channel(c.w.bits as int, s) as i32 },
    }
}

/// The wire word of one buffered color under a brightness whose exponential
/// came out as `eb`.
pub open spec fn lit_word_spec(c: NormRgbw, eb: int) -> int {
    color_word_spec(scale_color_spec(c, brightness_scale(eb)))
}

/// A frame buffer holding the color of every LED.
#[derive(Debug)]
pub struct ColorMemoryController {
    memory: Vec<NormRgbw>,
}

impl ColorMemoryController {
    /// The buffered colors.
    pub closed spec fn view(&self) -> Seq<NormRgbw> {
        self.memory@
    }

    /// The buffer covers the strip and holds only normalized colors.
    pub open spec fn wf(&self) -> bool {
        &&& self.view().len() == STRIP_LEN
        &&& forall|i: int| 0 <= i < STRIP_LEN ==> (#[trigger] self.view()[i]).in_range()
    }

    /// A fresh buffer, all dark.
    pub fn new() -> (ctrl: ColorMemoryController)
        ensures
            ctrl.wf(),
            forall|i: int|
                0 <= i < STRIP_LEN ==> (#[trigger] ctrl.view()[i]) == (NormRgbw {
                    r: Fix32 { bits: 0 },
                    g: Fix32 { bits: 0 },
                    b: Fix32 { bits: 0 },
                    w: Fix32 { bits: 0 },
                }),
    {
        let dark = crate::color::color_none();
        let mut memory: Vec<NormRgbw> = Vec::new();
        let mut i: usize = 0;
        while i < STRIP_LEN
            invariant
                i <= STRIP_LEN,
                memory@.len() == i,
                forall|j: int| 0 <= j < i ==> (#[trigger] memory@[j]) == dark,
                dark.in_range(),
                dark.r.bits == 0 && dark.g.bits == 0 && dark.b.bits == 0 && dark.w.bits == 0,
            decreases STRIP_LEN - i,
        {
            memory.push(dark);
            i += 1;
        }
        ColorMemoryController { memory }
    }

    /// Writes one LED.
    pub fn set(&mut self, i: usize, color: NormRgbw)
        requires
            old(self).wf(),
            i < STRIP_LEN,
            color.in_range(),
        ensures
            final(self).wf(),
            final(self).view() == old(self).view().update(i as int, color),
    {
        self.memory[i] = color;
        proof {
            assert forall|j: int| 0 <= j < STRIP_LEN implies (#[trigger] self.view()[j]).in_range()
            by {
                if j != i {
                    assert(self.view()[j] == old(self).view()[j]);
                }
            }
        }
    }

    /// Reads one LED back.
    pub fn get(&self, i: usize) -> (color: NormRgbw)
        requires
            self.wf(),
            i < STRIP_LEN,
        ensures
            color == self.view()[i as int],
    {
        self.memory[i]
    }

    /// Writes one color across `[from, to)`.
    pub fn set_range(&mut self, from: usize, to: usize, color: NormRgbw)
        requires
            old(self).wf(),
            from <= to <= STRIP_LEN,
            color.in_range(),
        ensures
            final(self).wf(),
            final(self).view().len() == STRIP_LEN,
            forall|j: int|
                0 <= j < STRIP_LEN ==> (#[trigger] final(self).view()[j]) == if from <= j < to {
                    color
                } else {
                    old(self).view()[j]
                },
    {
        let mut i: usize = from;
        while i < to
            invariant
                from <= i <= to <= STRIP_LEN,
                self.wf(),
                color.in_range(),
                forall|j: int|
                    0 <= j < STRIP_LEN ==> (#[trigger] self.view()[j]) == if from <= j < i {
                        color
                    } else {
                        old(self).view()[j]
                    },
            decreases to - i,
        {
            self.set(i, color);
            i += 1;
        }
    }

    /// Writes one color across the whole strip.
    pub fn set_all(&mut self, color: NormRgbw)
        requires
            old(self).wf(),
            color.in_range(),
        ensures
            final(self).wf(),
            forall|j: int| 0 <= j < STRIP_LEN ==> (#[trigger] final(self).view()[j]) == color,
    {
        self.set_range(0, STRIP_LEN, color);
    }

    /// The frame as wire words, one per LED, with the given brightness
    /// applied on the perceptual curve.
    pub fn words(&self, brightness: Fix32) -> (r: Vec<u32>)
        requires
            self.wf(),
            0 <= brightness.bits <= ONE_BITS,
        ensures
            r@.len() == STRIP_LEN,
            forall|i: int|
                0 <= i < STRIP_LEN ==> (#[trigger] r@[i]) == lit_word_spec(
                    self.view()[i],
                    exp_bits(brightness.bits as int),
                ),
    {
        let mut r: Vec<u32> = Vec::new();
        let mut i: usize = 0;
        while i < STRIP_LEN
            invariant
                i <= STRIP_LEN,
                self.wf(),
                0 <= brightness.bits <= ONE_BITS,
                r@.len() == i,
                forall|j: int|
                    0 <= j < i ==> (#[trigger] r@[j]) == lit_word_spec(
                        self.view()[j],
                        exp_bits(brightness.bits as int),
                    ),
            decreases STRIP_LEN - i,
        {
            let lit = self.get(i).brightness(brightness);
            let word = lit.into_u32();
            proof {
                assert(lit == scale_color_spec(
                    self.view()[i as int],
                    brightness_scale(exp_bits(brightness.bits as int)),
                ));
            }
            r.push(word);
            i += 1;
        }
        r
    }
}

} // verus!
