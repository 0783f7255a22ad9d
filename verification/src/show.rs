//! The show state machines.
//!
//! A show renders one unit of work per `update` call — at most one frame —
//! and reports whether it is finished; the engine displays the frame and
//! polls the cancellation token between units, so no show ever blocks
//! without an intervening cancellation check.  The second value every
//! `update` returns is the pause, in milliseconds, the show wants after the
//! frame.

use vstd::prelude::*;

verus! {

use crate::color::{gradient_channel, palette_spec, standard_palette, NormRgbw};
use crate::controller::{ColorMemoryController, STRIP_LEN};
use crate::fix::Fix32;

/// Whether a show has more work to do.
#[derive(Clone, Copy, Debug, PartialEq, Eq, Structural)]
pub enum State {
    Running,
    Finished,
}

/// The all-dark color.
pub open spec fn dark_spec() -> NormRgbw {
    NormRgbw {
        r: Fix32 { bits: 0 },
        g: Fix32 { bits: 0 },
        b: Fix32 { bits: 0 },
        w: Fix32 { bits: 0 },
    }
}

/// A single color over the whole strip: the single-shot shape.  One frame
/// goes out and the show signals completion unconditionally; the strip
/// latches the frame, so the color stays up without re-rendering.
#[derive(Debug)]
pub struct UniformShow {
    color: NormRgbw,
}

impl UniformShow {
    pub closed spec fn spec_color(&self) -> NormRgbw {
        self.color
    }

    pub open spec fn wf(&self) -> bool {
        self.spec_color().in_range()
    }

    pub fn new(color: NormRgbw) -> (s: UniformShow)
        requires
            color.in_range(),
        ensures
            s.spec_color() == color,
            s.wf(),
    {
        UniformShow { color }
    }

    /// Renders exactly one frame of the show's color and signals completion
    /// unconditionally.
    pub fn update(&mut self, ctrl: &mut ColorMemoryController) -> (r: (State, u32))
        requires
            old(self).wf(),
            old(ctrl).wf(),
        ensures
            *final(self) == *old(self),
            final(ctrl).wf(),
            forall|j: int|
                0 <= j < STRIP_LEN ==> (#[trigger] final(ctrl).view()[j]) == old(
                    self,
                ).spec_color(),
            r == (State::Finished, 0u32),
    {
        ctrl.set_all(self.color);
        (State::Finished, 0)
    }
}

/// The off show: renders nothing and finishes at once, leaving the strip to
/// the fresh (dark) buffer.
#[derive(Debug)]
pub struct NullShow;

impl Default for NullShow {
    fn default() -> (s: NullShow) {
        NullShow
    }
}

impl NullShow {
    /// Does nothing and reports completion.
    pub fn update(&mut self, ctrl: &mut ColorMemoryController) -> (r: (State, u32))
        requires
            old(ctrl).wf(),
        ensures
            final(ctrl).wf(),
            final(ctrl).view() == old(ctrl).view(),
            r == (State::Finished, 0u32),
    {
        let _ = ctrl;
        (State::Finished, 0)
    }
}

/// A one-frame smoke test: the whole strip red, then done.
#[derive(Debug)]
pub struct QuickShow;

impl Default for QuickShow {
    fn default() -> (s: QuickShow) {
        QuickShow
    }
}

impl QuickShow {
    pub fn update(&mut self, ctrl: &mut ColorMemoryController) -> (r: (State, u32))
        requires
            old(ctrl).wf(),
        ensures
            final(ctrl).wf(),
            forall|j: int| 0 <= j < STRIP_LEN ==> (#[trigger] final(ctrl).view()[j]) == palette_spec(0),
            r == (State::Finished, 0u32),
    {
        ctrl.set_all(standard_palette(0));
        (State::Finished, 0)
    }
}

/// One dark frame, then done.
#[derive(Debug)]
pub struct OffShow;

impl Default for OffShow {
    fn default() -> (s: OffShow) {
        OffShow
    }
}

impl OffShow {
    pub fn update(&mut self, ctrl: &mut ColorMemoryController) -> (r: (State, u32))
        requires
            old(ctrl).wf(),
        ensures
            final(ctrl).wf(),
            forall|j: int| 0 <= j < STRIP_LEN ==> (#[trigger] final(ctrl).view()[j]) == dark_spec(),
            r == (State::Finished, 0u32),
    {
        ctrl.set_all(crate::color::color_none());
        (State::Finished, 0)
    }
}

/// The blend a gradient show paints at LED `l`.
pub open spec fn gradient_pixel_spec(from: NormRgbw, to: NormRgbw, l: int) -> NormRgbw {
    let t = l * 65536 / (STRIP_LEN - 1);
    NormRgbw {
        r: Fix32 { bits: gradient_channel(from.r.bits as int, to.r.bits as int, t) as i32 },
        g: Fix32 { bits: gradient_channel(from.g.bits as int, to.g.bits as int, t) as i32 },
        b: Fix32 { bits: gradient_channel(from.b.bits as int, to.b.bits as int, t) as i32 },
        w: Fix32 { bits: gradient_channel(from.w.bits as int, to.w.bits as int, t) as i32 },
    }
}

/// A linear blend from one color to another across the strip; one frame.
#[derive(Debug)]
pub struct GradientShow {
    from: NormRgbw,
    to: NormRgbw,
}

impl GradientShow {
    pub closed spec fn spec_from(&self) -> NormRgbw {
        self.from
    }

    pub closed spec fn spec_to(&self) -> NormRgbw {
        self.to
    }

    pub open spec fn wf(&self) -> bool {
        self.spec_from().in_range() && self.spec_to().in_range()
    }

    pub fn new(from: NormRgbw, to: NormRgbw) -> (s: GradientShow)
        requires
            from.in_range(),
            to.in_range(),
        ensures
            s.spec_from() == from,
            s.spec_to() == to,
            s.wf(),
    {
        GradientShow { from, to }
    }

    /// Paints the blend across the strip and finishes.
    pub fn update(&mut self, ctrl: &mut ColorMemoryController) -> (r: (State, u32))
        requires
            old(self).wf(),
            old(ctrl).wf(),
        ensures
            *final(self) == *old(self),
            final(ctrl).wf(),
            forall|j: int|
                0 <= j < STRIP_LEN ==> (#[trigger] final(ctrl).view()[j]) == gradient_pixel_spec(
                    old(self).spec_from(),
                    old(self).spec_to(),
                    j,
                ),
            r == (State::Finished, 0u32),
    {
        let mut l: usize = 0;
        while l < STRIP_LEN
            invariant
                l <= STRIP_LEN,
                self.wf(),
                ctrl.wf(),
                forall|j: int|
                    0 <= j < l ==> (#[trigger] ctrl.view()[j]) == gradient_pixel_spec(
                        self.spec_from(),
                        self.spec_to(),
                        j,
                    ),
                forall|j: int| l <= j < STRIP_LEN ==> (#[trigger] ctrl.view()[j]) == old(
                    ctrl,
                ).view()[j],
            decreases STRIP_LEN - l,
        {
            let t = Fix32 { bits: ((l as i32) * 65536) / 239 };
            let c = self.from.gradient(self.to, t);
            proof {
                assert(c == gradient_pixel_spec(self.spec_from(), self.spec_to(), l as int));
            }
            ctrl.set(l, c);
            l += 1;
        }
        (State::Finished, 0)
    }
}

/// The color a byte-pattern segment shows: separators stay dark, a set bit
/// is green, a clear bit is red.
pub open spec fn segment_color_spec(data: Seq<u8>, ispace: int) -> NormRgbw {
    if ispace % 9 == 8 {
        dark_spec()
    } else if data[ispace / 9] & (1u8 << ((ispace % 9) as u8)) != 0 {
        palette_spec(1)
    } else {
        palette_spec(0)
    }
}

/// The byte-pattern diagnostic: bytes laid out bit by bit along the strip,
/// one rendered segment per update, a dark separator after every byte.
#[derive(Debug)]
pub struct ByteShow {
    data: Vec<u8>,
    ispace: usize,
}

impl ByteShow {
    pub closed spec fn spec_data(&self) -> Seq<u8> {
        self.data@
    }

    pub closed spec fn spec_ispace(&self) -> int {
        self.ispace as int
    }

    /// The number of rendered segments: nine per byte.
    pub open spec fn spec_nspace(&self) -> int {
        9 * self.spec_data().len() as int
    }

    pub open spec fn wf(&self) -> bool {
        &&& 1 <= self.spec_data().len()
        &&& self.spec_nspace() <= STRIP_LEN
        &&& 0 <= self.spec_ispace() <= self.spec_nspace()
    }

    pub fn new(data: Vec<u8>) -> (s: ByteShow)
        requires
            1 <= data@.len(),
            9 * data@.len() as int <= STRIP_LEN,
        ensures
            s.spec_data() == data@,
            s.spec_ispace() == 0,
            s.wf(),
    {
        ByteShow { data, ispace: 0 }
    }

    /// Renders the next segment; the first update clears the strip first.
    /// Finishes once every segment is out.
    pub fn update(&mut self, ctrl: &mut ColorMemoryController) -> (r: (State, u32))
        requires
            old(self).wf(),
            old(self).spec_ispace() < old(self).spec_nspace(),
            old(ctrl).wf(),
        ensures
            final(self).wf(),
            final(self).spec_data() == old(self).spec_data(),
            final(self).spec_ispace() == old(self).spec_ispace() + 1,
            final(ctrl).wf(),
            ({
                let lper = STRIP_LEN as int / old(self).spec_nspace();
                let lo = old(self).spec_ispace() * lper;
                let hi = (old(self).spec_ispace() + 1) * lper;
                forall|j: int|
                    0 <= j < STRIP_LEN ==> (#[trigger] final(ctrl).view()[j]) == if lo <= j < hi {
                        segment_color_spec(old(self).spec_data(), old(self).spec_ispace())
                    } else if old(self).spec_ispace() == 0 {
                        dark_spec()
                    } else {
                        old(ctrl).view()[j]
                    }
            }),
            r.0 == (if final(self).spec_ispace() == final(self).spec_nspace() {
                State::Finished
            } else {
                State::Running
            }),
            r.1 == 0u32,
    {
        let nbytes = self.data.len();
        let nspace = 9 * nbytes;
        let lper = STRIP_LEN / nspace;
        if self.ispace == 0 {
            ctrl.set_all(crate::color::color_none());
        }
        let bit = self.ispace % 9;
        let color = if bit == 8 {
            crate::color::color_none()
        } else {
            let byte = self.data[self.ispace / 9];
            if byte & (1u8 << (bit as u8)) != 0 {
                standard_palette(1)
            } else {
                standard_palette(0)
            }
        };
        proof {
            assert(color == segment_color_spec(self.spec_data(), self.spec_ispace()));
            assert((self.ispace as int) * (lper as int) <= (self.ispace as int + 1) * (lper as int)
                <= (nspace as int) * (lper as int) <= STRIP_LEN) by (nonlinear_arith)
                requires
                    0 <= (self.ispace as int) && (self.ispace as int) < (nspace as int),
                    lper == STRIP_LEN as int / (nspace as int),
                    0 < (nspace as int) && (nspace as int) <= STRIP_LEN,
                    STRIP_LEN == 240,
            ;
        }
        let lo = self.ispace * lper;
        let hi = (self.ispace + 1) * lper;
        ctrl.set_range(lo, hi, color);
        self.ispace = self.ispace + 1;
        let st = if self.ispace == nspace {
            State::Finished
        } else {
            State::Running
        };
        (st, 0)
    }
}

} // verus!
