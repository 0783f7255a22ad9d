//! The demonstration show: every palette color marches a loading bar up the
//! strip and back off it, then a full hue sweep rotates down the strip, then
//! one warm gradient frame; the cycle repeats until cancelled.

use vstd::prelude::*;

verus! {

use crate::color::{palette_spec, standard_palette, NormRgbw};
use crate::controller::{ColorMemoryController, STRIP_LEN};
use crate::fix::Fix32;
use crate::hsv::{full_hue_color, hsv_to_rgbw, is_full_hue};
use crate::show::{dark_spec, gradient_pixel_spec, State};

/// Where the demo stands in its cycle.
#[derive(Clone, Copy, Debug, PartialEq, Eq, Structural)]
pub enum DemoState {
    /// Lighting the bar of palette color `idx`, next LED `l`.
    Bar { idx: usize, l: usize },
    /// Clearing that bar again, next LED `l`.
    Unbar { idx: usize, l: usize },
    /// One blank frame before the next color.
    Clear { idx: usize },
    /// The rotating hue sweep at rotation step `shift` of 360.
    Rainbow { shift: usize },
    /// One red-to-yellow gradient frame, then the cycle restarts.
    Sweep,
}

/// The demo's successor state.
pub open spec fn demo_next_spec(st: DemoState) -> DemoState {
    match st {
        DemoState::Bar { idx, l } => if l + 1 < STRIP_LEN {
            DemoState::Bar { idx, l: (l + 1) as usize }
        } else {
            DemoState::Unbar { idx, l: 0 }
        },
        DemoState::Unbar { idx, l } => if l + 1 < STRIP_LEN {
            DemoState::Unbar { idx, l: (l + 1) as usize }
        } else {
            DemoState::Clear { idx }
        },
        DemoState::Clear { idx } => if idx + 1 < 9 {
            DemoState::Bar { idx: (idx + 1) as usize, l: 0 }
        } else {
            DemoState::Rainbow { shift: 0 }
        },
        DemoState::Rainbow { shift } => if shift + 1 < 360 {
            DemoState::Rainbow { shift: (shift + 1) as usize }
        } else {
            DemoState::Sweep
        },
        DemoState::Sweep => DemoState::Bar { idx: 0, l: 0 },
    }
}

/// The pause after a frame of each phase, in milliseconds.
pub open spec fn demo_delay_spec(st: DemoState) -> u32 {
    match st {
        DemoState::Bar { .. } => 2u32,
        DemoState::Unbar { .. } => 2u32,
        DemoState::Clear { .. } => 0u32,
        DemoState::Rainbow { .. } => 16u32,
        DemoState::Sweep => 0u32,
    }
}

/// The cycling demonstration effect; runs until cancelled.
#[derive(Debug)]
pub struct DemoShow {
    state: DemoState,
}

impl DemoShow {
    pub closed spec fn spec_state(&self) -> DemoState {
        self.state
    }

    pub open spec fn wf(&self) -> bool {
        match self.spec_state() {
            DemoState::Bar { idx, l } => idx < 9 && l < STRIP_LEN,
            DemoState::Unbar { idx, l } => idx < 9 && l < STRIP_LEN,
            DemoState::Clear { idx } => idx < 9,
            DemoState::Rainbow { shift } => shift < 360,
            DemoState::Sweep => true,
        }
    }

    pub fn new() -> (s: DemoShow)
        ensures
            s.wf(),
            s.spec_state() == (DemoState::Bar { idx: 0usize, l: 0usize }),
    {
        DemoShow { state: DemoState::Bar { idx: 0, l: 0 } }
    }

    /// Renders one unit of the cycle and advances; never finishes on its
    /// own.  A bar phase touches one LED, the blank and sweep phases paint
    /// the whole strip, the rainbow phase repaints it with rotated hues.
    pub fn update(&mut self, ctrl: &mut ColorMemoryController) -> (r: (State, u32))
        requires
            old(self).wf(),
            old(ctrl).wf(),
        ensures
            final(self).wf(),
            final(self).spec_state() == demo_next_spec(old(self).spec_state()),
            final(ctrl).wf(),
            r.0 == State::Running,
            r.1 == demo_delay_spec(old(self).spec_state()),
            (old(self).spec_state() matches DemoState::Bar { idx, l } ==> final(ctrl).view()
                == old(ctrl).view().update(l as int, palette_spec(idx as int))),
            (old(self).spec_state() matches DemoState::Unbar { l, .. } ==> final(ctrl).view()
                == old(ctrl).view().update(l as int, dark_spec())),
            (old(self).spec_state() matches DemoState::Clear { .. } ==> forall|j: int|
                0 <= j < STRIP_LEN ==> (#[trigger] final(ctrl).view()[j]) == dark_spec()),
            (old(self).spec_state() matches DemoState::Rainbow { .. } ==> forall|j: int|
                0 <= j < STRIP_LEN ==> is_full_hue(#[trigger] final(ctrl).view()[j])),
            (old(self).spec_state() == DemoState::Sweep ==> forall|j: int|
                0 <= j < STRIP_LEN ==> (#[trigger] final(ctrl).view()[j]) == gradient_pixel_spec(
                    palette_spec(0),
                    palette_spec(6),
                    j,
                )),
    {
        let delay: u32;
        match self.state {
            DemoState::Bar { idx, l } => {
                ctrl.set(l, standard_palette(idx));
                delay = 2;
                self.state = if l + 1 < STRIP_LEN {
                    DemoState::Bar { idx, l: l + 1 }
                } else {
                    DemoState::Unbar { idx, l: 0 }
                };
            },
            DemoState::Unbar { idx, l } => {
                ctrl.set(l, crate::color::color_none());
                delay = 2;
                self.state = if l + 1 < STRIP_LEN {
                    DemoState::Unbar { idx, l: l + 1 }
                } else {
                    DemoState::Clear { idx }
                };
            },
            DemoState::Clear { idx } => {
                ctrl.set_all(crate::color::color_none());
                delay = 0;
                self.state = if idx + 1 < 9 {
                    DemoState::Bar { idx: idx + 1, l: 0 }
                } else {
                    DemoState::Rainbow { shift: 0 }
                };
            },
            DemoState::Rainbow { shift } => {
                let shiftf = Fix32 { bits: ((shift as i32) * 65536) / 359 };
                let one = Fix32::one();
                let mut l: usize = 0;
                while l < STRIP_LEN
                    invariant
                        l <= STRIP_LEN,
                        ctrl.wf(),
                        0 <= shiftf.bits <= 65536,
                        one.bits == 65536,
                        forall|j: int| 0 <= j < l ==> is_full_hue(#[trigger] ctrl.view()[j]),
                    decreases STRIP_LEN - l,
                {
                    let lf = Fix32 { bits: ((l as i32) * 65536) / 239 };
                    let hue = shiftf.plus(lf).wrap_unit();
                    let c = hsv_to_rgbw(hue, one, one);
                    ctrl.set(l, c);
                    proof {
                        if hue.bits == 65536 {
                            assert(ctrl.view()[l as int] == full_hue_color(0));
                        } else {
                            assert(ctrl.view()[l as int] == full_hue_color(hue.bits as int));
                        }
                        assert(is_full_hue(ctrl.view()[l as int]));
                    }
                    l += 1;
                }
                delay = 16;
                self.state = if shift + 1 < 360 {
                    DemoState::Rainbow { shift: shift + 1 }
                } else {
                    DemoState::Sweep
                };
            },
            DemoState::Sweep => {
                let mut sweep = crate::show::GradientShow::new(
                    standard_palette(0),
                    standard_palette(6),
                );
                let _ = sweep.update(ctrl);
                delay = 0;
                self.state = DemoState::Bar { idx: 0, l: 0 };
            },
        }
        (State::Running, delay)
    }
}

} // verus!
