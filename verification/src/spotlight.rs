//! The spotlight show: one lit span on a dark strip, steered live from the
//! remote.  Digit keys pick which property the arrow keys currently steer —
//! hue, saturation, value, position or extent — and holding an arrow key
//! accelerates the steps.

use vstd::prelude::*;

verus! {

use crate::color::{NormHsv, NormRgbw};
use crate::controller::{ColorMemoryController, STRIP_LEN};
use crate::fix::Fix32;
use crate::hsv::{hsv_rgb_spec, hsv_to_rgbw};
use crate::remote::RemoteAction;
use crate::show::{dark_spec, State};

/// Which property the arrow keys steer.
#[derive(Clone, Copy, Debug, PartialEq, Eq, Structural)]
pub enum Controllable {
    Hue,
    Sat,
    Val,
    Pos,
    Ext,
}

/// Whether an action is one of the two arrow keys that move the selected
/// property.
pub open spec fn accel_action(action: RemoteAction) -> bool {
    action == RemoteAction::Prev || action == RemoteAction::Next
}

/// The property a digit key selects; other keys keep the selection.
pub open spec fn select_spec(c: Controllable, action: RemoteAction) -> Controllable {
    match action {
        RemoteAction::One => Controllable::Hue,
        RemoteAction::Two => Controllable::Sat,
        RemoteAction::Three => Controllable::Val,
        RemoteAction::Four => Controllable::Pos,
        RemoteAction::Five => Controllable::Ext,
        _ => c,
    }
}

/// The fraction moved per arrow press after `time` repeats.
pub open spec fn mag_spec(time: int) -> int {
    655 + 7 * time
}

/// The index step per arrow press after `time` repeats.
pub open spec fn move_step_spec(time: int) -> int {
    1 + (655 * time + 65535) / 65536
}

pub open spec fn clamp_spec(x: int, lo: int, hi: int) -> int {
    if x < lo {
        lo
    } else if x > hi {
        hi
    } else {
        x
    }
}

/// Everything one steering action decides: the HSV setting, position,
/// extent, selected property and acceleration counter after the action.
pub open spec fn steer_spec(
    hsv: NormHsv,
    pos: int,
    ext: int,
    ctl: Controllable,
    time: int,
    action: RemoteAction,
) -> (NormHsv, int, int, Controllable, int) {
    let time2 = if accel_action(action) {
        if time < 1000 {
            time + 1
        } else {
            time
        }
    } else {
        0
    };
    let mag = mag_spec(time2);
    let st = move_step_spec(time2);
    let ctl2 = select_spec(ctl, action);
    if !accel_action(action) {
        (hsv, pos, ext, ctl2, time2)
    } else {
        let forward = action == RemoteAction::Next;
        match ctl2 {
            Controllable::Hue => {
                let shifted = if forward {
                    hsv.hue.bits + mag
                } else {
                    hsv.hue.bits + (65536 - mag)
                };
                let wrapped = if shifted < 65536 {
                    shifted
                } else {
                    shifted - 65536
                };
                (
                    NormHsv { hue: Fix32 { bits: wrapped as i32 }, sat: hsv.sat, val: hsv.val },
                    pos,
                    ext,
                    ctl2,
                    time2,
                )
            },
            Controllable::Sat => {
                let moved = clamp_spec(
                    if forward {
                        hsv.sat.bits + mag
                    } else {
                        hsv.sat.bits - mag
                    },
                    0,
                    65536,
                );
                (
                    NormHsv { hue: hsv.hue, sat: Fix32 { bits: moved as i32 }, val: hsv.val },
                    pos,
                    ext,
                    ctl2,
                    time2,
                )
            },
            Controllable::Val => {
                let moved = clamp_spec(
                    if forward {
                        hsv.val.bits + mag
                    } else {
                        hsv.val.bits - mag
                    },
                    0,
                    65536,
                );
                (
                    NormHsv { hue: hsv.hue, sat: hsv.sat, val: Fix32 { bits: moved as i32 } },
                    pos,
                    ext,
                    ctl2,
                    time2,
                )
            },
            Controllable::Pos => {
                let pos2 = clamp_spec(
                    if forward {
                        pos + st
                    } else {
                        pos - st
                    },
                    0,
                    STRIP_LEN as int,
                );
                let bd = if pos2 <= STRIP_LEN - pos2 {
                    pos2
                } else {
                    STRIP_LEN - pos2
                };
                let ext2 = if ext > bd {
                    bd
                } else {
                    ext
                };
                (hsv, pos2, ext2, ctl2, time2)
            },
            Controllable::Ext => {
                let ext2 = clamp_spec(
                    if forward {
                        ext + st
                    } else {
                        ext - st
                    },
                    0,
                    STRIP_LEN as int / 2,
                );
                let pos2 = if pos < STRIP_LEN - pos {
                    if pos < ext2 {
                        ext2
                    } else {
                        pos
                    }
                } else {
                    if pos > STRIP_LEN - ext2 {
                        STRIP_LEN - ext2
                    } else {
                        pos
                    }
                };
                (hsv, pos2, ext2, ctl2, time2)
            },
        }
    }
}

/// The color the spotlight paints, from its HSV setting.
pub open spec fn spot_color_spec(hsv: NormHsv) -> NormRgbw {
    let rgb = hsv_rgb_spec(hsv.hue.bits as int, hsv.sat.bits as int, hsv.val.bits as int);
    NormRgbw {
        r: Fix32 { bits: rgb.0 as i32 },
        g: Fix32 { bits: rgb.1 as i32 },
        b: Fix32 { bits: rgb.2 as i32 },
        w: Fix32 { bits: 0 },
    }
}

/// A steerable spotlight; runs until cancelled.
#[derive(Debug)]
pub struct SpotlightShow {
    light_hsv: NormHsv,
    light_pos: usize,
    light_ext: usize,
    controllable: Controllable,
    time: u32,
}

impl SpotlightShow {
    pub closed spec fn spec_hsv(&self) -> NormHsv {
        self.light_hsv
    }

    pub closed spec fn spec_pos(&self) -> int {
        self.light_pos as int
    }

    pub closed spec fn spec_ext(&self) -> int {
        self.light_ext as int
    }

    pub closed spec fn spec_time(&self) -> int {
        self.time as int
    }

    pub closed spec fn spec_controllable(&self) -> Controllable {
        self.controllable
    }

    pub open spec fn wf(&self) -> bool {
        &&& self.spec_hsv().in_range()
        &&& self.spec_ext() <= self.spec_pos()
        &&& self.spec_pos() + self.spec_ext() <= STRIP_LEN
        &&& self.spec_ext() <= STRIP_LEN / 2
        &&& self.spec_time() <= 1000
    }

    /// A spotlight of the given color covering the whole strip.
    pub fn new(light_hsv: NormHsv) -> (s: SpotlightShow)
        requires
            light_hsv.in_range(),
        ensures
            s.wf(),
            s.spec_hsv() == light_hsv,
    {
        SpotlightShow {
            light_hsv,
            light_pos: STRIP_LEN / 2,
            light_ext: STRIP_LEN / 2,
            controllable: Controllable::Hue,
            time: 0,
        }
    }

    /// Steers by one consumed action: arrow keys move the selected
    /// property, digits one through five select it, anything else only
    /// resets the acceleration.
    fn steer(&mut self, action: RemoteAction)
        requires
            old(self).wf(),
        ensures
            final(self).wf(),
            ({
                let t = steer_spec(
                    old(self).spec_hsv(),
                    old(self).spec_pos(),
                    old(self).spec_ext(),
                    old(self).spec_controllable(),
                    old(self).spec_time(),
                    action,
                );
                &&& final(self).spec_hsv() == t.0
                &&& final(self).spec_pos() == t.1
                &&& final(self).spec_ext() == t.2
                &&& final(self).spec_controllable() == t.3
                &&& final(self).spec_time() == t.4
            }),
    {
        let accelerate = matches!(action, RemoteAction::Prev) || matches!(
            action,
            RemoteAction::Next,
        );
        if accelerate {
            if self.time < 1000 {
                self.time = self.time + 1;
            }
        } else {
            self.time = 0;
        }
        // a fraction step around 0.01, an index step around 1, both growing
        // while an arrow key repeats
        let mag: i32 = 655 + 7 * (self.time as i32);
        let step: usize = 1 + ((655 * (self.time as usize) + 65535) / 65536);
        assert(0 < mag <= 7655);
        assert(step <= 12);
        match action {
            RemoteAction::One => self.controllable = Controllable::Hue,
            RemoteAction::Two => self.controllable = Controllable::Sat,
            RemoteAction::Three => self.controllable = Controllable::Val,
            RemoteAction::Four => self.controllable = Controllable::Pos,
            RemoteAction::Five => self.controllable = Controllable::Ext,
            _ => {},
        }
        if accelerate {
            let forward = matches!(action, RemoteAction::Next);
            match self.controllable {
                Controllable::Hue => {
                    let h = self.light_hsv.hue.bits;
                    let shifted = if forward {
                        h + mag
                    } else {
                        h + (65536 - mag)
                    };
                    self.light_hsv.hue = Fix32 { bits: shifted }.wrap_unit();
                },
                Controllable::Sat => {
                    let s = self.light_hsv.sat.bits;
                    let moved = if forward {
                        if s + mag > 65536 {
                            65536
                        } else {
                            s + mag
                        }
                    } else {
                        if s - mag < 0 {
                            0
                        } else {
                            s - mag
                        }
                    };
                    self.light_hsv.sat = Fix32 { bits: moved };
                },
                Controllable::Val => {
                    let v = self.light_hsv.val.bits;
                    let moved = if forward {
                        if v + mag > 65536 {
                            65536
                        } else {
                            v + mag
                        }
                    } else {
                        if v - mag < 0 {
                            0
                        } else {
                            v - mag
                        }
                    };
                    self.light_hsv.val = Fix32 { bits: moved };
                },
                Controllable::Pos => {
                    let pos = if forward {
                        if self.light_pos + step > STRIP_LEN {
                            STRIP_LEN
                        } else {
                            self.light_pos + step
                        }
                    } else {
                        if step > self.light_pos {
                            0
                        } else {
                            self.light_pos - step
                        }
                    };
                    self.light_pos = pos;
                    let boundary_dist = if pos <= STRIP_LEN - pos {
                        pos
                    } else {
                        STRIP_LEN - pos
                    };
                    if self.light_ext > boundary_dist {
                        self.light_ext = boundary_dist;
                    }
                },
                Controllable::Ext => {
                    let ext = if forward {
                        if self.light_ext + step > STRIP_LEN / 2 {
                            STRIP_LEN / 2
                        } else {
                            self.light_ext + step
                        }
                    } else {
                        if step > self.light_ext {
                            0
                        } else {
                            self.light_ext - step
                        }
                    };
                    self.light_ext = ext;
                    if self.light_pos < STRIP_LEN - self.light_pos {
                        if self.light_pos < ext {
                            self.light_pos = ext;
                        }
                    } else {
                        if self.light_pos > STRIP_LEN - ext {
                            self.light_pos = STRIP_LEN - ext;
                        }
                    }
                },
            }
        }
    }

    /// Consumes any pending action to steer the light, then renders it: the
    /// lit span around the position, dark LEDs outside it.
    pub fn update(
        &mut self,
        ctrl: &mut ColorMemoryController,
        remote_input: &mut Option<RemoteAction>,
    ) -> (r: (State, u32))
        requires
            old(self).wf(),
            old(ctrl).wf(),
        ensures
            final(self).wf(),
            final(ctrl).wf(),
            *final(remote_input) is None,
            *old(remote_input) is None ==> *final(self) == *old(self),
            (*old(remote_input) matches Some(a) ==> ({
                let t = steer_spec(
                    old(self).spec_hsv(),
                    old(self).spec_pos(),
                    old(self).spec_ext(),
                    old(self).spec_controllable(),
                    old(self).spec_time(),
                    a,
                );
                &&& final(self).spec_hsv() == t.0
                &&& final(self).spec_pos() == t.1
                &&& final(self).spec_ext() == t.2
                &&& final(self).spec_controllable() == t.3
                &&& final(self).spec_time() == t.4
            })),
            forall|j: int|
                0 <= j < STRIP_LEN ==> (#[trigger] final(ctrl).view()[j]) == ({
                    let lo = final(self).spec_pos() - final(self).spec_ext();
                    let hi = final(self).spec_pos() + final(self).spec_ext();
                    if lo <= j < hi {
                        spot_color_spec(final(self).spec_hsv())
                    } else {
                        dark_spec()
                    }
                }),
            r == (State::Running, 0u32),
    {
        let pending = *remote_input;
        *remote_input = None;
        if let Some(action) = pending {
            self.steer(action);
        }
        let from = self.light_pos - self.light_ext;
        let to = self.light_pos + self.light_ext;
        let color = hsv_to_rgbw(self.light_hsv.hue, self.light_hsv.sat, self.light_hsv.val);
        proof {
            assert(color == spot_color_spec(self.spec_hsv()));
        }
        let dark = crate::color::color_none();
        ctrl.set_range(0, from, dark);
        ctrl.set_range(from, to, color);
        ctrl.set_range(to, STRIP_LEN, dark);
        (State::Running, 0)
    }
}

impl Default for SpotlightShow {
    /// A red spotlight covering the whole strip.
    fn default() -> (s: SpotlightShow)
        ensures
            s.wf(),
    {
        SpotlightShow::new(
            NormHsv {
                hue: Fix32 { bits: 0 },
                sat: Fix32 { bits: 65536 },
                val: Fix32 { bits: 65536 },
            },
        )
    }
}

} // verus!
