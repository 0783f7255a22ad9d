//! The clock show: the strip split in two halves, hours as a red bar on the
//! first, minutes as a green bar on the second, with blue tick marks every
//! five minutes and brighter ones on the quarters.

use vstd::prelude::*;

verus! {

use crate::color::NormRgbw;
use crate::controller::{ColorMemoryController, STRIP_LEN};
use crate::fix::Fix32;
use crate::show::{dark_spec, State};

/// LEDs per half of the strip.
pub const CLOCK_HALF: usize = 120;
/// LEDs per hour on the hour half.
pub const LEDS_PER_HOUR: usize = 10;
/// LEDs per minute on the minute half.
pub const LEDS_PER_MINUTE: usize = 2;

/// The tick-mark color at tick index `i`: quarters are pure blue, the rest
/// an even blue-white blend.
pub open spec fn tick_color_spec(i: int) -> NormRgbw {
    if i % 3 == 0 {
        NormRgbw {
            r: Fix32 { bits: 0 },
            g: Fix32 { bits: 0 },
            b: Fix32 { bits: 65536 },
            w: Fix32 { bits: 0 },
        }
    } else {
        NormRgbw {
            r: Fix32 { bits: 0 },
            g: Fix32 { bits: 0 },
            b: Fix32 { bits: 32768 },
            w: Fix32 { bits: 32768 },
        }
    }
}

/// The two bars without the tick marks.
pub open spec fn clock_bar_spec(hour: int, minute: int, l: int) -> NormRgbw {
    if l < LEDS_PER_HOUR * hour {
        crate::color::palette_spec(0)
    } else if CLOCK_HALF <= l < CLOCK_HALF + LEDS_PER_MINUTE * minute {
        crate::color::palette_spec(1)
    } else {
        dark_spec()
    }
}

/// The color LED `l` shows for a clock reading: tick marks sit on every
/// tenth LED of both halves and cover the bars beneath them.
pub open spec fn clock_pixel_spec(hour: int, minute: int, l: int) -> NormRgbw {
    if l % 10 == 0 {
        tick_color_spec((l % (CLOCK_HALF as int)) / 10)
    } else {
        clock_bar_spec(hour, minute, l)
    }
}

/// The color LED `l` shows on the channel-mixing clock: red up to the hour
/// mark, green up to the minute mark, blue up to the second mark when
/// seconds are shown, all on the same LEDs.
pub open spec fn rgb_clock_pixel_spec(
    hour: int,
    minute: int,
    second: int,
    with_seconds: bool,
    l: int,
) -> NormRgbw {
    NormRgbw {
        r: Fix32 { bits: if l < (hour + 1) * 10 { 65536 } else { 0 } },
        g: Fix32 { bits: if l < (minute + 1) * 4 { 65536 } else { 0 } },
        b: Fix32 {
            bits: if with_seconds && l < (second + 1) * 4 {
                65536
            } else {
                0
            },
        },
        w: Fix32 { bits: 0 },
    }
}

/// The channel-mixing clock: hours, minutes and (optionally) seconds as
/// overlapping red, green and blue bars over the whole strip, one second per
/// frame.  It starts at an evening reading and finishes at midnight.
#[derive(Debug)]
pub struct RgbClockShow {
    with_seconds: bool,
    hour: usize,
    minute: usize,
    second: usize,
}

impl RgbClockShow {
    pub closed spec fn spec_hour(&self) -> int {
        self.hour as int
    }

    pub closed spec fn spec_minute(&self) -> int {
        self.minute as int
    }

    pub closed spec fn spec_second(&self) -> int {
        self.second as int
    }

    pub closed spec fn spec_with_seconds(&self) -> bool {
        self.with_seconds
    }

    pub open spec fn wf(&self) -> bool {
        &&& 19 <= self.spec_hour() < 24
        &&& 12 <= self.spec_minute() < 60
        &&& 0 <= self.spec_second() < 60
    }

    /// Renders the current reading and advances one second; each new hour the
    /// minute hand restarts at twelve past, a quirk the dial keeps; finishes
    /// at midnight.
    pub fn update(&mut self, ctrl: &mut ColorMemoryController) -> (r: (State, u32))
        requires
            old(self).wf(),
            old(ctrl).wf(),
        ensures
            final(ctrl).wf(),
            forall|j: int|
                0 <= j < STRIP_LEN ==> (#[trigger] final(ctrl).view()[j]) == rgb_clock_pixel_spec(
                    old(self).spec_hour(),
                    old(self).spec_minute(),
                    old(self).spec_second(),
                    old(self).spec_with_seconds(),
                    j,
                ),
            final(self).spec_with_seconds() == old(self).spec_with_seconds(),
            final(self).spec_second() == if old(self).spec_second() + 1 == 60 {
                0int
            } else {
                old(self).spec_second() + 1
            },
            final(self).spec_minute() == if old(self).spec_second() + 1 == 60 {
                if old(self).spec_minute() + 1 == 60 {
                    12int
                } else {
                    old(self).spec_minute() + 1
                }
            } else {
                old(self).spec_minute()
            },
            final(self).spec_hour() == if old(self).spec_second() + 1 == 60 && old(
                self,
            ).spec_minute() + 1 == 60 {
                old(self).spec_hour() + 1
            } else {
                old(self).spec_hour()
            },
            r.0 == (if final(self).spec_hour() == 24 {
                State::Finished
            } else {
                State::Running
            }),
            r.1 == 500u32,
            r.0 == State::Running ==> final(self).wf(),
    {
        let ghost h = self.spec_hour();
        let ghost m = self.spec_minute();
        let ghost sec = self.spec_second();
        let red = crate::color::color_red();
        let green = crate::color::color_green();
        let blue = crate::color::color_blue();
        let mut l: usize = 0;
        while l < STRIP_LEN
            invariant
                l <= STRIP_LEN,
                ctrl.wf(),
                self.wf(),
                h == self.spec_hour() && m == self.spec_minute() && sec == self.spec_second(),
                red == crate::color::palette_spec(0),
                green == crate::color::palette_spec(1),
                blue == crate::color::palette_spec(2),
                forall|j: int|
                    0 <= j < l ==> (#[trigger] ctrl.view()[j]) == rgb_clock_pixel_spec(
                        h,
                        m,
                        sec,
                        self.spec_with_seconds(),
                        j,
                    ),
                forall|j: int| l <= j < STRIP_LEN ==> (#[trigger] ctrl.view()[j]) == old(
                    ctrl,
                ).view()[j],
            decreases STRIP_LEN - l,
        {
            let mut color = crate::color::color_none();
            if l < (self.hour + 1) * 10 {
                color = color.add_channels(red);
            }
            if l < (self.minute + 1) * 4 {
                color = color.add_channels(green);
            }
            if self.with_seconds && l < (self.second + 1) * 4 {
                color = color.add_channels(blue);
            }
            proof {
                assert(color == rgb_clock_pixel_spec(
                    h,
                    m,
                    sec,
                    self.spec_with_seconds(),
                    l as int,
                ));
            }
            ctrl.set(l, color);
            l += 1;
        }
        self.second = self.second + 1;
        if self.second == 60 {
            self.second = 0;
            self.minute = self.minute + 1;
            if self.minute == 60 {
                self.minute = 12;
                self.hour = self.hour + 1;
            }
        }
        let st = if self.hour == 24 {
            State::Finished
        } else {
            State::Running
        };
        (st, 500)
    }
}

impl Default for RgbClockShow {
    /// The dial at its fixed evening start, seconds hidden.
    fn default() -> (s: RgbClockShow)
        ensures
            s.wf(),
            !s.spec_with_seconds(),
    {
        RgbClockShow { with_seconds: false, hour: 19, minute: 12, second: 0 }
    }
}

/// The two-half clock face, advancing one minute per frame from midnight;
/// finishes after twelve hours.
#[derive(Debug)]
pub struct SeparatedClockShow {
    hour: usize,
    minute: usize,
}

impl SeparatedClockShow {
    pub closed spec fn spec_hour(&self) -> int {
        self.hour as int
    }

    pub closed spec fn spec_minute(&self) -> int {
        self.minute as int
    }

    pub open spec fn wf(&self) -> bool {
        0 <= self.spec_hour() < 12 && 0 <= self.spec_minute() < 60
    }

    pub fn new() -> (s: SeparatedClockShow)
        ensures
            s.wf(),
            s.spec_hour() == 0 && s.spec_minute() == 0,
    {
        SeparatedClockShow { hour: 0, minute: 0 }
    }

    /// Renders the current reading and advances one minute; finishes when
    /// the twelve hours are up.
    pub fn update(&mut self, ctrl: &mut ColorMemoryController) -> (r: (State, u32))
        requires
            old(self).wf(),
            old(ctrl).wf(),
        ensures
            final(ctrl).wf(),
            forall|j: int|
                0 <= j < STRIP_LEN ==> (#[trigger] final(ctrl).view()[j]) == clock_pixel_spec(
                    old(self).spec_hour(),
                    old(self).spec_minute(),
                    j,
                ),
            final(self).spec_minute() == (old(self).spec_minute() + 1) % 60,
            final(self).spec_hour() == old(self).spec_hour() + (old(self).spec_minute() + 1) / 60,
            r.0 == (if final(self).spec_hour() == 12 {
                State::Finished
            } else {
                State::Running
            }),
            r.1 == 100u32,
            r.0 == State::Running ==> final(self).wf(),
    {
        let ghost h = self.spec_hour();
        let ghost m = self.spec_minute();
        ctrl.set_all(crate::color::color_none());
        ctrl.set_range(0, LEDS_PER_HOUR * self.hour, crate::color::color_red());
        ctrl.set_range(
            CLOCK_HALF,
            CLOCK_HALF + LEDS_PER_MINUTE * self.minute,
            crate::color::color_green(),
        );
        assert(forall|j: int|
            0 <= j < STRIP_LEN ==> (#[trigger] ctrl.view()[j]) == clock_bar_spec(h, m, j));
        let quarter = crate::color::color_blue();
        let blend = crate::color::color_blue().mix(crate::color::color_white());
        proof {
            assert(blend == (NormRgbw {
                r: Fix32 { bits: 0 },
                g: Fix32 { bits: 0 },
                b: Fix32 { bits: 32768 },
                w: Fix32 { bits: 32768 },
            }));
        }
        let mut i: usize = 0;
        while i < 12
            invariant
                i <= 12,
                ctrl.wf(),
                quarter == tick_color_spec(0),
                blend == (NormRgbw {
                    r: Fix32 { bits: 0 },
                    g: Fix32 { bits: 0 },
                    b: Fix32 { bits: 32768 },
                    w: Fix32 { bits: 32768 },
                }),
                forall|j: int|
                    0 <= j < STRIP_LEN ==> (#[trigger] ctrl.view()[j]) == if j % 10 == 0 && (j % (
                    CLOCK_HALF as int)) / 10 < i {
                        tick_color_spec((j % (CLOCK_HALF as int)) / 10)
                    } else {
                        clock_bar_spec(h, m, j)
                    },
            decreases 12 - i,
        {
            let l = i * LEDS_PER_HOUR;
            let color = if i % 3 == 0 {
                quarter
            } else {
                blend
            };
            ctrl.set(l, color);
            ctrl.set(CLOCK_HALF + l, color);
            proof {
                assert(color == tick_color_spec(i as int));
            }
            i += 1;
        }
        self.minute = self.minute + 1;
        if self.minute == 60 {
            self.minute = 0;
            self.hour = self.hour + 1;
        }
        let st = if self.hour == 12 {
            State::Finished
        } else {
            State::Running
        };
        (st, 100)
    }
}

} // verus!
