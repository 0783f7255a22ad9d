//! The shared configuration store: which show is selected next and how
//! bright the strip runs.
//!
//! The input task writes it, the show engine reads it once per frame.  The
//! brightness moves on a twentieth grid so that repeated stepping lands on
//! exact values: ten steps from zero reach exactly one half, twenty reach
//! exactly one.

use vstd::prelude::*;

verus! {

use crate::color::NormRgbw;
use crate::fix::{Fix32, ONE_BITS};

/// One selectable show, as a closed set of variants; the engine turns a
/// selection into a running instance.
#[derive(Clone, Copy, Debug, PartialEq, Eq, Structural)]
pub enum ShowSelect {
    /// Render nothing and finish.
    Null,
    /// A single color on the whole strip.
    Uniform(NormRgbw),
    /// The wandering snake chasing random fruit.
    Snake,
    /// Random colors every frame.
    Random,
    /// The two-half clock face.
    SeparatedClock,
    /// The byte-pattern diagnostic.
    Byte,
    /// The cycling demonstration.
    Demo,
}

/// The cross-task configuration: the pending show selection and the strip
/// brightness in `[0, 1]`.
#[derive(Debug)]
pub struct Config {
    pub show: Option<ShowSelect>,
    pub brightness: Fix32,
}

impl Config {
    /// The brightness is a valid fraction and any selected fill color is
    /// normalized.
    pub open spec fn wf(&self) -> bool {
        &&& 0 <= self.brightness.bits <= ONE_BITS
        &&& (self.show matches Some(ShowSelect::Uniform(c)) ==> c.in_range())
    }
}

impl Default for Config {
    /// No show selected, full brightness.
    fn default() -> (c: Config)
        ensures
            c.show is None,
            c.brightness.bits == ONE_BITS,
            c.wf(),
    {
        Config { show: None, brightness: Fix32 { bits: ONE_BITS } }
    }
}

/// Which of the twenty brightness steps a value sits on, rounding to the
/// nearest step.
pub open spec fn brightness_level(bits: int) -> int {
    (bits * 20 + 32768) / 65536
}

/// The brightness value of a step index.
pub open spec fn level_brightness(lv: int) -> int {
    (lv * 65536 + 10) / 20
}

/// One brightness step up: the next twentieth, clamped at one.
pub open spec fn step_up_spec(bits: int) -> int {
    let lv = brightness_level(bits) + 1;
    if lv >= 20 {
        level_brightness(20)
    } else {
        level_brightness(lv)
    }
}

/// One brightness step down: the previous twentieth, clamped at zero.
pub open spec fn step_down_spec(bits: int) -> int {
    let lv = brightness_level(bits) - 1;
    if lv <= 0 {
        level_brightness(0)
    } else {
        level_brightness(lv)
    }
}

/// Raises the brightness by one twentieth of full scale, saturating at one.
pub fn brightness_up(b: Fix32) -> (r: Fix32)
    requires
        0 <= b.bits <= ONE_BITS,
    ensures
        r.bits == step_up_spec(b.bits as int),
        0 <= r.bits <= ONE_BITS,
        b.bits <= r.bits,
{
    let lv: i32 = (b.bits * 20 + 32768) / 65536 + 1;
    let lv: i32 = if lv >= 20 {
        20
    } else {
        lv
    };
    let r = Fix32 { bits: (lv * 65536 + 10) / 20 };
    assert(b.bits <= r.bits && r.bits <= 65536) by (nonlinear_arith)
        requires
            0 <= b.bits <= 65536,
            lv == if (b.bits * 20 + 32768) / 65536 + 1 >= 20 {
                20int
            } else {
                (b.bits * 20 + 32768) / 65536 + 1
            },
            r.bits == (lv * 65536 + 10) / 20,
    ;
    r
}

/// Lowers the brightness by one twentieth of full scale, saturating at zero.
pub fn brightness_down(b: Fix32) -> (r: Fix32)
    requires
        0 <= b.bits <= ONE_BITS,
    ensures
        r.bits == step_down_spec(b.bits as int),
        0 <= r.bits <= ONE_BITS,
        r.bits <= b.bits,
{
    let lv: i32 = (b.bits * 20 + 32768) / 65536 - 1;
    let lv: i32 = if lv <= 0 {
        0
    } else {
        lv
    };
    let r = Fix32 { bits: (lv * 65536 + 10) / 20 };
    assert(r.bits <= b.bits && 0 <= r.bits) by (nonlinear_arith)
        requires
            0 <= b.bits <= 65536,
            lv == if (b.bits * 20 + 32768) / 65536 - 1 <= 0 {
                0int
            } else {
                (b.bits * 20 + 32768) / 65536 - 1
            },
            r.bits == (lv * 65536 + 10) / 20,
    ;
    r
}

/// Repeated upward steps from a starting brightness.
pub open spec fn steps_up(bits: int, n: nat) -> int
    decreases n,
{
    if n == 0 {
        bits
    } else {
        step_up_spec(steps_up(bits, (n - 1) as nat))
    }
}

/// Ten upward steps from darkness reach exactly one half — not above — and
/// ten more reach exactly full brightness, where further steps saturate.
pub proof fn lemma_brightness_steps_exact()
    ensures
        steps_up(0, 10) == 32768,
        steps_up(0, 20) == 65536,
        step_up_spec(65536) == 65536,
{
    reveal_with_fuel(steps_up, 21);
    assert(steps_up(0, 10) == 32768);
    assert(steps_up(0, 20) == 65536);
    assert(step_up_spec(65536) == 65536);
}

} // verus!
