//! The RGBW color model: normalized fixed-point channels, 8-bit
//! quantization, and the strip's packed GRBW wire format.

use vstd::prelude::*;

verus! {

use crate::fix::{Fix32, ONE_BITS};

/// Euler's number in Q16.16, truncated: used by the perceptual brightness curve.
pub const E_BITS: i32 = 178145;

/// A color as four normalized channels (red, green, blue, white), each
/// nominally in `[0, 1]`.  Arithmetic does not clamp; transmission does.
#[derive(Clone, Copy, Debug, PartialEq, Eq, Structural)]
pub struct NormRgbw {
    pub r: Fix32,
    pub g: Fix32,
    pub b: Fix32,
    pub w: Fix32,
}

/// A color as hue, saturation and value, each in `[0, 1]`; the hue is a
/// fraction of a full turn.
#[derive(Clone, Copy, Debug, PartialEq, Eq, Structural)]
pub struct NormHsv {
    pub hue: Fix32,
    pub sat: Fix32,
    pub val: Fix32,
}

impl NormRgbw {
    /// All four channels lie in `[0, 1]`.
    pub open spec fn in_range(self) -> bool {
        &&& 0 <= self.r.bits <= ONE_BITS
        &&& 0 <= self.g.bits <= ONE_BITS
        &&& 0 <= self.b.bits <= ONE_BITS
        &&& 0 <= self.w.bits <= ONE_BITS
    }

    pub fn new(r: Fix32, g: Fix32, b: Fix32, w: Fix32) -> (c: NormRgbw)
        ensures
            c == (NormRgbw { r, g, b, w }),
    {
        NormRgbw { r, g, b, w }
    }

    pub fn into_channel_array(self) -> (a: [Fix32; 4])
        ensures
            a@ == seq![self.r, self.g, self.b, self.w],
    {
        let a = [self.r, self.g, self.b, self.w];
        proof {
            assert(a@ =~= seq![self.r, self.g, self.b, self.w]);
        }
        a
    }

    pub fn from_channel_array(channels: [Fix32; 4]) -> (c: NormRgbw)
        ensures
            c.r == channels@[0],
            c.g == channels@[1],
            c.b == channels@[2],
            c.w == channels@[3],
    {
        NormRgbw { r: channels[0], g: channels[1], b: channels[2], w: channels[3] }
    }

    pub fn into_u8_channel_array(self) -> (a: [u8; 4])
        ensures
            a@[0] == denorm_channel(self.r.bits as int),
            a@[1] == denorm_channel(self.g.bits as int),
            a@[2] == denorm_channel(self.b.bits as int),
            a@[3] == denorm_channel(self.w.bits as int),
    {
        denormalize(self.into_channel_array())
    }

    pub fn from_u8_channel_array(channels: [u8; 4]) -> (c: NormRgbw)
        ensures
            c.r.bits == norm_channel(channels@[0] as int),
            c.g.bits == norm_channel(channels@[1] as int),
            c.b.bits == norm_channel(channels@[2] as int),
            c.w.bits == norm_channel(channels@[3] as int),
    {
        NormRgbw::from_channel_array(normalize(channels))
    }

    /// The color as one packed GRBW wire word.
    pub fn into_u32(self) -> (word: u32)
        ensures
            word == pack_spec(
                denorm_channel(self.r.bits as int),
                denorm_channel(self.g.bits as int),
                denorm_channel(self.b.bits as int),
                denorm_channel(self.w.bits as int),
            ),
    {
        pack(self.into_u8_channel_array())
    }

    pub fn from_u32(value: u32) -> (c: NormRgbw)
        ensures
            c.r.bits == norm_channel(unpack_r(value)),
            c.g.bits == norm_channel(unpack_g(value)),
            c.b.bits == norm_channel(unpack_b(value)),
            c.w.bits == norm_channel(unpack_w(value)),
    {
        NormRgbw::from_u8_channel_array(unpack(value))
    }
}

/// One channel scaled by a factor in `[0, 1]`, flooring.
pub open spec fn scale_channel(ch: int, s: int) -> int {
    ch * s / 65536
}

/// One channel of a linear blend: `(1 - t) * a + t * b`, each product flooring.
pub open spec fn gradient_channel(a: int, b: int, t: int) -> int {
    (65536 - t) * a / 65536 + t * b / 65536
}

/// The perceptual dimming factor for a brightness whose exponential came out
/// as `eb`: `(exp(b) - 1) / (e - 1)`, clamped into `[0, 1]`.
pub open spec fn brightness_scale(eb: int) -> int {
    let q = (eb - 65536) * 65536 / (E_BITS - 65536);
    if q <= 65536 {
        q
    } else {
        65536
    }
}

/// What `exp_fix` returns for given argument bits: cordic's Q16.16
/// exponential, a pure function of its input.
pub uninterp spec fn exp_bits(x: int) -> int;

/// Relies on `cordic::exp` over `fixed::FixedI32<U16>`: the result depends on
/// the argument alone; on `[0, 1]` it is at least one, `exp(0)` is exactly
/// one, and `exp(1)` is exactly the crate's `E` constant (178145 bits).
#[verifier::external_body]
fn exp_fix(x: Fix32) -> (r: Fix32)
    requires
        0 <= x.bits <= ONE_BITS,
    ensures
        r.bits == exp_bits(x.bits as int),
        65536 <= r.bits,
        x.bits == 0 ==> r.bits == 65536,
        x.bits == ONE_BITS ==> r.bits == E_BITS,
{
    let v = fixed::FixedI32::<fixed::types::extra::U16>::from_bits(x.bits);
    Fix32 { bits: cordic::exp(v).to_bits() }
}

impl NormRgbw {
    /// Multiplies every channel by a factor in `[0, 1]`.
    pub fn scale(self, scalar: Fix32) -> (c: NormRgbw)
        requires
            self.in_range(),
            0 <= scalar.bits <= ONE_BITS,
        ensures
            c.r.bits == scale_channel(self.r.bits as int, scalar.bits as int),
            c.g.bits == scale_channel(self.g.bits as int, scalar.bits as int),
            c.b.bits == scale_channel(self.b.bits as int, scalar.bits as int),
            c.w.bits == scale_channel(self.w.bits as int, scalar.bits as int),
            c.in_range(),
    {
        proof {
            crate::fix::lemma_mulf_bounds(self.r.bits as int, scalar.bits as int);
            crate::fix::lemma_mulf_bounds(self.g.bits as int, scalar.bits as int);
            crate::fix::lemma_mulf_bounds(self.b.bits as int, scalar.bits as int);
            crate::fix::lemma_mulf_bounds(self.w.bits as int, scalar.bits as int);
        }
        NormRgbw {
            r: self.r.times(scalar),
            g: self.g.times(scalar),
            b: self.b.times(scalar),
            w: self.w.times(scalar),
        }
    }

    /// Dims the color on the perceptual curve `(exp(b) - 1) / (e - 1)`.
    /// Zero brightness yields the zero color; full brightness leaves the
    /// color unchanged: the curve's endpoints are fixed points.
    pub fn brightness(self, b: Fix32) -> (c: NormRgbw)
        requires
            self.in_range(),
            0 <= b.bits <= ONE_BITS,
        ensures
            c.r.bits == scale_channel(
                self.r.bits as int,
                brightness_scale(exp_bits(b.bits as int)),
            ),
            c.g.bits == scale_channel(
                self.g.bits as int,
                brightness_scale(exp_bits(b.bits as int)),
            ),
            c.b.bits == scale_channel(
                self.b.bits as int,
                brightness_scale(exp_bits(b.bits as int)),
            ),
            c.w.bits == scale_channel(
                self.w.bits as int,
                brightness_scale(exp_bits(b.bits as int)),
            ),
            c.in_range(),
            b.bits == 0 ==> c == (NormRgbw {
                r: Fix32 { bits: 0 },
                g: Fix32 { bits: 0 },
                b: Fix32 { bits: 0 },
                w: Fix32 { bits: 0 },
            }),
            b.bits == ONE_BITS ==> c == self,
    {
        let e = exp_fix(b);
        let num = Fix32 { bits: e.bits - ONE_BITS };
        let den = Fix32 { bits: E_BITS - ONE_BITS };
        proof {
            crate::fix::lemma_divf_le(num.bits as int, den.bits as int);
        }
        let q = num.divide(den);
        let s = q.min_of(Fix32::one());
        proof {
            if b.bits == ONE_BITS {
                assert(s.bits == 65536);
                assert(self.r.bits * 65536 / 65536 == self.r.bits);
                assert(self.g.bits * 65536 / 65536 == self.g.bits);
                assert(self.b.bits * 65536 / 65536 == self.b.bits);
                assert(self.w.bits * 65536 / 65536 == self.w.bits);
            }
            if b.bits == 0 {
                assert(s.bits == 0);
                assert(self.r.bits * 0 / 65536 == 0);
                assert(self.g.bits * 0 / 65536 == 0);
                assert(self.b.bits * 0 / 65536 == 0);
                assert(self.w.bits * 0 / 65536 == 0);
            }
        }
        self.scale(s)
    }

    /// The linear blend `(1 - t) * self + t * other`, channel by channel.
    pub fn gradient(self, other: NormRgbw, t: Fix32) -> (c: NormRgbw)
        requires
            self.in_range(),
            other.in_range(),
            0 <= t.bits <= ONE_BITS,
        ensures
            c.r.bits == gradient_channel(self.r.bits as int, other.r.bits as int, t.bits as int),
            c.g.bits == gradient_channel(self.g.bits as int, other.g.bits as int, t.bits as int),
            c.b.bits == gradient_channel(self.b.bits as int, other.b.bits as int, t.bits as int),
            c.w.bits == gradient_channel(self.w.bits as int, other.w.bits as int, t.bits as int),
            c.in_range(),
    {
        let u = Fix32 { bits: ONE_BITS - t.bits };
        proof {
            crate::fix::lemma_mulf_bounds(u.bits as int, self.r.bits as int);
            crate::fix::lemma_mulf_bounds(u.bits as int, self.g.bits as int);
            crate::fix::lemma_mulf_bounds(u.bits as int, self.b.bits as int);
            crate::fix::lemma_mulf_bounds(u.bits as int, self.w.bits as int);
            crate::fix::lemma_mulf_bounds(t.bits as int, other.r.bits as int);
            crate::fix::lemma_mulf_bounds(t.bits as int, other.g.bits as int);
            crate::fix::lemma_mulf_bounds(t.bits as int, other.b.bits as int);
            crate::fix::lemma_mulf_bounds(t.bits as int, other.w.bits as int);
        }
        NormRgbw {
            r: u.times(self.r).plus(t.times(other.r)),
            g: u.times(self.g).plus(t.times(other.g)),
            b: u.times(self.b).plus(t.times(other.b)),
            w: u.times(self.w).plus(t.times(other.w)),
        }
    }

    /// The even blend of two colors.
    pub fn mix(self, other: NormRgbw) -> (c: NormRgbw)
        requires
            self.in_range(),
            other.in_range(),
        ensures
            c.r.bits == gradient_channel(self.r.bits as int, other.r.bits as int, 32768),
            c.g.bits == gradient_channel(self.g.bits as int, other.g.bits as int, 32768),
            c.b.bits == gradient_channel(self.b.bits as int, other.b.bits as int, 32768),
            c.w.bits == gradient_channel(self.w.bits as int, other.w.bits as int, 32768),
            c.in_range(),
    {
        self.gradient(other, Fix32 { bits: 32768 })
    }

    /// Channel-wise sum; the caller keeps the sums in range.
    pub fn add_channels(self, other: NormRgbw) -> (c: NormRgbw)
        requires
            self.r.bits + other.r.bits <= i32::MAX,
            self.g.bits + other.g.bits <= i32::MAX,
            self.b.bits + other.b.bits <= i32::MAX,
            self.w.bits + other.w.bits <= i32::MAX,
            i32::MIN <= self.r.bits + other.r.bits,
            i32::MIN <= self.g.bits + other.g.bits,
            i32::MIN <= self.b.bits + other.b.bits,
            i32::MIN <= self.w.bits + other.w.bits,
        ensures
            c.r.bits == self.r.bits + other.r.bits,
            c.g.bits == self.g.bits + other.g.bits,
            c.b.bits == self.b.bits + other.b.bits,
            c.w.bits == self.w.bits + other.w.bits,
    {
        NormRgbw {
            r: self.r.plus(other.r),
            g: self.g.plus(other.g),
            b: self.b.plus(other.b),
            w: self.w.plus(other.w),
        }
    }
}

impl NormHsv {
    pub fn new(hue: Fix32, sat: Fix32, val: Fix32) -> (c: NormHsv)
        ensures
            c == (NormHsv { hue, sat, val }),
    {
        NormHsv { hue, sat, val }
    }

    /// All three components lie in `[0, 1]`.
    pub open spec fn in_range(self) -> bool {
        &&& 0 <= self.hue.bits <= ONE_BITS
        &&& 0 <= self.sat.bits <= ONE_BITS
        &&& 0 <= self.val.bits <= ONE_BITS
    }

    /// The linear blend `(1 - t) * self + t * other`, component by component.
    pub fn gradient(self, other: NormHsv, t: Fix32) -> (c: NormHsv)
        requires
            self.in_range(),
            other.in_range(),
            0 <= t.bits <= ONE_BITS,
        ensures
            c.hue.bits == gradient_channel(self.hue.bits as int, other.hue.bits as int, t.bits as int),
            c.sat.bits == gradient_channel(self.sat.bits as int, other.sat.bits as int, t.bits as int),
            c.val.bits == gradient_channel(self.val.bits as int, other.val.bits as int, t.bits as int),
            c.in_range(),
    {
        let u = Fix32 { bits: ONE_BITS - t.bits };
        proof {
            crate::fix::lemma_mulf_bounds(u.bits as int, self.hue.bits as int);
            crate::fix::lemma_mulf_bounds(u.bits as int, self.sat.bits as int);
            crate::fix::lemma_mulf_bounds(u.bits as int, self.val.bits as int);
            crate::fix::lemma_mulf_bounds(t.bits as int, other.hue.bits as int);
            crate::fix::lemma_mulf_bounds(t.bits as int, other.sat.bits as int);
            crate::fix::lemma_mulf_bounds(t.bits as int, other.val.bits as int);
        }
        NormHsv {
            hue: u.times(self.hue).plus(t.times(other.hue)),
            sat: u.times(self.sat).plus(t.times(other.sat)),
            val: u.times(self.val).plus(t.times(other.val)),
        }
    }

    /// The even blend of two colors.
    pub fn mix(self, other: NormHsv) -> (c: NormHsv)
        requires
            self.in_range(),
            other.in_range(),
        ensures
            c.hue.bits == gradient_channel(self.hue.bits as int, other.hue.bits as int, 32768),
            c.sat.bits == gradient_channel(self.sat.bits as int, other.sat.bits as int, 32768),
            c.val.bits == gradient_channel(self.val.bits as int, other.val.bits as int, 32768),
            c.in_range(),
    {
        self.gradient(other, Fix32 { bits: 32768 })
    }
}

/// The fixed palette behind the numeric remote keys, 0-indexed.
pub open spec fn palette_spec(i: int) -> NormRgbw {
    let z = Fix32 { bits: 0 };
    let o = Fix32 { bits: 65536 };
    if i == 0 {
        NormRgbw { r: o, g: z, b: z, w: z }  // red
    } else if i == 1 {
        NormRgbw { r: z, g: o, b: z, w: z }  // green
    } else if i == 2 {
        NormRgbw { r: z, g: z, b: o, w: z }  // blue
    } else if i == 3 {
        NormRgbw { r: z, g: z, b: z, w: o }  // white channel only
    } else if i == 4 {
        NormRgbw { r: o, g: o, b: o, w: z }  // rgb white
    } else if i == 5 {
        NormRgbw { r: o, g: o, b: o, w: o }  // all channels
    } else if i == 6 {
        NormRgbw { r: o, g: o, b: z, w: z }  // yellow
    } else if i == 7 {
        NormRgbw { r: o, g: z, b: o, w: z }  // magenta
    } else {
        NormRgbw { r: z, g: o, b: o, w: z }  // cyan
    }
}

/// Picks one of the nine standard palette colors.
pub fn standard_palette(i: usize) -> (c: NormRgbw)
    requires
        i < 9,
    ensures
        c == palette_spec(i as int),
        c.in_range(),
{
    let z = Fix32 { bits: 0 };
    let o = Fix32 { bits: 65536 };
    if i == 0 {
        NormRgbw { r: o, g: z, b: z, w: z }
    } else if i == 1 {
        NormRgbw { r: z, g: o, b: z, w: z }
    } else if i == 2 {
        NormRgbw { r: z, g: z, b: o, w: z }
    } else if i == 3 {
        NormRgbw { r: z, g: z, b: z, w: o }
    } else if i == 4 {
        NormRgbw { r: o, g: o, b: o, w: z }
    } else if i == 5 {
        NormRgbw { r: o, g: o, b: o, w: o }
    } else if i == 6 {
        NormRgbw { r: o, g: o, b: z, w: z }
    } else if i == 7 {
        NormRgbw { r: o, g: z, b: o, w: z }
    } else {
        NormRgbw { r: z, g: o, b: o, w: z }
    }
}

/// The all-zero color.
pub fn color_none() -> (c: NormRgbw)
    ensures
        c.r.bits == 0 && c.g.bits == 0 && c.b.bits == 0 && c.w.bits == 0,
        c.in_range(),
{
    let z = Fix32 { bits: 0 };
    NormRgbw { r: z, g: z, b: z, w: z }
}

/// Pure red.
pub fn color_red() -> (c: NormRgbw)
    ensures
        c == palette_spec(0),
        c.in_range(),
{
    standard_palette(0)
}

/// Pure green.
pub fn color_green() -> (c: NormRgbw)
    ensures
        c == palette_spec(1),
        c.in_range(),
{
    standard_palette(1)
}

/// Pure blue.
pub fn color_blue() -> (c: NormRgbw)
    ensures
        c == palette_spec(2),
        c.in_range(),
{
    standard_palette(2)
}

/// The white channel alone.
pub fn color_white() -> (c: NormRgbw)
    ensures
        c == palette_spec(3),
        c.in_range(),
{
    standard_palette(3)
}

/// 8-bit quantization of one channel: round to the nearest of 255 steps,
/// saturating into `[0, 255]`.
pub open spec fn denorm_channel(bits: int) -> int {
    if bits <= 0 {
        0
    } else if (bits * 255 + 32768) / 65536 > 255 {
        255
    } else {
        (bits * 255 + 32768) / 65536
    }
}

/// The normalized value of one 8-bit channel.
pub open spec fn norm_channel(n: int) -> int {
    n * 65536 / 255
}

/// Quantizes four channels to one byte each.
pub fn denormalize(channels: [Fix32; 4]) -> (a: [u8; 4])
    ensures
        forall|i: int| 0 <= i < 4 ==> #[trigger] a@[i] == denorm_channel(channels@[i].bits as int),
{
    let a = [
        denorm_channel_exec(channels[0]),
        denorm_channel_exec(channels[1]),
        denorm_channel_exec(channels[2]),
        denorm_channel_exec(channels[3]),
    ];
    proof {
        assert forall|i: int| 0 <= i < 4 implies a@[i] == denorm_channel(
            channels@[i].bits as int,
        ) by {
            assert(a@ =~= seq![a[0], a[1], a[2], a[3]]);
        }
    }
    a
}

fn denorm_channel_exec(ch: Fix32) -> (n: u8)
    ensures
        n == denorm_channel(ch.bits as int),
{
    if ch.bits <= 0 {
        0
    } else {
        let d: i64 = ((ch.bits as i64) * 255 + 32768) / 65536;
        if d > 255 {
            255
        } else {
            d as u8
        }
    }
}

/// Expands four bytes back to normalized channels.
pub fn normalize(channels: [u8; 4]) -> (a: [Fix32; 4])
    ensures
        forall|i: int| 0 <= i < 4 ==> #[trigger] a@[i].bits == norm_channel(channels@[i] as int),
        forall|i: int| 0 <= i < 4 ==> 0 <= #[trigger] a@[i].bits <= ONE_BITS,
{
    let a = [
        norm_channel_exec(channels[0]),
        norm_channel_exec(channels[1]),
        norm_channel_exec(channels[2]),
        norm_channel_exec(channels[3]),
    ];
    proof {
        assert(a@ =~= seq![a[0], a[1], a[2], a[3]]);
    }
    a
}

fn norm_channel_exec(n: u8) -> (ch: Fix32)
    ensures
        ch.bits == norm_channel(n as int),
        0 <= ch.bits <= ONE_BITS,
{
    Fix32 { bits: (((n as i64) * 65536) / 255) as i32 }
}

/// The strip's wire word for four channel bytes, in G,R,B,W order from the
/// most significant byte down.
pub open spec fn pack_spec(r: int, g: int, b: int, w: int) -> int {
    g * 0x100_0000 + r * 0x1_0000 + b * 0x100 + w
}

pub open spec fn unpack_r(c: u32) -> int {
    (c as int) / 0x1_0000 % 0x100
}

pub open spec fn unpack_g(c: u32) -> int {
    (c as int) / 0x100_0000 % 0x100
}

pub open spec fn unpack_b(c: u32) -> int {
    (c as int) / 0x100 % 0x100
}

pub open spec fn unpack_w(c: u32) -> int {
    (c as int) % 0x100
}

/// Packs `[r, g, b, w]` bytes into one wire word; `g` lands in the most
/// significant byte and `w` in the least significant one.
pub fn pack(channels: [u8; 4]) -> (grbw: u32)
    ensures
        grbw == pack_spec(
            channels@[0] as int,
            channels@[1] as int,
            channels@[2] as int,
            channels@[3] as int,
        ),
{
    let r = channels[0] as u32;
    let g = channels[1] as u32;
    let b = channels[2] as u32;
    let w = channels[3] as u32;
    g * 0x100_0000 + r * 0x1_0000 + b * 0x100 + w
}

/// Splits a wire word back into `[r, g, b, w]` bytes.
pub fn unpack(c: u32) -> (channels: [u8; 4])
    ensures
        channels@[0] == unpack_r(c),
        channels@[1] == unpack_g(c),
        channels@[2] == unpack_b(c),
        channels@[3] == unpack_w(c),
{
    let r = (c / 0x1_0000 % 0x100) as u8;
    let g = (c / 0x100_0000 % 0x100) as u8;
    let b = (c / 0x100 % 0x100) as u8;
    let w = (c % 0x100) as u8;
    let a = [r, g, b, w];
    proof {
        assert(a@ =~= seq![r, g, b, w]);
    }
    a
}

/// Unpacking a packed word recovers the four bytes exactly.
pub proof fn lemma_pack_unpack(r: u8, g: u8, b: u8, w: u8)
    ensures
        unpack_r(pack_spec(r as int, g as int, b as int, w as int) as u32) == r,
        unpack_g(pack_spec(r as int, g as int, b as int, w as int) as u32) == g,
        unpack_b(pack_spec(r as int, g as int, b as int, w as int) as u32) == b,
        unpack_w(pack_spec(r as int, g as int, b as int, w as int) as u32) == w,
{
    let word = pack_spec(r as int, g as int, b as int, w as int);
    assert(0 <= word < 0x1_0000_0000);
    assert(word as u32 == word);
    assert(unpack_r(word as u32) == r && unpack_g(word as u32) == g && unpack_b(word as u32)
        == b && unpack_w(word as u32) == w) by (nonlinear_arith)
        requires
            word == g * 0x100_0000 + r * 0x1_0000 + b * 0x100 + w,
            0 <= r < 0x100 && 0 <= g < 0x100 && 0 <= b < 0x100 && 0 <= w < 0x100,
            unpack_r(word as u32) == word / 0x1_0000 % 0x100,
            unpack_g(word as u32) == word / 0x100_0000 % 0x100,
            unpack_b(word as u32) == word / 0x100 % 0x100,
            unpack_w(word as u32) == word % 0x100,
    ;
}

/// The wire word a color is transmitted as: every channel quantized to a
/// byte, the bytes packed in GRBW order.
pub open spec fn color_word_spec(c: NormRgbw) -> int {
    pack_spec(
        denorm_channel(c.r.bits as int),
        denorm_channel(c.g.bits as int),
        denorm_channel(c.b.bits as int),
        denorm_channel(c.w.bits as int),
    )
}

/// Quantizing a color to its wire word and reading it back reproduces each
/// channel within 1/255 (257 raw units): only the 8-bit step is lost.
pub proof fn lemma_color_word_round_trip(c: NormRgbw)
    requires
        c.in_range(),
    ensures
        ({
            let word = color_word_spec(c) as u32;
            &&& -257 <= norm_channel(unpack_r(word)) - c.r.bits <= 257
            &&& -257 <= norm_channel(unpack_g(word)) - c.g.bits <= 257
            &&& -257 <= norm_channel(unpack_b(word)) - c.b.bits <= 257
            &&& -257 <= norm_channel(unpack_w(word)) - c.w.bits <= 257
        }),
{
    let dr = denorm_channel(c.r.bits as int);
    let dg = denorm_channel(c.g.bits as int);
    let db = denorm_channel(c.b.bits as int);
    let dw = denorm_channel(c.w.bits as int);
    assert(0 <= dr <= 255 && 0 <= dg <= 255 && 0 <= db <= 255 && 0 <= dw <= 255) by (nonlinear_arith)
        requires
            dr == denorm_channel(c.r.bits as int),
            dg == denorm_channel(c.g.bits as int),
            db == denorm_channel(c.b.bits as int),
            dw == denorm_channel(c.w.bits as int),
            c.in_range(),
    ;
    lemma_pack_unpack(dr as u8, dg as u8, db as u8, dw as u8);
    lemma_channel_quantization(c.r.bits as int);
    lemma_channel_quantization(c.g.bits as int);
    lemma_channel_quantization(c.b.bits as int);
    lemma_channel_quantization(c.w.bits as int);
}

/// Quantizing a channel to 8 bits and expanding it again loses at most
/// 1/255 (257 raw units): the only loss is the 8-bit step.
pub proof fn lemma_channel_quantization(bits: int)
    requires
        0 <= bits <= ONE_BITS,
    ensures
        0 <= norm_channel(denorm_channel(bits)) <= ONE_BITS,
        -257 <= norm_channel(denorm_channel(bits)) - bits <= 257,
{
    let d = denorm_channel(bits);
    assert(0 <= d <= 255 && d * 65536 <= 255 * 65536) by (nonlinear_arith)
        requires
            d == denorm_channel(bits),
            0 <= bits <= 65536,
    ;
    assert(0 <= norm_channel(d) <= 65536) by (nonlinear_arith)
        requires
            0 <= d <= 255,
    ;
    assert(-257 <= norm_channel(d) - bits <= 257) by (nonlinear_arith)
        requires
            d == denorm_channel(bits),
            0 <= bits <= 65536,
    ;
}

} // verus!
