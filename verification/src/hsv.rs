//! Conversions between the HSV and RGBW color models, in Q16.16 fixed
//! point, and the round-trip bound that ties them together.
//!
//! The forward conversion is the standard six-sector decomposition: the hue
//! picks one of six 60-degree sectors, the chroma `c = val * sat` sets the
//! strongest channel's spread, and the offset `m = val - c` lifts all three
//! channels.  The white channel plays no part: HSV has no white component.

use vstd::prelude::*;

verus! {

use crate::fix::Fix32;
use crate::fix::ONE_BITS;
use crate::color::{NormHsv, NormRgbw};

/// The chroma of a saturation/value pair.
pub open spec fn chroma(s: int, v: int) -> int {
    v * s / 65536
}

/// Which 60-degree sector a hue in `[0, 1]` falls into; a full turn counts
/// as the end of the last sector.
pub open spec fn hue_sector(h: int) -> int {
    if h * 6 / 65536 > 5 {
        5
    } else {
        h * 6 / 65536
    }
}

/// The position within the hue's sector, scaled to `[0, 65536]`.
pub open spec fn hue_frac(h: int) -> int {
    h * 6 - hue_sector(h) * 65536
}

/// The `(r, g, b)` channel bits produced from hue, saturation and value bits.
pub open spec fn hsv_rgb_spec(h: int, s: int, v: int) -> (int, int, int) {
    let sec = hue_sector(h);
    let f = hue_frac(h);
    let c = chroma(s, v);
    let m = v - c;
    let x_up = c * f / 65536;
    let x_dn = c * (65536 - f) / 65536;
    if sec == 0 {
        (v, m + x_up, m)
    } else if sec == 1 {
        (m + x_dn, v, m)
    } else if sec == 2 {
        (m, v, m + x_up)
    } else if sec == 3 {
        (m, m + x_dn, v)
    } else if sec == 4 {
        (m + x_up, m, v)
    } else {
        (v, m, m + x_dn)
    }
}

pub open spec fn max3(a: int, b: int, c: int) -> int {
    if a >= b && a >= c {
        a
    } else if b >= c {
        b
    } else {
        c
    }
}

pub open spec fn min3(a: int, b: int, c: int) -> int {
    if a <= b && a <= c {
        a
    } else if b <= c {
        b
    } else {
        c
    }
}

/// The `(hue, sat, val)` bits recovered from `(r, g, b)` channel bits.  The
/// hue is zero when the color is grey; ties between equal strongest channels
/// resolve in r, g, b order.
pub open spec fn rgb_hsv_spec(r: int, g: int, b: int) -> (int, int, int) {
    let cmax = max3(r, g, b);
    let cmin = min3(r, g, b);
    let d = cmax - cmin;
    let sat = if cmax == 0 {
        0
    } else {
        d * 65536 / cmax
    };
    let hue = if d == 0 {
        0
    } else if cmax == r {
        if g >= b {
            (g - b) * 65536 / d / 6
        } else {
            (6 * 65536 - (b - g) * 65536 / d) / 6
        }
    } else if cmax == g {
        if b >= r {
            (2 * 65536 + (b - r) * 65536 / d) / 6
        } else {
            (2 * 65536 - (r - b) * 65536 / d) / 6
        }
    } else {
        if r >= g {
            (4 * 65536 + (r - g) * 65536 / d) / 6
        } else {
            (4 * 65536 - (g - r) * 65536 / d) / 6
        }
    };
    (hue, sat, cmax)
}

/// The color of a fully saturated hue at full value.
pub open spec fn full_hue_color(h: int) -> NormRgbw {
    let rgb = hsv_rgb_spec(h, 65536, 65536);
    NormRgbw {
        r: Fix32 { bits: rgb.0 as i32 },
        g: Fix32 { bits: rgb.1 as i32 },
        b: Fix32 { bits: rgb.2 as i32 },
        w: Fix32 { bits: 0 },
    }
}

/// Whether a color is some fully saturated hue at full value.
pub open spec fn is_full_hue(c: NormRgbw) -> bool {
    exists|h: int| 0 <= h < 65536 && c == full_hue_color(h)
}

/// The circular distance between two hues in `[0, 65536]`: a full turn
/// wraps back to zero.
pub open spec fn hue_dist(a: int, b: int) -> int {
    let d = if a >= b {
        a - b
    } else {
        b - a
    };
    if d <= 65536 - d {
        d
    } else {
        65536 - d
    }
}

/// Scaling `f` down by `a/b` and back up by `b/a`, flooring both times,
/// loses less than `b/a + 1`.
proof fn lemma_scale_floor(a: int, b: int, f: int)
    requires
        1 <= a,
        1 <= b,
        0 <= f,
    ensures
        ({
            let x = a * f / b;
            let q = x * b / a;
            &&& 0 <= x
            &&& x * b <= a * f < (x + 1) * b
            &&& 0 <= q <= f
            &&& (f - q) * a < b + a
        }),
{
    let x = a * f / b;
    let q = x * b / a;
    let r1 = (a * f) % b;
    let r2 = (x * b) % a;
    vstd::arithmetic::div_mod::lemma_fundamental_div_mod(a * f, b);
    vstd::arithmetic::div_mod::lemma_mod_bound(a * f, b);
    vstd::arithmetic::div_mod::lemma_fundamental_div_mod(x * b, a);
    vstd::arithmetic::div_mod::lemma_mod_bound(x * b, a);
    assert(a * f == b * x + r1);
    assert(x * b == a * q + r2);
    assert({
        &&& 0 <= x
        &&& x * b <= a * f < (x + 1) * b
        &&& 0 <= q <= f
        &&& (f - q) * a < b + a
    }) by (nonlinear_arith)
        requires
            1 <= a,
            1 <= b,
            0 <= f,
            a * f == b * x + r1,
            x * b == a * q + r2,
            0 <= r1 < b,
            0 <= r2 < a,
    ;
}

/// When the recovered hue numerator undershoots the ideal one by a residue
/// inversely bounded by the chroma, the recovered hue sits just below the
/// original, within the circular tolerance.
proof fn lemma_hue_under(h: int, h2: int, c: int, n: int, n2: int)
    requires
        1 <= c,
        0 <= n2 <= n,
        6 * h == n,
        h2 == n2 / 6,
        (n - n2) * c < 65536 + c,
        0 <= h <= 65536,
    ensures
        0 <= h2 <= h,
        hue_dist(h, h2) * (6 * c) < 65536 + 6 * c,
{
    assert(6 * h2 <= n2 <= 6 * h2 + 5);
    assert(0 <= h2 <= h);
    assert(hue_dist(h, h2) <= h - h2);
    assert(hue_dist(h, h2) * (6 * c) < 65536 + 6 * c) by (nonlinear_arith)
        requires
            1 <= c,
            6 * h == n,
            6 * h2 <= n2 <= 6 * h2 + 5,
            n2 <= n,
            (n - n2) * c < 65536 + c,
            0 <= hue_dist(h, h2) <= h - h2,
    ;
}

/// The overshooting counterpart of `lemma_hue_under`.
proof fn lemma_hue_over(h: int, h2: int, c: int, n: int, n2: int)
    requires
        1 <= c,
        0 <= n <= n2,
        6 * h == n,
        h2 == n2 / 6,
        (n2 - n) * c < 65536 + c,
        0 <= h,
        n2 <= 6 * 65536,
    ensures
        h <= h2 <= 65536,
        hue_dist(h, h2) * (6 * c) < 65536 + 6 * c,
{
    assert(6 * h2 <= n2 <= 6 * h2 + 5);
    assert(h <= h2 <= 65536);
    assert(hue_dist(h, h2) <= h2 - h);
    assert(hue_dist(h, h2) * (6 * c) < 65536 + 6 * c) by (nonlinear_arith)
        requires
            1 <= c,
            6 * h == n,
            6 * h2 <= n2 <= 6 * h2 + 5,
            n <= n2,
            (n2 - n) * c < 65536 + c,
            0 <= hue_dist(h, h2) <= h2 - h,
    ;
}

/// The `(hue, sat, val)` bits that come back after a full conversion to
/// RGBW channel bits and back.
pub open spec fn round_trip_spec(h: int, s: int, v: int) -> (int, int, int) {
    let rgb = hsv_rgb_spec(h, s, v);
    rgb_hsv_spec(rgb.0, rgb.1, rgb.2)
}

/// Converting a hue, saturation and value to RGBW and back reproduces them
/// up to fixed-point rounding: the value returns exactly; the saturation
/// returns within one part in `val` (it can only shrink); the hue returns
/// within one sixth of a part in the chroma, measured circularly.  The grey
/// singularities (zero chroma, where the hue is undefined) are excluded.
#[verifier::rlimit(100)]
pub proof fn lemma_hsv_round_trip(h: int, s: int, v: int)
    requires
        0 <= h <= 65536,
        0 < s <= 65536,
        0 < v <= 65536,
        1 <= chroma(s, v),
    ensures
        round_trip_spec(h, s, v).2 == v,
        0 <= round_trip_spec(h, s, v).1 <= s,
        (s - round_trip_spec(h, s, v).1) * v < 65536 + v,
        0 <= round_trip_spec(h, s, v).0 <= 65536,
        hue_dist(h, round_trip_spec(h, s, v).0) * (6 * chroma(s, v)) < 65536 + 6 * chroma(
            s,
            v,
        ),
{
    let sec = hue_sector(h);
    let f = hue_frac(h);
    let c = chroma(s, v);
    let m = v - c;
    let x_up = c * f / 65536;
    let x_dn = c * (65536 - f) / 65536;
    crate::fix::lemma_mulf_bounds(v, s);
    // sector and fraction bounds
    vstd::arithmetic::div_mod::lemma_fundamental_div_mod(h * 6, 65536);
    vstd::arithmetic::div_mod::lemma_mod_bound(h * 6, 65536);
    assert(0 <= sec <= 5);
    assert(0 <= f <= 65536);
    assert(sec * 65536 + f == 6 * h);
    assert(f == 65536 ==> h == 65536 && sec == 5);
    crate::fix::lemma_mulf_bounds(c, f);
    crate::fix::lemma_mulf_bounds(c, 65536 - f);
    lemma_scale_floor(c, 65536, f);
    lemma_scale_floor(c, 65536, 65536 - f);
    lemma_scale_floor(v, 65536, s);
    let q_up = x_up * 65536 / c;
    let q_dn = x_dn * 65536 / c;
    let rgb = hsv_rgb_spec(h, s, v);
    let r = rgb.0;
    let g = rgb.1;
    let b = rgb.2;
    assert(max3(r, g, b) == v && min3(r, g, b) == m);
    let out = rgb_hsv_spec(r, g, b);
    assert(out == round_trip_spec(h, s, v));
    // value and saturation: the strongest channel is exactly `v` and the
    // spread is exactly the chroma
    assert(out.2 == v);
    assert(out.1 == c * 65536 / v);
    assert(0 <= out.1 <= s && (s - out.1) * v < 65536 + v);
    // hue, sector by sector
    if c * (65536 - f) < 65536 {
        // the falling channel quantizes to nothing: the color degenerates
        // to the sector's leading edge (and wraps at the top of sector 5)
        assert(x_dn == 0);
    }
    if sec == 0 {
        assert(r == v && g == m + x_up && b == m);
        assert(g >= b);
        assert(out.0 == q_up / 6);
        lemma_hue_under(h, out.0, c, f, q_up);
    } else if sec == 1 {
        assert(6 * h != 65536);  // 65536 is not a multiple of 6
        assert(f >= 1);
        assert(x_dn < c) by (nonlinear_arith)
            requires
                1 <= c,
                1 <= f,
                x_dn * 65536 <= c * (65536 - f),
        ;
        assert(r == m + x_dn && g == v && b == m);
        assert(out.0 == if b >= r {
            (2 * 65536 + (b - r) * 65536 / c) / 6
        } else {
            (2 * 65536 - (r - b) * 65536 / c) / 6
        });
        assert(out.0 == (2 * 65536 - q_dn) / 6);
        lemma_hue_over(h, out.0, c, 65536 + f, 2 * 65536 - q_dn);
    } else if sec == 2 {
        assert(r == m && g == v && b == m + x_up);
        assert(b >= r);
        assert(out.0 == (2 * 65536 + q_up) / 6);
        lemma_hue_under(h, out.0, c, 2 * 65536 + f, 2 * 65536 + q_up);
    } else if sec == 3 {
        if f == 0 {
            // the exact sector edge: the falling channel equals the value
            assert(x_dn == c) by (nonlinear_arith)
                requires
                    x_dn == c * 65536 / 65536,
            ;
            assert(r == m && g == v && b == v);
            assert(out.0 == (2 * 65536 + (v - m) * 65536 / c) / 6);
            assert(c * 65536 / c == 65536) by (nonlinear_arith)
                requires
                    1 <= c,
            ;
            assert(out.0 == h);
            assert(hue_dist(h, out.0) == 0);
            vstd::arithmetic::mul::lemma_mul_basics(6 * c);
        } else {
            assert(x_dn < c) by (nonlinear_arith)
                requires
                    1 <= c,
                    1 <= f,
                    x_dn * 65536 <= c * (65536 - f),
            ;
            assert(r == m && g == m + x_dn && b == v);
            assert(out.0 == (4 * 65536 - q_dn) / 6);
            lemma_hue_over(h, out.0, c, 3 * 65536 + f, 4 * 65536 - q_dn);
        }
    } else if sec == 4 {
        assert(x_up < c) by (nonlinear_arith)
            requires
                1 <= c,
                f <= 65535,
                x_up * 65536 <= c * f,
        ;
        assert(r == m + x_up && g == m && b == v);
        assert(r >= g);
        assert(out.0 == (4 * 65536 + q_up) / 6);
        lemma_hue_under(h, out.0, c, 4 * 65536 + f, 4 * 65536 + q_up);
    } else {
        assert(sec == 5);
        assert(6 * h != 5 * 65536);  // 327680 is not a multiple of 6
        assert(f >= 1);
        assert(r == v && g == m && b == m + x_dn);
        if x_dn == 0 {
            // the falling channel quantizes away: the color reads as pure
            // leading channel, hue zero, one full turn away
            assert(g >= b);
            assert(out.0 == 0);
            assert(c * (65536 - f) < 65536);
            assert(hue_dist(h, 0) * (6 * c) < 65536 + 6 * c) by (nonlinear_arith)
                requires
                    1 <= c,
                    6 * h == 5 * 65536 + f,
                    c * (65536 - f) < 65536,
                    f <= 65536,
                    0 <= hue_dist(h, 0) <= 65536 - h,
            ;
        } else {
            assert(b > g);
            assert(out.0 == (6 * 65536 - q_dn) / 6);
            lemma_hue_over(h, out.0, c, 5 * 65536 + f, 6 * 65536 - q_dn);
        }
    }
    assert(out.2 == v);
    assert(0 <= out.1 <= s);
    assert((s - out.1) * v < 65536 + v);
    assert(0 <= out.0 <= 65536);
    assert(hue_dist(h, out.0) * (6 * c) < 65536 + 6 * c);
}

/// Builds the RGBW color of a hue, saturation and value, each in `[0, 1]`.
/// The white channel is always zero.
pub fn hsv_to_rgbw(hue: Fix32, sat: Fix32, val: Fix32) -> (c: NormRgbw)
    requires
        0 <= hue.bits <= ONE_BITS,
        0 <= sat.bits <= ONE_BITS,
        0 <= val.bits <= ONE_BITS,
    ensures
        c.r.bits == hsv_rgb_spec(hue.bits as int, sat.bits as int, val.bits as int).0,
        c.g.bits == hsv_rgb_spec(hue.bits as int, sat.bits as int, val.bits as int).1,
        c.b.bits == hsv_rgb_spec(hue.bits as int, sat.bits as int, val.bits as int).2,
        c.w.bits == 0,
        c.in_range(),
{
    let h6: i32 = hue.bits * 6;
    let sector: i32 = if h6 / 65536 > 5 {
        5
    } else {
        h6 / 65536
    };
    let f = Fix32 { bits: h6 - sector * 65536 };
    assert(0 <= f.bits <= 65536);
    proof {
        crate::fix::lemma_mulf_bounds(val.bits as int, sat.bits as int);
    }
    let ch = val.times(sat);
    proof {
        crate::fix::lemma_mulf_bounds(ch.bits as int, f.bits as int);
        crate::fix::lemma_mulf_bounds(ch.bits as int, 65536 - f.bits as int);
    }
    let m = Fix32 { bits: val.bits - ch.bits };
    let x_up = ch.times(f);
    let x_dn = ch.times(Fix32 { bits: 65536 - f.bits });
    let zero = Fix32 { bits: 0 };
    if sector == 0 {
        NormRgbw { r: val, g: m.plus(x_up), b: m, w: zero }
    } else if sector == 1 {
        NormRgbw { r: m.plus(x_dn), g: val, b: m, w: zero }
    } else if sector == 2 {
        NormRgbw { r: m, g: val, b: m.plus(x_up), w: zero }
    } else if sector == 3 {
        NormRgbw { r: m, g: m.plus(x_dn), b: val, w: zero }
    } else if sector == 4 {
        NormRgbw { r: m.plus(x_up), g: m, b: val, w: zero }
    } else {
        NormRgbw { r: val, g: m, b: m.plus(x_dn), w: zero }
    }
}

/// Recovers hue, saturation and value from a color's r, g and b channels;
/// the white channel is ignored.  Grey colors report hue and saturation
/// zero.
pub fn rgbw_to_hsv(c: NormRgbw) -> (hsv: NormHsv)
    requires
        c.in_range(),
    ensures
        hsv.hue.bits == rgb_hsv_spec(c.r.bits as int, c.g.bits as int, c.b.bits as int).0,
        hsv.sat.bits == rgb_hsv_spec(c.r.bits as int, c.g.bits as int, c.b.bits as int).1,
        hsv.val.bits == rgb_hsv_spec(c.r.bits as int, c.g.bits as int, c.b.bits as int).2,
        hsv.in_range(),
{
    let r = c.r;
    let g = c.g;
    let b = c.b;
    let cmax = r.max_of(g).max_of(b);
    let cmin = r.min_of(g).min_of(b);
    let d = Fix32 { bits: cmax.bits - cmin.bits };
    let sat = if cmax.bits == 0 {
        Fix32 { bits: 0 }
    } else {
        proof {
            crate::fix::lemma_div_le_one(d.bits as int, cmax.bits as int);
        }
        d.divide(cmax)
    };
    let hue: Fix32 = if d.bits == 0 {
        Fix32 { bits: 0 }
    } else if cmax.bits == r.bits {
        if g.bits >= b.bits {
            proof {
                crate::fix::lemma_div_le_one(g.bits - b.bits, d.bits as int);
            }
            let q = Fix32 { bits: g.bits - b.bits }.divide(d);
            Fix32 { bits: q.bits / 6 }
        } else {
            proof {
                crate::fix::lemma_div_le_one(b.bits - g.bits, d.bits as int);
            }
            let q = Fix32 { bits: b.bits - g.bits }.divide(d);
            Fix32 { bits: (6 * 65536 - q.bits) / 6 }
        }
    } else if cmax.bits == g.bits {
        if b.bits >= r.bits {
            proof {
                crate::fix::lemma_div_le_one(b.bits - r.bits, d.bits as int);
            }
            let q = Fix32 { bits: b.bits - r.bits }.divide(d);
            Fix32 { bits: (2 * 65536 + q.bits) / 6 }
        } else {
            proof {
                crate::fix::lemma_div_le_one(r.bits - b.bits, d.bits as int);
            }
            let q = Fix32 { bits: r.bits - b.bits }.divide(d);
            Fix32 { bits: (2 * 65536 - q.bits) / 6 }
        }
    } else {
        if r.bits >= g.bits {
            proof {
                crate::fix::lemma_div_le_one(r.bits - g.bits, d.bits as int);
            }
            let q = Fix32 { bits: r.bits - g.bits }.divide(d);
            Fix32 { bits: (4 * 65536 + q.bits) / 6 }
        } else {
            proof {
                crate::fix::lemma_div_le_one(g.bits - r.bits, d.bits as int);
            }
            let q = Fix32 { bits: g.bits - r.bits }.divide(d);
            Fix32 { bits: (4 * 65536 - q.bits) / 6 }
        }
    };
    NormHsv { hue, sat, val: cmax }
}

} // verus!
