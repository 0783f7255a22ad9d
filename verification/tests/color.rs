//! The color model: conversions, quantization, packing, brightness.

use arclib::color::{
    color_none, color_red, color_white, denormalize, normalize, pack, standard_palette, unpack,
    NormRgbw,
};
use arclib::fix::Fix32;
use arclib::hsv::{hsv_to_rgbw, rgbw_to_hsv};

fn fix(bits: i32) -> Fix32 {
    Fix32 { bits }
}

#[test]
fn pack_places_green_high_and_white_low() {
    assert_eq!(pack([0xAA, 0xBB, 0xCC, 0xDD]), 0xBBAACCDD);
    assert_eq!(pack([1, 2, 3, 4]), 0x02010304);
    assert_eq!(pack([0, 0, 0, 0]), 0);
    assert_eq!(pack([255, 255, 255, 255]), 0xFFFFFFFF);
}

#[test]
fn unpack_inverts_pack() {
    assert_eq!(unpack(0xBBAACCDD), [0xAA, 0xBB, 0xCC, 0xDD]);
    for bytes in [[1u8, 2, 3, 4], [0, 255, 7, 128], [9, 9, 9, 9]] {
        assert_eq!(unpack(pack(bytes)), bytes);
    }
}

#[test]
fn quantization_loses_at_most_one_8bit_step() {
    let c = NormRgbw::new(fix(19661), fix(39322), fix(58982), fix(0));
    let back = NormRgbw::from_u32(c.into_u32());
    for (a, b) in [(c.r, back.r), (c.g, back.g), (c.b, back.b), (c.w, back.w)] {
        assert!((a.bits - b.bits).abs() <= 257);
    }
}

#[test]
fn quantization_is_exact_at_full_and_zero_scale() {
    let white = NormRgbw::new(fix(65536), fix(65536), fix(65536), fix(65536));
    assert_eq!(NormRgbw::from_u32(white.into_u32()), white);
    let dark = color_none();
    assert_eq!(NormRgbw::from_u32(dark.into_u32()), dark);
}

#[test]
fn denormalize_rounds_and_saturates() {
    let a = denormalize([fix(65536), fix(0), fix(32768), fix(70000)]);
    // 32768 * 255 / 65536 = 127.5, which rounds up; 70000 is over range
    assert_eq!(a, [255, 0, 128, 255]);
    let n = normalize([255, 0, 128, 1]);
    assert_eq!(n[0].bits, 65536);
    assert_eq!(n[1].bits, 0);
    assert_eq!(n[2].bits, 128 * 65536 / 255);
    assert_eq!(n[3].bits, 65536 / 255);
}

#[test]
fn hsv_round_trip_mid_sector_is_exact() {
    // hue a quarter turn, full saturation and value
    let c = hsv_to_rgbw(fix(16384), fix(65536), fix(65536));
    assert_eq!((c.r.bits, c.g.bits, c.b.bits, c.w.bits), (32768, 65536, 0, 0));
    let h = rgbw_to_hsv(c);
    assert_eq!(h.hue.bits, 16384);
    assert_eq!(h.sat.bits, 65536);
    assert_eq!(h.val.bits, 65536);
}

#[test]
fn hsv_round_trip_within_tolerance() {
    for hue in [0, 5000, 11000, 22000, 33000, 44000, 55000, 65000] {
        for (sat, val) in [(65536, 65536), (40000, 50000), (65536, 30000)] {
            let c = hsv_to_rgbw(fix(hue), fix(sat), fix(val));
            let h = rgbw_to_hsv(c);
            assert_eq!(h.val.bits, val);
            let chroma = (val as i64 * sat as i64) / 65536;
            assert!(chroma >= 1);
            // saturation only shrinks, within one part in val
            assert!(h.sat.bits <= sat);
            assert!((sat - h.sat.bits) as i64 * val as i64 <= 65536 + val as i64);
            // hue within the circular tolerance
            let d = (hue - h.hue.bits).abs() as i64;
            let d = d.min(65536 - d);
            assert!(d * 6 * chroma < 65536 + 6 * chroma);
        }
    }
}

#[test]
fn hsv_singularities_accept_any_hue() {
    // zero saturation or value collapses to grey: hue reads back zero
    let grey = hsv_to_rgbw(fix(30000), fix(0), fix(40000));
    let h = rgbw_to_hsv(grey);
    assert_eq!(h.sat.bits, 0);
    assert_eq!(h.val.bits, 40000);
    assert_eq!(h.hue.bits, 0);
    let black = hsv_to_rgbw(fix(30000), fix(65536), fix(0));
    let h2 = rgbw_to_hsv(black);
    assert_eq!(h2.val.bits, 0);
}

#[test]
fn hsv_white_channel_stays_zero() {
    for hue in [0, 20000, 60000] {
        assert_eq!(hsv_to_rgbw(fix(hue), fix(65536), fix(65536)).w.bits, 0);
    }
}

#[test]
fn brightness_zero_darkens_completely() {
    let c = standard_palette(6);
    let dimmed = c.brightness(fix(0));
    assert_eq!(dimmed, color_none());
}

#[test]
fn brightness_one_changes_nothing() {
    for i in 0..9 {
        let c = standard_palette(i);
        assert_eq!(c.brightness(fix(65536)), c);
    }
    let c = NormRgbw::new(fix(123), fix(45678), fix(65535), fix(1));
    assert_eq!(c.brightness(fix(65536)), c);
}

#[test]
fn brightness_half_lies_between() {
    let c = color_white();
    let dimmed = c.brightness(fix(32768));
    assert!(dimmed.w.bits > 0);
    assert!(dimmed.w.bits < 65536);
}

#[test]
fn gradient_endpoints_are_exact() {
    let a = standard_palette(0);
    let b = standard_palette(2);
    assert_eq!(a.gradient(b, fix(0)), a);
    assert_eq!(a.gradient(b, fix(65536)), b);
    let mid = a.gradient(b, fix(32768));
    assert_eq!(mid.r.bits, 32768);
    assert_eq!(mid.b.bits, 32768);
}

#[test]
fn scale_is_linear_per_channel() {
    let c = NormRgbw::new(fix(65536), fix(32768), fix(16384), fix(0));
    let s = c.scale(fix(32768));
    assert_eq!(
        (s.r.bits, s.g.bits, s.b.bits, s.w.bits),
        (32768, 16384, 8192, 0)
    );
}

#[test]
fn palette_matches_the_classic_order() {
    let names = [
        (0, (65536, 0, 0, 0)),       // red
        (1, (0, 65536, 0, 0)),       // green
        (2, (0, 0, 65536, 0)),       // blue
        (3, (0, 0, 0, 65536)),       // white channel
        (4, (65536, 65536, 65536, 0)),
        (5, (65536, 65536, 65536, 65536)),
        (6, (65536, 65536, 0, 0)),   // yellow
        (7, (65536, 0, 65536, 0)),   // magenta
        (8, (0, 65536, 65536, 0)),   // cyan
    ];
    for (i, (r, g, b, w)) in names {
        let c = standard_palette(i);
        assert_eq!((c.r.bits, c.g.bits, c.b.bits, c.w.bits), (r, g, b, w));
    }
    assert_eq!(color_red(), standard_palette(0));
}

#[test]
fn channel_arrays_round_trip() {
    let c = NormRgbw::new(fix(1), fix(2), fix(3), fix(4));
    assert_eq!(NormRgbw::from_channel_array(c.into_channel_array()), c);
}

#[test]
fn channel_sums_combine_disjoint_channels() {
    let rg = standard_palette(0).add_channels(standard_palette(1));
    assert_eq!(rg, standard_palette(6)); // red plus green is yellow
    let all = rg.add_channels(standard_palette(2));
    assert_eq!(all, standard_palette(4));
}
