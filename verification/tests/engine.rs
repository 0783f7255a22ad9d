//! The engine, the dispatch model, the encoder writer and the shows.

use arclib::clock::{RgbClockShow, SeparatedClockShow};
use arclib::config::ShowSelect;
use arclib::controller::{ColorMemoryController, STRIP_LEN};
use arclib::demo::DemoShow;
use arclib::encoder::{clock_divisor, FrameWriter, WriterAction};
use arclib::engine::{ceiling, priority, show_task, ResourceId, ShowTask, System, TaskId};
use arclib::fix::Fix32;
use arclib::random::RandomShow;
use arclib::show::{ByteShow, NullShow, QuickShow, State, UniformShow};
use arclib::remote::RemoteAction;
use arclib::snake::SnakeShow;
use arclib::spotlight::SpotlightShow;
use arclib::token::ShowCancellationToken;
use arclib::util::AsmDelay;

const NAD: u32 = 135;

fn one() -> Fix32 {
    Fix32 { bits: 65536 }
}

fn active_count(sys: &System) -> usize {
    if sys.show.active.is_some() {
        1
    } else {
        0
    }
}

/// Drives the remote and the dispatcher through "select show A, select show
/// B" and checks that exactly one render loop is active once each selection
/// settles.
#[test]
fn one_renderer_after_interleaved_selections() {
    let mut sys = System::init();
    assert_eq!(active_count(&sys), 0);

    // open show selection, pick show A (the sparkle effect, a running loop)
    sys.remote_task(NAD, 1); // play/pause
    sys.tick(7); // input: selection mode
    sys.remote_task(NAD, 3); // the key mapped to the sparkle
    sys.tick(7); // input: stores the selection, requests cancellation
    assert!(sys.config.show.is_some());
    sys.tick(7); // engine: starts show A
    assert_eq!(active_count(&sys), 1);
    assert!(!sys.token.is_requested());

    // while A renders, select show B (the snake)
    sys.remote_task(NAD, 1);
    sys.tick(7);
    assert_eq!(active_count(&sys), 1); // A still the only renderer
    sys.remote_task(NAD, 77); // the key mapped to the snake
    sys.tick(7);
    assert!(sys.token.is_requested());
    assert_eq!(active_count(&sys), 1);
    sys.tick(7); // engine: B replaces A in one step
    assert_eq!(active_count(&sys), 1);
    assert!(!sys.token.is_requested());
    for seed in 0..5 {
        sys.tick(seed);
        assert_eq!(active_count(&sys), 1);
    }
}

/// The solid fill is single-shot: one frame goes out, then the engine sits
/// idle with the frame latched on the strip.
#[test]
fn solid_fill_renders_once_and_completes() {
    let mut sys = System::init();
    sys.remote_task(NAD, 1); // play/pause: selection mode
    sys.tick(0);
    sys.remote_task(NAD, 12); // digit one: red fill
    sys.tick(0);
    let out = sys.tick(0); // engine: the one frame
    assert_eq!(active_count(&sys), 0);
    let frame = out.frame.expect("the fill renders one frame");
    // red at full brightness packs into the second-highest byte
    assert!(frame.iter().all(|w| *w == 0x00FF_0000));
    let idle = sys.tick(0);
    assert!(idle.frame.is_none());
}

#[test]
fn stop_cancels_and_goes_dark() {
    let mut sys = System::init();
    sys.remote_task(NAD, 1);
    sys.tick(0);
    sys.remote_task(NAD, 3); // the sparkle effect keeps running
    sys.tick(0);
    sys.tick(0);
    assert_eq!(active_count(&sys), 1);
    // stop in plain mode: the off show replaces the fill
    sys.remote_task(NAD, 2);
    sys.tick(0);
    assert!(sys.token.is_requested());
    assert!(matches!(sys.config.show, Some(ShowSelect::Null)));
    let out = sys.tick(0);
    // the off show renders nothing onto a fresh dark buffer and finishes
    assert_eq!(active_count(&sys), 0);
    let frame = out.frame.expect("a frame was rendered");
    assert!(frame.iter().all(|w| *w == 0));
    // idle afterwards
    let idle = sys.tick(0);
    assert!(idle.frame.is_none());
}

#[test]
fn unknown_commands_change_nothing() {
    let mut sys = System::init();
    sys.remote_task(NAD, 200);
    sys.remote_task(4, 2);
    let out = sys.tick(0);
    assert!(out.frame.is_none());
    assert_eq!(active_count(&sys), 0);
}

#[test]
fn a_rendered_frame_is_dimmed_by_the_configuration() {
    let mut task = ShowTask::init();
    let mut config = arclib::config::Config::default();
    let mut token = ShowCancellationToken::default();
    config.show = Some(ShowSelect::Uniform(arclib::color::standard_palette(3)));
    let out = show_task(&mut task, &mut config, &mut token, 0);
    let frame = out.frame.expect("the fill renders");
    assert_eq!(frame.len(), STRIP_LEN);
    // full brightness: the white channel packs to the low byte
    assert!(frame.iter().all(|w| *w == 0x0000_00FF));

    // the same selection under zero brightness goes out dark
    config.show = Some(ShowSelect::Uniform(arclib::color::standard_palette(3)));
    config.brightness = Fix32 { bits: 0 };
    let out = show_task(&mut task, &mut config, &mut token, 0);
    let frame = out.frame.expect("a frame still goes out");
    assert!(frame.iter().all(|w| *w == 0));
}

#[test]
fn priorities_and_ceilings_follow_the_task_table() {
    assert_eq!(priority(TaskId::Show), 1);
    assert_eq!(priority(TaskId::Input), 2);
    assert_eq!(priority(TaskId::Remote), 3);
    assert_eq!(ceiling(ResourceId::Config), 2);
    assert_eq!(ceiling(ResourceId::Token), 2);
    assert_eq!(ceiling(ResourceId::RemoteInput), 3);
}

#[test]
fn frame_writer_pushes_in_order_then_latches() {
    let words = vec![10u32, 20, 30];
    let mut w = FrameWriter::new(words);
    assert!(matches!(w.step(false), WriterAction::Wait));
    assert!(matches!(w.step(true), WriterAction::Push(10)));
    assert!(matches!(w.step(true), WriterAction::Push(20)));
    assert!(matches!(w.step(false), WriterAction::Wait));
    assert!(matches!(w.step(true), WriterAction::Push(30)));
    // all words pushed: waiting for the queue to drain
    assert!(matches!(w.step(false), WriterAction::Wait));
    assert!(matches!(w.step(true), WriterAction::Pause(80)));
    assert!(matches!(w.step(true), WriterAction::Idle));
    assert!(matches!(w.step(true), WriterAction::Idle));
}

#[test]
fn clock_divisor_splits_the_ratio() {
    // the stock system clock: 125 MHz over 8 MHz of state-machine cycles
    let (int, frac) = clock_divisor(125_000_000);
    assert_eq!(int, 15);
    assert_eq!(frac, 160); // .625 in 256ths
    let (int, frac) = clock_divisor(8_000_000);
    assert_eq!(int, 1);
    assert_eq!(frac, 0);
}

#[test]
fn delay_cycles_scale_with_the_clock() {
    let d = AsmDelay::new(125_000_000);
    assert_eq!(d.cycles_for_ms(1), 125_000);
    assert_eq!(d.cycles_for_us(80), 10_000);
}

#[test]
fn uniform_show_fills_the_strip_once() {
    let mut ctrl = ColorMemoryController::new();
    let color = arclib::color::standard_palette(7);
    let mut show = UniformShow::new(color);
    let (st, delay) = show.update(&mut ctrl);
    // single-shot: exactly one frame, completion unconditional
    assert!(matches!(st, State::Finished));
    assert_eq!(delay, 0);
    for i in 0..STRIP_LEN {
        assert_eq!(ctrl.get(i), color);
    }
}

#[test]
fn null_show_finishes_immediately() {
    let mut ctrl = ColorMemoryController::new();
    let mut show = NullShow::default();
    let (st, _) = show.update(&mut ctrl);
    assert!(matches!(st, State::Finished));
    assert_eq!(ctrl.get(0), arclib::color::color_none());
}

#[test]
fn quick_show_is_one_red_frame() {
    let mut ctrl = ColorMemoryController::new();
    let mut show = QuickShow::default();
    let (st, _) = show.update(&mut ctrl);
    assert!(matches!(st, State::Finished));
    assert_eq!(ctrl.get(STRIP_LEN - 1), arclib::color::color_red());
}

#[test]
fn byte_show_renders_bits_and_separators() {
    // one byte 0b0000_0101: bits 0 and 2 set, nine segments of 26 LEDs
    let mut show = ByteShow::new(vec![0b0000_0101]);
    let mut ctrl = ColorMemoryController::new();
    let green = arclib::color::standard_palette(1);
    let red = arclib::color::standard_palette(0);
    let lper = STRIP_LEN / 9;
    let mut last = (State::Running, 0u32);
    for _ in 0..9 {
        assert!(matches!(last.0, State::Running));
        last = show.update(&mut ctrl);
    }
    assert!(matches!(last.0, State::Finished));
    assert_eq!(ctrl.get(0), green); // bit 0 set
    assert_eq!(ctrl.get(lper), red); // bit 1 clear
    assert_eq!(ctrl.get(2 * lper), green); // bit 2 set
    assert_eq!(ctrl.get(3 * lper), red);
    assert_eq!(ctrl.get(8 * lper), arclib::color::color_none()); // separator
}

#[test]
fn clock_shows_midnight_ticks_only() {
    let mut show = SeparatedClockShow::new();
    let mut ctrl = ColorMemoryController::new();
    let (st, delay) = show.update(&mut ctrl);
    assert!(matches!(st, State::Running));
    assert_eq!(delay, 100);
    let blue = arclib::color::standard_palette(2);
    let dark = arclib::color::color_none();
    assert_eq!(ctrl.get(0), blue); // a quarter tick
    assert_eq!(ctrl.get(120), blue);
    let blend = ctrl.get(10);
    assert_eq!((blend.b.bits, blend.w.bits), (32768, 32768));
    assert_eq!(ctrl.get(1), dark);
    assert_eq!(ctrl.get(119), dark);
}

#[test]
fn clock_runs_twelve_hours() {
    let mut show = SeparatedClockShow::new();
    let mut ctrl = ColorMemoryController::new();
    let mut frames = 0usize;
    loop {
        let (st, _) = show.update(&mut ctrl);
        frames += 1;
        if matches!(st, State::Finished) {
            break;
        }
        assert!(frames < 12 * 60 + 1);
    }
    assert_eq!(frames, 12 * 60);
}

#[test]
fn clock_hour_bar_grows() {
    let mut show = SeparatedClockShow::new();
    let mut ctrl = ColorMemoryController::new();
    // the 62nd frame shows one hour and one minute
    for _ in 0..62 {
        show.update(&mut ctrl);
    }
    let red = arclib::color::standard_palette(0);
    let green = arclib::color::standard_palette(1);
    assert_eq!(ctrl.get(1), red); // one hour of red bar
    assert_eq!(ctrl.get(9), red);
    assert_eq!(ctrl.get(11), arclib::color::color_none());
    assert_eq!(ctrl.get(121), green); // one minute of green bar
    assert_eq!(ctrl.get(122), arclib::color::color_none());
}

#[test]
fn demo_keeps_running_and_pauses_as_its_phase_asks() {
    let mut show = DemoShow::new();
    let mut ctrl = ColorMemoryController::new();
    let (st, delay) = show.update(&mut ctrl);
    assert!(matches!(st, State::Running));
    assert_eq!(delay, 2);
    assert_eq!(ctrl.get(0), arclib::color::color_red());
    for _ in 0..(2 * STRIP_LEN) {
        let (st, _) = show.update(&mut ctrl);
        assert!(matches!(st, State::Running));
    }
}

#[test]
fn random_show_keeps_frames_normalized() {
    let mut show = RandomShow::new(42);
    let mut ctrl = ColorMemoryController::new();
    for _ in 0..3 {
        let (st, _) = show.update(&mut ctrl);
        assert!(matches!(st, State::Running));
    }
    for i in 0..STRIP_LEN {
        let c = ctrl.get(i);
        for ch in [c.r, c.g, c.b, c.w] {
            assert!(0 <= ch.bits && ch.bits <= 65536);
        }
    }
    // the brightness path stays sound on random frames
    let words = ctrl.words(one());
    assert_eq!(words.len(), STRIP_LEN);
}

#[test]
fn snake_grows_on_fruit() {
    let mut show = SnakeShow::new(1234);
    let mut ctrl = ColorMemoryController::new();
    for _ in 0..(4 * STRIP_LEN) {
        let (st, _) = show.update(&mut ctrl);
        assert!(matches!(st, State::Running));
    }
}

#[test]
fn spotlight_starts_wide_and_narrows() {
    let mut show = SpotlightShow::default();
    let mut ctrl = ColorMemoryController::new();
    let mut mailbox = None;
    let (st, _) = show.update(&mut ctrl, &mut mailbox);
    assert!(matches!(st, State::Running));
    // a red spotlight over the whole strip
    assert_eq!(ctrl.get(0), arclib::color::color_red());
    assert_eq!(ctrl.get(STRIP_LEN - 1), arclib::color::color_red());
    // select extent, then shrink it
    let mut mailbox = Some(RemoteAction::Five);
    show.update(&mut ctrl, &mut mailbox);
    assert!(mailbox.is_none());
    for _ in 0..30 {
        let mut mb = Some(RemoteAction::Prev);
        show.update(&mut ctrl, &mut mb);
    }
    // the edges went dark, the middle stays lit
    assert_eq!(ctrl.get(0), arclib::color::color_none());
    assert_eq!(ctrl.get(STRIP_LEN - 1), arclib::color::color_none());
    assert_eq!(ctrl.get(STRIP_LEN / 2), arclib::color::color_red());
}

#[test]
fn spotlight_steers_hue() {
    let mut show = SpotlightShow::default();
    let mut ctrl = ColorMemoryController::new();
    let mut mb = Some(RemoteAction::One); // steer the hue
    show.update(&mut ctrl, &mut mb);
    for _ in 0..10 {
        let mut mb = Some(RemoteAction::Next);
        show.update(&mut ctrl, &mut mb);
    }
    let mid = ctrl.get(STRIP_LEN / 2);
    // the hue moved off pure red: green rises in the first sector
    assert!(mid.g.bits > 0);
    assert_eq!(mid.r.bits, 65536);
}

#[test]
fn rgb_clock_mixes_channel_bars() {
    let mut show = RgbClockShow::default();
    let mut ctrl = ColorMemoryController::new();
    let (st, delay) = show.update(&mut ctrl);
    assert!(matches!(st, State::Running));
    assert_eq!(delay, 500);
    // at 19:12 the red bar reaches LED 199, the green bar LED 51
    let led = ctrl.get(0);
    assert_eq!((led.r.bits, led.g.bits, led.b.bits), (65536, 65536, 0));
    let led = ctrl.get(100);
    assert_eq!((led.r.bits, led.g.bits, led.b.bits), (65536, 0, 0));
    let led = ctrl.get(210);
    assert_eq!((led.r.bits, led.g.bits, led.b.bits), (0, 0, 0));
    // seconds are hidden by default
    assert_eq!(ctrl.get(0).b.bits, 0);
}
