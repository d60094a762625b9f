use color_organ::color::Color;
use color_organ::sched::{ColorOrgan, Samples};
use color_organ::strip::scaled_frame;

fn rgb(r: u8, g: u8, b: u8) -> Color {
    Color { r, g, b }
}

fn samples(red: u32, green: u32, blue: u32, speed: u32, shape: u32, phase: u32) -> Samples {
    Samples { red, green, blue, speed, shape, phase }
}

#[test]
fn fresh_organ_is_dark() {
    let organ = ColorOrgan::new(62);
    assert_eq!(organ.time(), 0);
    assert_eq!(organ.frame().len(), 62);
    assert!(organ.frame().iter().all(|c| *c == rgb(0, 0, 0)));
}

#[test]
fn full_scale_zero_shape_frame() {
    // All channel samples at full scale, shape 0, phase 0, time 0:
    // wave value 128, sine part (1023 * 128 * 0) >> 12 == 0,
    // DC part (1023 * 1023) >> 4 == 65408, channel 65408 >> 8 == 255.
    let mut organ = ColorOrgan::new(3);
    let delay = organ.tick(samples(1023, 1023, 1023, 1023, 0, 0));
    assert_eq!(delay, 1000);
    assert_eq!(organ.time(), 1000);
    assert_eq!(organ.frame().as_slice(), &[rgb(255, 255, 255), rgb(0, 0, 0), rgb(0, 0, 0)]);
}

#[test]
fn second_tick_reads_advanced_time() {
    let mut organ = ColorOrgan::new(3);
    organ.tick(samples(1023, 1023, 1023, 1023, 0, 0));
    // Time is now 1000, so every channel reads table entry 1000 % 256 == 232,
    // value 57; full-scale shape leaves the pure waveform path.
    let delay = organ.tick(samples(500, 600, 700, 420, 1023, 0));
    assert_eq!(delay, 0);
    assert_eq!(organ.time(), 1000);
    assert_eq!(organ.frame().as_slice(), &[rgb(27, 33, 38), rgb(255, 255, 255), rgb(0, 0, 0)]);
}

#[test]
fn phase_offsets_spread_the_channels() {
    // Phase 1023 quantizes to a 127-tick offset: red reads entry 0 (128),
    // green entry 127 (131), blue entry 254 (121).
    let mut organ = ColorOrgan::new(2);
    organ.tick(samples(400, 400, 400, 0, 1023, 1023));
    assert_eq!(organ.frame()[0], rgb(49, 51, 47));
}

#[test]
fn zero_phase_keeps_channels_aligned() {
    let mut organ = ColorOrgan::new(2);
    organ.tick(samples(700, 700, 700, 0, 600, 0));
    let head = organ.frame()[0];
    assert_eq!(head.r, head.g);
    assert_eq!(head.g, head.b);
}

#[test]
fn trail_scrolls_across_strip() {
    let mut organ = ColorOrgan::new(4);
    organ.tick(samples(1023, 1023, 1023, 0, 0, 0));
    organ.tick(samples(0, 0, 0, 0, 0, 0));
    organ.tick(samples(1023, 0, 0, 0, 0, 0));
    let frame = organ.frame();
    assert_eq!(frame.as_slice(), &[rgb(255, 0, 0), rgb(0, 0, 0), rgb(255, 255, 255), rgb(0, 0, 0)]);
}

#[test]
fn transmitted_frame_is_uniformly_dimmed() {
    let mut organ = ColorOrgan::new(2);
    organ.tick(samples(1023, 1023, 1023, 1023, 0, 0));
    let dim = scaled_frame(organ.frame(), 32);
    assert_eq!(dim.as_slice(), &[rgb(32, 32, 32), rgb(0, 0, 0)]);
}
