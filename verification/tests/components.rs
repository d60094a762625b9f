use color_organ::color::{rainbow_frame, wheel, Color};
use color_organ::history::HistoryBuffer;
use color_organ::sched::{advance_time, delay_from_speed};
use color_organ::strip::scaled_frame;
use color_organ::synth::{channel_value, dc_offset, phase_delay};
use color_organ::wave::{wave_index, WaveTable};

fn rgb(r: u8, g: u8, b: u8) -> Color {
    Color { r, g, b }
}

#[test]
fn dc_offset_complements_shape() {
    assert_eq!(dc_offset(0), 1023);
    assert_eq!(dc_offset(1023), 0);
    assert_eq!(dc_offset(300), 723);
}

#[test]
fn channel_value_matches_formula() {
    // (300 * 200 * 500) >> 12 plus (300 * 523) >> 4, together >> 8.
    assert_eq!(channel_value(300, 200, 500, 523), 66);
    assert_eq!(channel_value(600, 200, 500, 523), 133);
    assert_eq!(channel_value(512, 128, 512, 511), 95);
    // Pure waveform path: full-scale shape leaves no DC part.
    assert_eq!(channel_value(1023, 255, 1023, 0), 254);
    // Zero sample gives a dark channel whatever the other controls do.
    assert_eq!(channel_value(0, 255, 500, 523), 0);
}

#[test]
fn channel_value_monotonic_in_sample() {
    let mut last = 0u8;
    for s in [0u32, 100, 300, 301, 600, 900, 1023] {
        let v = channel_value(s, 200, 500, 523);
        assert!(v >= last);
        last = v;
    }
}

#[test]
fn wave_index_is_time_mod_256() {
    assert_eq!(wave_index(0), 0);
    assert_eq!(wave_index(255), 255);
    assert_eq!(wave_index(256), 0);
    assert_eq!(wave_index(257), 1);
    assert_eq!(wave_index(1000), 232);
    assert_eq!(wave_index(u32::MAX), 255);
}

#[test]
fn wave_table_values() {
    let t = WaveTable::new();
    assert_eq!(t.lookup(0), 128);
    assert_eq!(t.lookup(64), 255);
    assert_eq!(t.lookup(128), 128);
    assert_eq!(t.lookup(192), 0);
    assert_eq!(t.lookup(256), 128);
    assert_eq!(t.lookup(300), 240);
}

#[test]
fn shifted_lookup_wraps_like_plain_lookup() {
    let t = WaveTable::new();
    assert_eq!(t.lookup_shifted(250, 10), t.lookup(4));
    assert_eq!(t.lookup_shifted(0, 127), t.lookup(127));
    assert_eq!(t.lookup_shifted(u32::MAX, 1), t.lookup(0));
    // A zero phase offset changes nothing.
    assert_eq!(t.lookup_shifted(77, 0), t.lookup(77));
}

#[test]
fn phase_delay_quantizes_by_eight() {
    assert_eq!(phase_delay(0), 0);
    assert_eq!(phase_delay(7), 0);
    assert_eq!(phase_delay(8), 1);
    assert_eq!(phase_delay(1023), 127);
}

#[test]
fn delay_clamps_low_and_high() {
    assert_eq!(delay_from_speed(0), 0);
    assert_eq!(delay_from_speed(419), 0);
    assert_eq!(delay_from_speed(420), 0);
    assert_eq!(delay_from_speed(421), 10);
    assert_eq!(delay_from_speed(500), 800);
    assert_eq!(delay_from_speed(519), 990);
    assert_eq!(delay_from_speed(520), 1000);
    assert_eq!(delay_from_speed(1023), 1000);
}

#[test]
fn time_counter_wraps() {
    assert_eq!(advance_time(0, 1000), 1000);
    assert_eq!(advance_time(u32::MAX, 1), 0);
    assert_eq!(advance_time(u32::MAX, 5), 4);
}

#[test]
fn history_scrolls_and_evicts() {
    let mut h = HistoryBuffer::new(3);
    assert_eq!(h.len(), 3);
    assert_eq!(h.colors()[0], rgb(0, 0, 0));
    h.push_front(rgb(1, 1, 1));
    h.push_front(rgb(2, 2, 2));
    h.push_front(rgb(3, 3, 3));
    assert_eq!(h.colors().as_slice(), &[rgb(3, 3, 3), rgb(2, 2, 2), rgb(1, 1, 1)]);
    // The oldest color falls off the tail; the rest shift one slot.
    h.push_front(rgb(4, 4, 4));
    assert_eq!(h.len(), 3);
    assert_eq!(h.colors().as_slice(), &[rgb(4, 4, 4), rgb(3, 3, 3), rgb(2, 2, 2)]);
    assert!(!h.colors().contains(&rgb(1, 1, 1)));
}

#[test]
fn history_edge_lengths() {
    let mut empty = HistoryBuffer::new(0);
    empty.push_front(rgb(9, 9, 9));
    assert_eq!(empty.len(), 0);
    let mut single = HistoryBuffer::new(1);
    single.push_front(rgb(5, 5, 5));
    single.push_front(rgb(6, 6, 6));
    assert_eq!(single.colors().as_slice(), &[rgb(6, 6, 6)]);
}

#[test]
fn wheel_cycle() {
    assert_eq!(wheel(0), rgb(255, 0, 0));
    assert_eq!(wheel(255), rgb(255, 0, 0));
    assert_eq!(wheel(128), rgb(0, 126, 129));
    assert_eq!(wheel(86), rgb(0, 252, 3));
    assert_eq!(wheel(200), rgb(90, 0, 165));
}

#[test]
fn rainbow_frame_spreads_wheel() {
    let frame = rainbow_frame(59, 0);
    assert_eq!(frame.len(), 59);
    assert_eq!(frame[0], wheel(0));
    assert_eq!(frame[30], rgb(0, 120, 135));
    let rotated = rainbow_frame(59, 300);
    assert_eq!(rotated[10], rgb(0, 249, 6));
    // A full-strip frame maps every index straight onto the wheel.
    let full = rainbow_frame(256, 0);
    assert_eq!(full[200], wheel(200));
}

#[test]
fn scaled_frame_attenuates_every_channel() {
    let frame = vec![rgb(255, 255, 255), rgb(128, 64, 10)];
    let dim = scaled_frame(&frame, 31);
    assert_eq!(dim.as_slice(), &[rgb(31, 31, 31), rgb(16, 8, 1)]);
    let kept = scaled_frame(&frame, 255);
    assert_eq!(kept.as_slice(), frame.as_slice());
    let off = scaled_frame(&frame, 0);
    assert_eq!(off.as_slice(), &[rgb(0, 0, 0), rgb(0, 0, 0)]);
    assert_eq!(scaled_frame(&Vec::new(), 31).len(), 0);
}
