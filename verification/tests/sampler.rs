use mitutoyo_modbus::mitutoyo::{Measurement, MeasurementError, Sampler};
use mitutoyo_modbus::CLOCK_EDGE_TIMEOUT;

/// Strobe one data bit through a full clock pulse: the clock rises, then
/// falls with the data line holding `bit`. Only for bits before the last:
/// the sampler must still be mid-frame afterwards.
fn strobe_bit(s: &mut Sampler, bit: bool, t: &mut u64) {
    *t += 1;
    assert_eq!(s.step(true, false, *t), None);
    *t += 1;
    assert_eq!(s.step(false, bit, *t), None);
}

fn strobe_nibble(s: &mut Sampler, nibble: u8, t: &mut u64) {
    // least significant bit first
    for j in 0..4 {
        strobe_bit(s, (nibble >> j) & 1 == 1, t);
    }
}

#[test]
fn reads_a_whole_frame() {
    let mut t: u64 = 0;
    let mut s = Sampler::new(t);
    assert!(s.request_high());
    let nibbles: [u8; 13] = [0xf, 0xf, 0xf, 0xf, 0x0, 0, 1, 2, 3, 4, 5, 3, 0];
    for (i, &n) in nibbles.iter().enumerate() {
        if i == 12 {
            break;
        }
        strobe_nibble(&mut s, n, &mut t);
        assert!(!s.request_high() || i < 1);
    }
    // final nibble: the last falling edge must yield the decoded frame
    for j in 0..3 {
        strobe_bit(&mut s, (nibbles[12] >> j) & 1 == 1, &mut t);
    }
    t += 1;
    assert_eq!(s.step(true, false, t), None);
    t += 1;
    let r = s.step(false, (nibbles[12] >> 3) & 1 == 1, t);
    assert_eq!(
        r,
        Some(Ok(Measurement { negative: false, magnitude: 12345, scale: 3 }))
    );
}

#[test]
fn request_drops_after_first_nibble() {
    let mut t: u64 = 0;
    let mut s = Sampler::new(t);
    assert!(s.request_high());
    strobe_nibble(&mut s, 0xf, &mut t);
    assert!(!s.request_high());
}

#[test]
fn frame_without_start_marker_is_rejected() {
    let mut t: u64 = 0;
    let mut s = Sampler::new(t);
    let nibbles: [u8; 13] = [0xf, 0xf, 0xe, 0xf, 0x0, 0, 0, 0, 0, 0, 1, 0, 0];
    let mut last = None;
    for &n in nibbles.iter() {
        for j in 0..4 {
            t += 1;
            assert_eq!(s.step(true, false, t), None);
            t += 1;
            last = s.step(false, (n >> j) & 1 == 1, t);
        }
    }
    assert_eq!(last, Some(Err(MeasurementError::InvalidStart)));
}

#[test]
fn stalled_low_clock_times_out() {
    let mut s = Sampler::new(100);
    // exactly at the budget: still waiting
    assert_eq!(s.step(false, false, 100 + CLOCK_EDGE_TIMEOUT), None);
    assert!(s.is_in_progress());
    // one tick past the budget: the frame is abandoned
    let r = s.step(false, false, 100 + CLOCK_EDGE_TIMEOUT + 1);
    assert_eq!(r, Some(Err(MeasurementError::Timeout)));
    assert!(!s.is_in_progress());
}

#[test]
fn stalled_high_clock_times_out() {
    let mut s = Sampler::new(0);
    assert_eq!(s.step(true, false, 5), None); // rising edge at tick 5
    assert_eq!(s.step(true, false, 5 + CLOCK_EDGE_TIMEOUT), None);
    let r = s.step(true, false, 5 + CLOCK_EDGE_TIMEOUT + 1);
    assert_eq!(r, Some(Err(MeasurementError::Timeout)));
}

#[test]
fn waiting_within_budget_changes_nothing() {
    let mut t: u64 = 0;
    let mut s = Sampler::new(t);
    // idle polls with the clock low are absorbed
    for i in 1..=10 {
        assert_eq!(s.step(false, true, i), None);
    }
    // the frame still decodes afterwards
    let nibbles: [u8; 13] = [0xf, 0xf, 0xf, 0xf, 0x8, 0, 0, 0, 0, 4, 2, 1, 0];
    t = 10;
    let mut last = None;
    for &n in nibbles.iter() {
        for j in 0..4 {
            t += 1;
            assert_eq!(s.step(true, false, t), None);
            t += 1;
            last = s.step(false, (n >> j) & 1 == 1, t);
        }
    }
    assert_eq!(
        last,
        Some(Ok(Measurement { negative: true, magnitude: 42, scale: 1 }))
    );
}
