use mitutoyo_modbus::mitutoyo::{decode_frame, Measurement, MeasurementError};

fn frame(sign: u8, digits: [u8; 6], scale: u8) -> Vec<u8> {
    let mut f = vec![0xf, 0xf, 0xf, 0xf, sign];
    f.extend_from_slice(&digits);
    f.push(scale);
    f.push(0);
    f
}

#[test]
fn decodes_positive_value() {
    let r = decode_frame(&frame(0x0, [0, 1, 2, 3, 4, 5], 3));
    assert_eq!(
        r.ok(),
        Some(Measurement { negative: false, magnitude: 12345, scale: 3 })
    );
}

#[test]
fn decodes_negative_value() {
    let r = decode_frame(&frame(0x8, [9, 8, 7, 6, 5, 4], 2));
    assert_eq!(
        r.ok(),
        Some(Measurement { negative: true, magnitude: 987654, scale: 2 })
    );
}

#[test]
fn sign_nibble_must_be_exactly_eight() {
    // any other sign nibble value means non-negative
    let r = decode_frame(&frame(0x1, [0, 0, 0, 0, 0, 1], 0));
    assert_eq!(
        r.ok(),
        Some(Measurement { negative: false, magnitude: 1, scale: 0 })
    );
}

#[test]
fn decodes_zero() {
    let r = decode_frame(&frame(0x0, [0, 0, 0, 0, 0, 0], 0));
    assert_eq!(
        r.ok(),
        Some(Measurement { negative: false, magnitude: 0, scale: 0 })
    );
}

#[test]
fn digit_weights_follow_powers_of_ten() {
    let r = decode_frame(&frame(0x0, [1, 0, 0, 0, 0, 0], 5)).unwrap();
    assert_eq!(r.magnitude, 100000);
    assert_eq!(r.scale, 5);
    let r = decode_frame(&frame(0x0, [0, 0, 0, 0, 0, 7], 1)).unwrap();
    assert_eq!(r.magnitude, 7);
    assert_eq!(r.scale, 1);
}

#[test]
fn rejects_broken_start_marker() {
    for bad in 0..4 {
        let mut f = frame(0x0, [1, 2, 3, 4, 5, 6], 2);
        f[bad] = 0xe;
        let r = decode_frame(&f);
        assert!(matches!(r, Err(MeasurementError::InvalidStart)));
    }
}

#[test]
fn reserved_last_nibble_is_ignored() {
    let mut f = frame(0x0, [0, 0, 4, 2, 0, 0], 1);
    f[12] = 0xa;
    let r = decode_frame(&f);
    assert_eq!(
        r.ok(),
        Some(Measurement { negative: false, magnitude: 4200, scale: 1 })
    );
}
