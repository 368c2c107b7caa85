use rsthrottled::codec::{
    calc_icc_max_msr, calc_time_window_vars, calc_undervolt_mv, encode_undervolt_mv, CodecError,
};
use rsthrottled::tables::Plane;

#[test]
fn test_iccmax() {
    // Hand-computed command words: top byte 0x80, sub-code 0x17, plane
    // index in bits 40-47, current in rounded quarter-amps low.
    let cases: Vec<(Plane, u64, u64)> = vec![
        (Plane::Core, 1000, 0x8000_0017_0000_0004),
        (Plane::Core, 0, 0x8000_0017_0000_0000),
        (Plane::Gpu, 2000, 0x8000_0117_0000_0008),
        (Plane::Cache, 16000, 0x8000_0217_0000_0040),
        (Plane::Core, 5500, 0x8000_0017_0000_0016),
        (Plane::Core, 5100, 0x8000_0017_0000_0014),
        (Plane::Core, 5900, 0x8000_0017_0000_0018),
    ];
    for (plane, milliamps, expected) in cases {
        let actual = calc_icc_max_msr(plane, milliamps);
        assert_eq!(actual, expected, "IccMax fail: {}mA on {:?}", milliamps, plane);
    }
}

#[test]
fn test_time_windows() {
    // Target and unit share one caller-chosen scale (microseconds here).
    let cases: Vec<(u64, u64, u64, u64)> = vec![
        (1_000_000, 1_000_000, 0, 0),
        (3_000_000, 1_000_000, 1, 2),
        (0, 1_000_000, 0, 0),
        (2_500_000, 1_000_000, 1, 1),
        (1_999_999, 1_000_000, 1, 0),
        (28_000_000, 1_000_000, 4, 3),
    ];
    for (target, unit, ey, ez) in cases {
        let (y, z) = calc_time_window_vars(target, unit).unwrap();
        assert_eq!((y, z), (ey, ez), "Time fail: {}us", target);
    }
}

#[test]
fn test_time_window_out_of_range() {
    // A zero unit can never cover a positive target.
    assert_eq!(calc_time_window_vars(1, 0), Err(CodecError::WindowOutOfRange));
    // Far beyond the largest representable window for a one-unit tick.
    assert_eq!(
        calc_time_window_vars(1u64 << 62, 1),
        Err(CodecError::WindowOutOfRange)
    );
}

#[test]
fn test_undervolt_decode_boundaries() {
    // Field 0x400 is the boundary positive magnitude: +1024 steps,
    // exactly +1000 mV.
    assert_eq!(calc_undervolt_mv(0x400u64 << 21), 1000);
    // Field 0x401 wraps negative, with a smaller absolute value than
    // the maximum representable offset.
    let mv = calc_undervolt_mv(0x401u64 << 21);
    assert_eq!(mv, -999);
    assert!(mv.abs() < 1000);
    // Zero field decodes to zero.
    assert_eq!(calc_undervolt_mv(0), 0);
    // Field 0x7FF is one step below zero.
    assert_eq!(calc_undervolt_mv(0xFFE0_0000), -1);
    // Bits outside the field are ignored.
    assert_eq!(calc_undervolt_mv(0x0000_0000_001F_FFFF), 0);
}

#[test]
fn test_undervolt_encode() {
    assert_eq!(encode_undervolt_mv(0), Ok(0));
    assert_eq!(encode_undervolt_mv(50), Ok(51));
    assert_eq!(encode_undervolt_mv(-50), Ok(0x7CD));
    assert_eq!(encode_undervolt_mv(1000), Ok(0x400));
    assert_eq!(encode_undervolt_mv(-1000), Ok(0x400));
    assert_eq!(encode_undervolt_mv(1001), Err(CodecError::TargetOutOfRange));
    assert_eq!(encode_undervolt_mv(-1001), Err(CodecError::TargetOutOfRange));
}

#[test]
fn test_undervolt_round_trip() {
    // Every integer millivolt target from -999 to 1000 survives the
    // encode/decode round trip exactly.  (-1000 shares field 0x400
    // with +1000 and decodes to the positive boundary.)
    for mv in -999i64..=1000i64 {
        let field = encode_undervolt_mv(mv).unwrap();
        let back = calc_undervolt_mv(field << 21);
        assert_eq!(back, mv, "round trip fail at {} mV", mv);
    }
    assert_eq!(calc_undervolt_mv(encode_undervolt_mv(-1000).unwrap() << 21), 1000);
}
