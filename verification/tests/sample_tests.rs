use wav_tempo::sample::{normalize, normalize_buffer, quantize, quantize_buffer, Norm};

#[test]
fn test_normalize_keeps_the_numerator() {
    assert_eq!(normalize(0), 0);
    assert_eq!(normalize(5), 5);
    assert_eq!(normalize(-5), -5);
    assert_eq!(normalize(32767), 32767);
    assert_eq!(normalize(-32768), -32768);
}

#[test]
fn test_quantize_exact_values() {
    assert_eq!(quantize(0), 0);
    assert_eq!(quantize(1), 0);
    assert_eq!(quantize(-1), 0);
    // 16384 * 32767 / 32768 truncates to 16383.
    assert_eq!(quantize(16384), 16383);
    assert_eq!(quantize(-16384), -16383);
    assert_eq!(quantize(32767), 32766);
    assert_eq!(quantize(-32767), -32766);
}

#[test]
fn test_quantize_clamps_at_full_scale() {
    // Any magnitude at or beyond full scale lands exactly on the rails.
    assert_eq!(quantize(32768), 32767);
    assert_eq!(quantize(-32768), -32768);
    assert_eq!(quantize(40000), 32767);
    assert_eq!(quantize(-40000), -32768);
    assert_eq!(quantize(Norm::MAX), 32767);
    assert_eq!(quantize(Norm::MIN), -32768);
}

#[test]
fn test_round_trip_never_drifts_by_more_than_one() {
    for s in i16::MIN as i32..=i16::MAX as i32 {
        let s = s as i16;
        let back = quantize(normalize(s));
        let diff = back as i32 - s as i32;
        assert!(diff.abs() <= 1, "sample {} came back as {}", s, back);
        // The drift is always toward zero, never outward.
        if s > 0 {
            assert!(back == s || back == s - 1);
        } else if s > i16::MIN {
            assert!(back == s || back == s + 1);
        } else {
            assert_eq!(back, i16::MIN);
        }
    }
}

#[test]
fn test_buffers_preserve_length_and_order() {
    let ints: Vec<i16> = vec![3, -7, 0, 32767, -32768];
    let norm = normalize_buffer(&ints);
    assert_eq!(norm, vec![3, -7, 0, 32767, -32768]);
    let back = quantize_buffer(&norm);
    assert_eq!(back, vec![2, -6, 0, 32766, -32768]);
}
