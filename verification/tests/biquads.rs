use subtractesizer::biquads::{
    calculate_coeffs, Biquad, BiquadCoeffs, CommonFilters, DirectFormII,
};
use subtractesizer::generators::ErrorKind;

#[allow(non_snake_case)]
#[test]
fn calculate_coeffs_TEST() {
    let to_f = |raw: i64| raw as f64 / 16777216.0;
    let round_2dp = |input: f64| (input * 100.00).round() / 100.0;
    let assert_coeffs = |expected: [f64; 5], c: &BiquadCoeffs| {
        assert_eq!(expected[0], round_2dp(to_f(c.a1)));
        assert_eq!(expected[1], round_2dp(to_f(c.a2)));
        assert_eq!(expected[2], round_2dp(to_f(c.b0)));
        assert_eq!(expected[3], round_2dp(to_f(c.b1)));
        assert_eq!(expected[4], round_2dp(to_f(c.b2)));
    };

    // high pass (f0 = 1kHz, fs = 44.1kHz, Q = 0.5)
    {
        let bq = calculate_coeffs(CommonFilters::Highpass, 1_000_000, 500, 44100).unwrap();
        // hand-calculated from the audio-eq-cookbook closed forms
        assert_coeffs([-1.98, 0.86, 0.99, -1.99, 0.99], &bq);
    }

    // low pass (f0 = 10kHz, fs = 96kHz, Q = 1.0)
    {
        let bq = calculate_coeffs(CommonFilters::Lowpass, 10_000_000, 1000, 96000).unwrap();
        assert_coeffs([-1.59, 0.70, 0.10, 0.21, 0.10], &bq);
    }

    // band pass (f0 = 7.5kHz, fs = 48kHz, Q = 3.0)
    {
        let bq = calculate_coeffs(CommonFilters::Bandpass, 7_500_000, 3000, 48000).unwrap();
        assert_coeffs([-1.11, 0.86, 0.14, 0.0, -0.14], &bq);
    }
}

#[allow(non_snake_case)]
#[test]
fn DirectFormII_TEST() {
    let mut dfii = DirectFormII::new();
    let bq = calculate_coeffs(CommonFilters::Highpass, 7_500_000, 500, 44100).unwrap();
    assert_eq!(0, dfii.filter(0, &bq));
}

#[test]
fn zeroed_coeffs_constructor() {
    let c = BiquadCoeffs::new();
    assert_eq!((c.a1, c.a2, c.b0, c.b1, c.b2), (0, 0, 0, 0, 0));
}

#[test]
fn quiescent_filter_zero_stream() {
    // a zero-valued input stream through a fresh filter stays zero,
    // whatever the coefficient set
    let mut dfii = DirectFormII::new();
    let bq = calculate_coeffs(CommonFilters::Bandpass, 5_000_000, 5000, 44100).unwrap();
    for _ in 0..32 {
        assert_eq!(0, dfii.filter(0, &bq));
    }
}

#[test]
fn bandstop_is_unsupported() {
    let r = calculate_coeffs(CommonFilters::Bandstop, 1_000_000, 500, 44100);
    match r {
        Ok(_) => panic!("band-stop synthesis must not silently succeed"),
        Err(e) => assert_eq!(e.kind, ErrorKind::UnsupportedFilterType),
    }
}

#[test]
fn bandpass_shape() {
    // the band-pass feed-forward terms: b1 is exactly zero and b2 == -b0
    let bq = calculate_coeffs(CommonFilters::Bandpass, 2_000_000, 1500, 48000).unwrap();
    assert_eq!(bq.b1, 0);
    assert_eq!(bq.b2, -bq.b0);
    // shared denominator terms relate: a1 = -2*cos(w) lies in [-2, 2]
    assert!(-2 * 16777216 <= bq.a1 && bq.a1 <= 2 * 16777216);
}

#[test]
fn boundary_cutoffs_synthesize() {
    // cutoff 0 and cutoff exactly Nyquist are valid boundary values
    let lo = calculate_coeffs(CommonFilters::Lowpass, 0, 700, 44100);
    assert!(lo.is_ok());
    let hi = calculate_coeffs(CommonFilters::Lowpass, 22_050_000, 700, 44100);
    assert!(hi.is_ok());
}

#[test]
fn filter_shifts_delay_line() {
    let mut dfii = DirectFormII::new();
    let bq = calculate_coeffs(CommonFilters::Lowpass, 1_000_000, 1000, 44100).unwrap();
    let one = 16777216i64;
    let y0 = dfii.filter(one, &bq);
    assert_eq!(dfii.x1, one);
    assert_eq!(dfii.x2, 0);
    assert_eq!(dfii.y1, y0);
    assert_eq!(dfii.y2, 0);
    let y1 = dfii.filter(0, &bq);
    assert_eq!(dfii.x1, 0);
    assert_eq!(dfii.x2, one);
    assert_eq!(dfii.y1, y1);
    assert_eq!(dfii.y2, y0);
}
