use itertools::Itertools;
use subtractesizer::generators::{ErrorKind, Generator, GeneratorError, Resonator};

#[allow(non_snake_case)]
#[test]
fn resonator_set_cutoff_test_PASS() {
    let mut res = Resonator::new();
    let result = res.set_cutoff(14_000_000); // < Nyquist at s_rate = 44.1kHz
    assert_eq!(result, Ok(()));
}

#[allow(non_snake_case)]
#[test]
fn resonator_set_cutoff_test_FAIL() {
    let mut res = Resonator::new();
    let result = res.set_cutoff(30_000_000); // > Nyquist at s_rate = 44.1kHz
    assert_eq!(
        result,
        Err(GeneratorError::new("[ERROR] requested frequency is out of range"))
    );
}

#[allow(non_snake_case)]
#[test]
fn resonator_set_qfactor_test_PASS() {
    let mut res = Resonator::new();
    let result = res.set_qfactor(8800);
    assert_eq!(result, Ok(()));
}

#[allow(non_snake_case)]
#[test]
fn resonator_set_qfactor_test_FAIL() {
    let mut res = Resonator::new();
    let result = res.set_qfactor(21000);
    assert_eq!(result, Err(GeneratorError::new("[ERROR] Q value out of range")));
}

#[allow(non_snake_case)]
#[test]
fn resonator_set_samplerate_test_PASS() {
    let mut res = Resonator::new();
    let result = res.set_samplerate(48000);
    assert_eq!(result, Ok(()));
}

#[allow(non_snake_case)]
#[test]
fn resonator_set_samplerate_test_FAIL() {
    let mut res = Resonator::new();
    let result = res.set_samplerate(300000);
    assert_eq!(result, Err(GeneratorError::new("[ERROR] sample rate out of range")));
}

#[allow(non_snake_case)]
#[test]
fn resonator_generate_PASS() {
    let mut res = Resonator::new();
    let mut test_buffer: [f32; 256] = [1.0; 256];
    for i in 0..256 {
        test_buffer[i] = res.generate() as f32 / 16777216.0;
    }
    // check min and max bounds
    #[allow(deprecated)]
    let max = test_buffer.iter().cloned().fold1(f32::max).unwrap();
    assert!(1.0 >= max);
    assert!(-1.0 <= max);
    assert_eq!(false, test_buffer.is_empty());
}

#[test]
fn cutoff_at_nyquist_succeeds() {
    // exactly Nyquist is a valid boundary; one hertz above is rejected
    let mut res = Resonator::new();
    assert_eq!(res.set_cutoff(22_050_000), Ok(()));
    let above = res.set_cutoff(22_051_000);
    match above {
        Ok(()) => panic!("a cutoff above Nyquist must be rejected"),
        Err(e) => assert_eq!(e.kind, ErrorKind::OutOfRange),
    }
    // the failed call left the accepted cutoff in place
    assert_eq!(res.cutoff_mhz, 22_050_000);
}

#[test]
fn zero_q_is_invalid_combination() {
    let mut res = Resonator::new();
    let before = res;
    let r = res.set_qfactor(0);
    match r {
        Ok(()) => panic!("a zero Q must be rejected before synthesis divides by it"),
        Err(e) => assert_eq!(e.kind, ErrorKind::InvalidParameterCombination),
    }
    assert_eq!(res, before);
}

#[test]
fn samplerate_below_cutoff_is_invalid_combination() {
    let mut res = Resonator::new();
    assert_eq!(res.set_cutoff(14_000_000), Ok(()));
    let before = res;
    let r = res.set_samplerate(8000); // Nyquist 4 kHz < active 14 kHz cutoff
    match r {
        Ok(()) => panic!("a rate whose Nyquist undercuts the active cutoff must be rejected"),
        Err(e) => assert_eq!(e.kind, ErrorKind::InvalidParameterCombination),
    }
    assert_eq!(res, before);
}

#[test]
fn setters_with_active_values_are_noops() {
    let mut res = Resonator::new();
    let before = res;
    assert_eq!(res.set_cutoff(1_000_000), Ok(()));
    assert_eq!(res, before);
    assert_eq!(res.set_qfactor(1000), Ok(()));
    assert_eq!(res, before);
    assert_eq!(res.set_samplerate(44100), Ok(()));
    assert_eq!(res, before);
}

#[test]
fn successful_setter_resynthesizes() {
    // a genuine parameter change replaces the coefficient set wholesale
    let mut res = Resonator::new();
    let before = res.coeffs;
    assert_eq!(res.set_qfactor(5000), Ok(()));
    assert_ne!(res.coeffs, before);
}

#[test]
fn generator_error_message() {
    let e = GeneratorError::new("[ERROR] requested frequency is out of range");
    assert_eq!(e.message(), "[ERROR] requested frequency is out of range");
    assert_eq!(e.kind, ErrorKind::OutOfRange);
}

#[test]
fn generate_never_escapes_unit_band() {
    let mut res = Resonator::new();
    // a sharply resonant band-pass near the top of its range
    assert_eq!(res.set_qfactor(19_999), Ok(()));
    assert_eq!(res.set_cutoff(100_000), Ok(()));
    for _ in 0..2048 {
        let s = res.generate();
        assert!(-16777216 <= s && s <= 16777216);
    }
}
