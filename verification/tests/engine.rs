use subtractesizer::engine::{midi_note_frequency, AudioEngine};
use subtractesizer::generators::ErrorKind;

#[test]
fn audio_engine_new_test() {
    let buf_size: usize = 1024;
    let s_rate: u32 = 441000;
    let engine = AudioEngine::new(buf_size, s_rate);
    assert_eq!(buf_size, engine.buffer_size);
    assert_eq!(s_rate, engine.sample_rate);
}

#[test]
fn audio_engine_validate_audio_config_test() {
    assert_eq!(AudioEngine::validate_audio_config(1024, 44100), (1024, 44100));
    assert_ne!(AudioEngine::validate_audio_config(2048, 96000), (1024, 44100));
    assert_eq!(AudioEngine::validate_audio_config(4096, 96000), (4096, 96000));
}

#[test]
fn audio_engine_midi_to_frequency_test() {
    let engine = AudioEngine::new(1024, 44100);
    let hz = |mhz: u64| mhz as f64 / 1000.0;
    assert_eq!(hz(engine.midi_to_frequency(21)).round(), 28.0);
    assert_eq!(hz(engine.midi_to_frequency(60)).round(), 262.0);
    assert_eq!(hz(engine.midi_to_frequency(69)).round(), 440.0);
    assert_eq!(hz(engine.midi_to_frequency(108)).round(), 4186.0);
}

#[test]
fn validate_coerces_non_powers_of_two() {
    assert_eq!(AudioEngine::validate_audio_config(1000, 44100), (2048, 44100));
    assert_eq!(AudioEngine::validate_audio_config(0, 44100), (2048, 44100));
    assert_eq!(AudioEngine::validate_audio_config(1, 48000), (1, 48000));
    assert_eq!(AudioEngine::validate_audio_config(3, 96000), (2048, 96000));
}

#[test]
fn validate_coerces_unknown_rates() {
    assert_eq!(AudioEngine::validate_audio_config(1024, 441000), (1024, 44100));
    assert_eq!(AudioEngine::validate_audio_config(1024, 0), (1024, 44100));
    assert_eq!(AudioEngine::validate_audio_config(1024, 22050), (1024, 44100));
}

#[test]
fn concert_pitch_is_exact() {
    // A4 carries no rounding at all: 440 Hz to the millihertz
    assert_eq!(midi_note_frequency(69), 440_000);
    // A0 is exactly four octaves below: 27.5 Hz
    assert_eq!(midi_note_frequency(21), 27_500);
}

#[test]
fn engine_note_on_moves_cutoff() {
    let mut engine = AudioEngine::new(1024, 44100);
    assert_eq!(engine.set_noteon(69), Ok(()));
    assert_eq!(engine.resonator.cutoff_mhz, 440_000);
    assert_eq!(engine.set_noteon(108), Ok(()));
    assert_eq!(engine.resonator.cutoff_mhz, 4_186_008);
}

#[test]
fn engine_note_on_guards_the_table() {
    let mut engine = AudioEngine::new(1024, 44100);
    for bad in [0u32, 20, 109, 127] {
        match engine.set_noteon(bad) {
            Ok(()) => panic!("a note outside the 88-key table must be rejected"),
            Err(e) => assert_eq!(e.kind, ErrorKind::OutOfRange),
        }
    }
    // the engine is untouched by the rejections
    assert_eq!(engine.resonator.cutoff_mhz, 1_000_000);
}

#[test]
fn engine_set_qfactor_forwards() {
    let mut engine = AudioEngine::new(1024, 44100);
    assert_eq!(engine.set_qfactor(8800), Ok(()));
    assert_eq!(engine.resonator.q_millis, 8800);
    match engine.set_qfactor(20000) {
        Ok(()) => panic!("a Q of twenty must be rejected"),
        Err(e) => assert_eq!(e.kind, ErrorKind::OutOfRange),
    }
}

#[test]
fn engine_set_samplerate_standard_only() {
    let mut engine = AudioEngine::new(1024, 44100);
    assert_eq!(engine.set_samplerate(48000), Ok(()));
    assert_eq!(engine.sample_rate, 48000);
    assert_eq!(engine.resonator.sample_rate, 48000);
    // 22050 Hz is a real rate but not a standard one here
    assert!(engine.set_samplerate(22050).is_err());
    assert_eq!(engine.sample_rate, 48000);
    assert_eq!(engine.resonator.sample_rate, 48000);
}

#[test]
fn engine_tick_publishes_bounded_samples() {
    let mut engine = AudioEngine::new(8, 44100);
    for _ in 0..8 {
        let s = engine.tick();
        assert!(-16777216 <= s && s <= 16777216);
    }
    assert_eq!(engine.pending_samples(), 8);
}

#[test]
fn engine_queue_drops_oldest_when_full() {
    let mut engine = AudioEngine::new(2, 44100);
    let _evicted = engine.tick();
    let second = engine.tick();
    let third = engine.tick();
    assert_eq!(engine.pending_samples(), 2);
    assert_eq!(engine.pop_sample(), Some(second));
    assert_eq!(engine.pop_sample(), Some(third));
    assert_eq!(engine.pop_sample(), None);
    assert_eq!(engine.pending_samples(), 0);
}

#[test]
fn engine_pop_is_fifo() {
    let mut engine = AudioEngine::new(16, 44100);
    let a = engine.tick();
    let b = engine.tick();
    let c = engine.tick();
    assert_eq!(engine.pop_sample(), Some(a));
    assert_eq!(engine.pop_sample(), Some(b));
    assert_eq!(engine.pop_sample(), Some(c));
    assert_eq!(engine.pop_sample(), None);
}
