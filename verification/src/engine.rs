//! The audio engine: permissive configuration validation, the
//! MIDI-to-frequency table, parameter forwarding, and the producer-side
//! pipeline that publishes filtered-noise samples into a bounded
//! single-producer/single-consumer queue.

use vstd::prelude::*;
use rb::{RB, RbConsumer, RbInspector, RbProducer};
use crate::fixed::ONE_Q24;
use crate::generators::{ErrorKind, Generator, GeneratorError, Resonator, generate_step};

verus! {

/// The bounded single-producer/single-consumer sample queue: an rb ring
/// buffer bundled with its producer and consumer views. The three handles
/// share one ring through interior mutability that Verus cannot see, so
/// the bundle is held opaquely and described by the two names below.
#[verifier::external_body]
pub struct SampleQueue {
    ring: rb::SpscRb<i64>,
    producer: rb::Producer<i64>,
    consumer: rb::Consumer<i64>,
}

/// The samples pending in the queue, oldest first.
pub uninterp spec fn queue_contents(q: SampleQueue) -> Seq<i64>;

/// The fixed capacity the queue was created with.
pub uninterp spec fn queue_capacity(q: SampleQueue) -> int;

impl SampleQueue {
    /// Relies on rb::SpscRb::new and its producer/consumer views: a fresh
    /// ring of the given capacity holds nothing.
    #[verifier::external_body]
    pub fn new(capacity: usize) -> (q: SampleQueue)
        ensures
            queue_capacity(q) == capacity as int,
            queue_contents(q) == Seq::<i64>::empty(),
    {
        let ring = rb::SpscRb::new(capacity);
        let producer = ring.producer();
        let consumer = ring.consumer();
        SampleQueue { ring, producer, consumer }
    }

    /// Relies on rb::RbProducer::write: with a one-element slice it
    /// returns `Err(Full)` and changes nothing exactly when the ring is
    /// full, and otherwise appends that element.
    #[verifier::external_body]
    pub fn try_push(&mut self, sample: i64) -> (ok: bool)
        ensures
            queue_capacity(*final(self)) == queue_capacity(*old(self)),
            ok ==> queue_contents(*old(self)).len() < queue_capacity(*old(self))
                && queue_contents(*final(self)) == queue_contents(*old(self)).push(sample),
            !ok ==> queue_contents(*old(self)).len() == queue_capacity(*old(self))
                && queue_contents(*final(self)) == queue_contents(*old(self)),
    {
        match self.producer.write(&[sample]) {
            Ok(_) => true,
            Err(_) => false,
        }
    }

    /// Relies on rb::RbConsumer::skip: skipping one element drops the
    /// oldest pending sample, or nothing when the queue is empty.
    #[verifier::external_body]
    pub fn skip_oldest(&mut self) -> (n: usize)
        ensures
            queue_capacity(*final(self)) == queue_capacity(*old(self)),
            queue_contents(*old(self)).len() == 0 ==> n == 0 && queue_contents(*final(self))
                == queue_contents(*old(self)),
            queue_contents(*old(self)).len() > 0 ==> n == 1 && queue_contents(*final(self))
                == queue_contents(*old(self)).drop_first(),
    {
        match self.consumer.skip(1) {
            Ok(n) => n,
            Err(_) => 0,
        }
    }

    /// Relies on rb::RbConsumer::read: with a one-slot buffer it pops the
    /// oldest pending sample, or reports the queue empty.
    #[verifier::external_body]
    pub fn pop(&mut self) -> (r: Option<i64>)
        ensures
            queue_capacity(*final(self)) == queue_capacity(*old(self)),
            queue_contents(*old(self)).len() == 0 ==> r is None && queue_contents(*final(self))
                == queue_contents(*old(self)),
            queue_contents(*old(self)).len() > 0 ==> (r matches Some(s) && s == queue_contents(
                *old(self),
            )[0] && queue_contents(*final(self)) == queue_contents(*old(self)).drop_first()),
    {
        let mut buf: [i64; 1] = [0];
        match self.consumer.read(&mut buf) {
            Ok(_) => Some(buf[0]),
            Err(_) => None,
        }
    }

    /// Relies on rb::RbInspector::count: the number of pending samples.
    #[verifier::external_body]
    pub fn len(&self) -> (n: usize)
        ensures
            n as int == queue_contents(*self).len(),
    {
        self.ring.count()
    }
}

/// The equal-tempered semitone steps of the octave starting at A4, in
/// millihertz: `440000 * 2^(k/12)` rounded to the nearest millihertz.
pub open spec fn semitone_millihertz(k: int) -> int {
    if k == 0 {
        440000
    } else if k == 1 {
        466164
    } else if k == 2 {
        493883
    } else if k == 3 {
        523251
    } else if k == 4 {
        554365
    } else if k == 5 {
        587330
    } else if k == 6 {
        622254
    } else if k == 7 {
        659255
    } else if k == 8 {
        698456
    } else if k == 9 {
        739989
    } else if k == 10 {
        783991
    } else {
        830609
    }
}

/// The equal-tempered frequency of a MIDI note in millihertz, relative to
/// A4 = 440 Hz exactly: the semitone step is tabulated and whole octaves
/// double or halve.
pub open spec fn midi_freq_millihertz(note: int) -> int {
    let idx = note - 21;
    let oct = idx / 12;
    let base = semitone_millihertz(idx % 12);
    if oct == 0 {
        base / 16
    } else if oct == 1 {
        base / 8
    } else if oct == 2 {
        base / 4
    } else if oct == 3 {
        base / 2
    } else if oct == 4 {
        base
    } else if oct == 5 {
        base * 2
    } else if oct == 6 {
        base * 4
    } else {
        base * 8
    }
}

/// Law: concert pitch is exact — MIDI note 69 maps to 440 Hz to the
/// millihertz, with no rounding.
pub proof fn lemma_concert_pitch()
    ensures
        midi_freq_millihertz(69) == 440000,
{
}

/// Compute the frequency of one MIDI note (A0 to C8), in millihertz.
pub fn midi_note_frequency(note: u32) -> (f: u64)
    requires
        21 <= note <= 108,
    ensures
        f as int == midi_freq_millihertz(note as int),
        f <= 4186008,
{
    let idx: u32 = note - 21;
    let oct: u32 = idx / 12;
    let k: u32 = idx % 12;
    let base: u64 = match k {
        0 => 440000,
        1 => 466164,
        2 => 493883,
        3 => 523251,
        4 => 554365,
        5 => 587330,
        6 => 622254,
        7 => 659255,
        8 => 698456,
        9 => 739989,
        10 => 783991,
        _ => 830609,
    };
    match oct {
        0 => base / 16,
        1 => base / 8,
        2 => base / 4,
        3 => base / 2,
        4 => base,
        5 => base * 2,
        6 => base * 4,
        _ => base * 8,
    }
}

/// Whether a buffer size is a power of two.
pub open spec fn is_pow2(n: int) -> bool
    decreases n,
{
    if n <= 0 {
        false
    } else if n == 1 {
        true
    } else if n % 2 == 1 {
        false
    } else {
        is_pow2(n / 2)
    }
}

/// The buffer size a configuration is coerced to: kept when it is a power
/// of two, else the 2048-sample default.
pub open spec fn coerced_buffer_size(bs: int) -> int {
    if is_pow2(bs) {
        bs
    } else {
        2048
    }
}

/// Whether a sample rate is one of the standard rates.
pub open spec fn standard_rate(sr: int) -> bool {
    sr == 44100 || sr == 48000 || sr == 96000
}

/// The sample rate a configuration is coerced to: kept when standard,
/// else the 44100 Hz default.
pub open spec fn coerced_sample_rate(sr: int) -> int {
    if standard_rate(sr) {
        sr
    } else {
        44100
    }
}

/// What the queue holds after one sample is published under the
/// drop-oldest policy: the sample is appended, evicting the oldest
/// pending sample when the queue was full.
pub open spec fn published(q: Seq<i64>, cap: int, sample: i64) -> Seq<i64> {
    if q.len() < cap {
        q.push(sample)
    } else if cap > 0 {
        q.drop_first().push(sample)
    } else {
        q
    }
}

/// The engine: one resonator voice, the precomputed MIDI table, and the
/// bounded output queue. The real-time production boundary.
pub struct AudioEngine {
    pub buffer_size: usize,
    pub sample_rate: u32,
    pub output_buffer: SampleQueue,
    pub resonator: Resonator,
    pub midi_lookup: Vec<u64>,
}

impl AudioEngine {
    /// Well-formedness: the voice is well-formed, the MIDI table holds the
    /// 88 piano notes, and the queue never holds more than its capacity,
    /// which is the configured buffer size.
    pub open spec fn wf(&self) -> bool {
        &&& self.resonator.wf()
        &&& self.midi_lookup@.len() == 88
        &&& forall|i: int|
            0 <= i < 88 ==> self.midi_lookup@[i] as int == midi_freq_millihertz(i + 21)
        &&& queue_contents(self.output_buffer).len() <= queue_capacity(self.output_buffer)
        &&& queue_capacity(self.output_buffer) == self.buffer_size as int
    }

    /// Build an engine: the default voice, the MIDI table computed once
    /// over notes 21 to 108, and an empty queue of the given capacity.
    /// The configuration is stored as given; callers normalize it with
    /// `validate_audio_config` beforehand.
    pub fn new(buffer_size: usize, sample_rate: u32) -> (e: AudioEngine)
        ensures
            e.wf(),
            e.buffer_size == buffer_size,
            e.sample_rate == sample_rate,
            e.resonator.filt_type is Bandpass,
            e.resonator.cutoff_mhz == 1000000 && e.resonator.q_millis == 1000
                && e.resonator.sample_rate == 44100,
            e.resonator.biquad.x1 == 0 && e.resonator.biquad.x2 == 0 && e.resonator.biquad.y1 == 0
                && e.resonator.biquad.y2 == 0,
            queue_contents(e.output_buffer) == Seq::<i64>::empty(),
    {
        let output_buffer = SampleQueue::new(buffer_size);
        let resonator = Resonator::new();
        let mut midi_lookup: Vec<u64> = Vec::new();
        let mut m: u32 = 21;
        while m < 109
            invariant
                21 <= m <= 109,
                midi_lookup@.len() == m - 21,
                forall|i: int|
                    0 <= i < midi_lookup@.len() ==> midi_lookup@[i] as int == midi_freq_millihertz(
                        i + 21,
                    ),
            decreases 109 - m,
        {
            let f: u64 = midi_note_frequency(m);
            midi_lookup.push(f);
            m = m + 1;
        }
        AudioEngine { buffer_size, sample_rate, output_buffer, resonator, midi_lookup }
    }

    /// Normalize a requested configuration, never failing: a buffer size
    /// that is not a power of two becomes 2048 samples, and a sample rate
    /// other than 44100, 48000 or 96000 Hz becomes 44100 Hz.
    pub fn validate_audio_config(buffer_size: usize, sample_rate: u32) -> (r: (usize, u32))
        ensures
            r.0 as int == coerced_buffer_size(buffer_size as int),
            r.1 as int == coerced_sample_rate(sample_rate as int),
    {
        let mut temp_val: usize = buffer_size;
        while temp_val != 0 && temp_val % 2 == 0
            invariant
                is_pow2(buffer_size as int) <==> (temp_val != 0 && is_pow2(temp_val as int)),
            decreases temp_val,
        {
            temp_val = temp_val / 2;
        }
        let ret_bsize: usize = if temp_val == 1 {
            buffer_size
        } else {
            2048
        };
        let ret_srate: u32 = match sample_rate {
            44100 | 48000 | 96000 => sample_rate,
            _ => 44100,
        };
        (ret_bsize, ret_srate)
    }

    /// Look one MIDI note up in the precomputed table.
    pub fn midi_to_frequency(&self, midi_val: u32) -> (f: u64)
        requires
            self.wf(),
            21 <= midi_val <= 108,
        ensures
            f as int == midi_freq_millihertz(midi_val as int),
    {
        let index: usize = midi_val as usize;
        self.midi_lookup[index - 21]
    }

    /// Note-on: map a MIDI note (21 to 108) to its frequency and move the
    /// voice's cutoff there. A note outside the table, or one whose
    /// frequency exceeds the voice's Nyquist, is rejected with an
    /// out-of-range error and nothing changes.
    pub fn set_noteon(&mut self, midi_val: u32) -> (r: Result<(), GeneratorError>)
        requires
            old(self).wf(),
        ensures
            final(self).wf(),
            final(self).buffer_size == old(self).buffer_size,
            final(self).sample_rate == old(self).sample_rate,
            final(self).midi_lookup == old(self).midi_lookup,
            final(self).output_buffer == old(self).output_buffer,
            (21 <= midi_val <= 108 && midi_freq_millihertz(midi_val as int) <= 500 * old(self).resonator.sample_rate) <==> r is Ok,
            r is Ok ==> final(self).resonator.cutoff_mhz as int == midi_freq_millihertz(
                midi_val as int,
            ) && final(self).resonator.q_millis == old(self).resonator.q_millis && final(self).resonator.sample_rate == old(self).resonator.sample_rate && final(self).resonator.filt_type == old(self).resonator.filt_type && final(self).resonator.biquad
                == old(self).resonator.biquad,
            r is Err ==> final(self).resonator == old(self).resonator,
            r matches Err(e) ==> e.kind == ErrorKind::OutOfRange,
            (21 <= midi_val <= 108 && midi_freq_millihertz(midi_val as int) == old(
                self,
            ).resonator.cutoff_mhz) ==> final(self).resonator == old(self).resonator,
    {
        if midi_val < 21 || midi_val > 108 {
            Err(GeneratorError::new("[ERROR] requested MIDI note is out of range"))
        } else {
            let f_cut: u64 = self.midi_to_frequency(midi_val);
            self.resonator.set_cutoff(f_cut)
        }
    }

    /// Forward a resonance change to the voice, with the voice's own
    /// validation: Q must lie in `(0, 20)`.
    pub fn set_qfactor(&mut self, q_fact: u32) -> (r: Result<(), GeneratorError>)
        requires
            old(self).wf(),
        ensures
            final(self).wf(),
            final(self).buffer_size == old(self).buffer_size,
            final(self).sample_rate == old(self).sample_rate,
            final(self).midi_lookup == old(self).midi_lookup,
            final(self).output_buffer == old(self).output_buffer,
            (0 < q_fact < 20000) <==> r is Ok,
            r is Ok ==> final(self).resonator.q_millis == q_fact && final(self).resonator.cutoff_mhz == old(self).resonator.cutoff_mhz && final(self).resonator.sample_rate == old(self).resonator.sample_rate && final(self).resonator.filt_type == old(self).resonator.filt_type && final(self).resonator.biquad
                == old(self).resonator.biquad,
            r is Err ==> final(self).resonator == old(self).resonator,
            q_fact == 0 ==> (r matches Err(e) && e.kind == ErrorKind::InvalidParameterCombination),
            q_fact >= 20000 ==> (r matches Err(e) && e.kind == ErrorKind::OutOfRange),
            q_fact == old(self).resonator.q_millis ==> final(self).resonator == old(
                self,
            ).resonator,
    {
        self.resonator.set_qfactor(q_fact)
    }

    /// Change the engine sample rate: only the standard rates pass the
    /// configuration check, and the voice revalidates the rate against
    /// its active cutoff. On success both the engine and the voice carry
    /// the new rate; on failure nothing changes.
    pub fn set_samplerate(&mut self, s_rate: u32) -> (r: Result<(), GeneratorError>)
        requires
            old(self).wf(),
        ensures
            final(self).wf(),
            final(self).buffer_size == old(self).buffer_size,
            final(self).midi_lookup == old(self).midi_lookup,
            final(self).output_buffer == old(self).output_buffer,
            (standard_rate(s_rate as int) && old(self).resonator.cutoff_mhz <= 500 * s_rate) <==> r
                is Ok,
            r is Ok ==> final(self).sample_rate == s_rate && final(self).resonator.sample_rate
                == s_rate && final(self).resonator.cutoff_mhz == old(self).resonator.cutoff_mhz
                && final(self).resonator.q_millis == old(self).resonator.q_millis && final(self).resonator.filt_type == old(self).resonator.filt_type && final(self).resonator.biquad
                == old(self).resonator.biquad,
            r is Err ==> final(self).sample_rate == old(self).sample_rate && final(self).resonator
                == old(self).resonator,
            !standard_rate(s_rate as int) ==> (r matches Err(e) && e.kind == ErrorKind::OutOfRange),
            s_rate == old(self).resonator.sample_rate ==> final(self).resonator == old(
                self,
            ).resonator,
    {
        let config: (usize, u32) = Self::validate_audio_config(self.buffer_size, s_rate);
        if config.1 == s_rate {
            match self.resonator.set_samplerate(s_rate) {
                Ok(()) => {
                    self.sample_rate = s_rate;
                    Ok(())
                },
                Err(e) => Err(e),
            }
        } else {
            Err(GeneratorError::new("[ERROR] sampling frequency is not valid"))
        }
    }

    /// Publish one sample into the output queue under the drop-oldest
    /// policy: when the queue is full the oldest pending sample is
    /// evicted, so the producer never blocks.
    fn push_sample(&mut self, sample: i64)
        requires
            queue_contents(old(self).output_buffer).len() <= queue_capacity(
                old(self).output_buffer,
            ),
        ensures
            final(self).buffer_size == old(self).buffer_size,
            final(self).sample_rate == old(self).sample_rate,
            final(self).midi_lookup == old(self).midi_lookup,
            final(self).resonator == old(self).resonator,
            queue_capacity(final(self).output_buffer) == queue_capacity(old(self).output_buffer),
            queue_contents(final(self).output_buffer) == published(
                queue_contents(old(self).output_buffer),
                queue_capacity(old(self).output_buffer),
                sample,
            ),
            queue_contents(final(self).output_buffer).len() <= queue_capacity(
                final(self).output_buffer,
            ),
    {
        let pushed: bool = self.output_buffer.try_push(sample);
        if !pushed {
            let _dropped: usize = self.output_buffer.skip_oldest();
            let _retried: bool = self.output_buffer.try_push(sample);
        }
    }

    /// One real-time production step: generate one filtered-noise sample
    /// and publish it into the output queue, never blocking and never
    /// failing.
    pub fn tick(&mut self) -> (sample: i64)
        requires
            old(self).wf(),
        ensures
            final(self).wf(),
            -ONE_Q24 <= sample <= ONE_Q24,
            final(self).buffer_size == old(self).buffer_size,
            final(self).sample_rate == old(self).sample_rate,
            final(self).midi_lookup == old(self).midi_lookup,
            final(self).resonator.coeffs == old(self).resonator.coeffs,
            final(self).resonator.cutoff_mhz == old(self).resonator.cutoff_mhz,
            final(self).resonator.q_millis == old(self).resonator.q_millis,
            final(self).resonator.sample_rate == old(self).resonator.sample_rate,
            final(self).resonator.filt_type == old(self).resonator.filt_type,
            queue_capacity(final(self).output_buffer) == queue_capacity(old(self).output_buffer),
            queue_contents(final(self).output_buffer) == published(
                queue_contents(old(self).output_buffer),
                queue_capacity(old(self).output_buffer),
                sample,
            ),
            exists|n: i64|
                generate_step(old(self).resonator, final(self).resonator, sample, n),
    {
        let sample: i64 = self.resonator.generate();
        self.push_sample(sample);
        sample
    }

    /// Pop the oldest pending sample for the output side, or learn that
    /// the queue is empty.
    pub fn pop_sample(&mut self) -> (r: Option<i64>)
        requires
            old(self).wf(),
        ensures
            final(self).wf(),
            final(self).buffer_size == old(self).buffer_size,
            final(self).sample_rate == old(self).sample_rate,
            final(self).midi_lookup == old(self).midi_lookup,
            final(self).resonator == old(self).resonator,
            queue_capacity(final(self).output_buffer) == queue_capacity(old(self).output_buffer),
            queue_contents(old(self).output_buffer).len() == 0 ==> r is None && queue_contents(
                final(self).output_buffer,
            ) == queue_contents(old(self).output_buffer),
            queue_contents(old(self).output_buffer).len() > 0 ==> (r matches Some(s) && s
                == queue_contents(old(self).output_buffer)[0] && queue_contents(
                final(self).output_buffer,
            ) == queue_contents(old(self).output_buffer).drop_first()),
    {
        self.output_buffer.pop()
    }

    /// How many samples are pending in the output queue.
    pub fn pending_samples(&self) -> (n: usize)
        ensures
            n as int == queue_contents(self.output_buffer).len(),
    {
        self.output_buffer.len()
    }
}

} // verus!
