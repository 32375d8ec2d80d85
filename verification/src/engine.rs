//! The audio-thread synthesis engine: a monophonic square-wave oscillator
//! driven by the host's per-block event batches and the parameter store.
//!
//! All quantities are exact integers. A frequency is held in millihertz.
//! The oscillator phase is the rational number `phase_num / den` in
//! `[0, 1)`, where `den` is `1000 * sample_rate`: advancing the phase by
//! `frequency / sample_rate` of a cycle per sample is adding the
//! millihertz frequency to the numerator, modulo `den`.
use vstd::prelude::*;

use vstd::arithmetic::div_mod::lemma_add_mod_noop_right;
use vstd::arithmetic::div_mod::lemma_mod_bound;

use crate::events::Event;
use crate::params::Params;

verus! {

/// Largest sample rate, in Hz, the engine accepts at activation; it keeps
/// the phase denominator `1000 * sample_rate` inside a machine word.
pub const MAX_SAMPLE_RATE: u32 = 1_000_000;

/// An upper bound on every frequency the note mapping can produce, in
/// millihertz.
pub const MAX_FREQ_MHZ: u32 = 16_000_000;

/// Frequency the voice starts with before any note arrives: 440 Hz, in
/// millihertz.
pub const DEFAULT_FREQ_MHZ: u32 = 440_000;

/// Highest key of the standard note space; higher key numbers are
/// ignored.
pub const MAX_MIDI_KEY: u8 = 127;

/// Frequency in microhertz of note `s` of the lowest octave of the key
/// space (keys 0 to 11), under the equal-tempered mapping
/// `f = 440 * 2^((key - 69) / 12)` Hz, rounded to the nearest microhertz.
/// Key 9 is exact: its frequency is 440 Hz divided by five octaves.
pub open spec fn spec_semitone_microhertz(s: int) -> int {
    if s == 0 {
        8_175_799
    } else if s == 1 {
        8_661_957
    } else if s == 2 {
        9_177_024
    } else if s == 3 {
        9_722_718
    } else if s == 4 {
        10_300_861
    } else if s == 5 {
        10_913_382
    } else if s == 6 {
        11_562_326
    } else if s == 7 {
        12_249_857
    } else if s == 8 {
        12_978_272
    } else if s == 9 {
        13_750_000
    } else if s == 10 {
        14_567_618
    } else {
        15_433_853
    }
}

/// `2^o`, the factor between octave `o` and the lowest one, for the
/// eleven octaves that the key space spans.
pub open spec fn spec_octave_scale(o: int) -> int {
    if o <= 0 {
        1
    } else if o == 1 {
        2
    } else if o == 2 {
        4
    } else if o == 3 {
        8
    } else if o == 4 {
        16
    } else if o == 5 {
        32
    } else if o == 6 {
        64
    } else if o == 7 {
        128
    } else if o == 8 {
        256
    } else if o == 9 {
        512
    } else {
        1024
    }
}

/// The equal-tempered frequency of a key, in millihertz, rounded to the
/// nearest: `440 * 2^((key - 69) / 12)` Hz, computed exactly from the
/// lowest-octave table by octave doubling. Key 69 maps to 440 Hz exactly.
pub open spec fn spec_midi_to_freq(key: int) -> int {
    (spec_semitone_microhertz(key % 12) * spec_octave_scale(key / 12) + 500) / 1000
}

/// Every key of the standard note space maps to a frequency between 1
/// millihertz and `MAX_FREQ_MHZ`.
pub proof fn lemma_midi_to_freq_bounds(key: int)
    requires
        0 <= key <= MAX_MIDI_KEY,
    ensures
        1 <= spec_midi_to_freq(key) <= MAX_FREQ_MHZ,
{
    let s = key % 12;
    let o = key / 12;
    assert(0 <= s < 12);
    assert(0 <= o <= 10);
    assert(8_175_799 <= spec_semitone_microhertz(s) <= 15_433_853);
    assert(1 <= spec_octave_scale(o) <= 1024);
    assert(spec_semitone_microhertz(s) * spec_octave_scale(o) <= 15_433_853 * 1024) by (nonlinear_arith)
        requires
            8_175_799 <= spec_semitone_microhertz(s) <= 15_433_853,
            1 <= spec_octave_scale(o) <= 1024,
    ;
    assert(spec_semitone_microhertz(s) * spec_octave_scale(o) >= 8_175_799) by (nonlinear_arith)
        requires
            8_175_799 <= spec_semitone_microhertz(s),
            1 <= spec_octave_scale(o),
    ;
}

/// Semitone table lookup; the spec function is the reference.
fn semitone_microhertz(s: u8) -> (r: u64)
    requires
        s < 12,
    ensures
        r as int == spec_semitone_microhertz(s as int),
{
    if s == 0 {
        8_175_799
    } else if s == 1 {
        8_661_957
    } else if s == 2 {
        9_177_024
    } else if s == 3 {
        9_722_718
    } else if s == 4 {
        10_300_861
    } else if s == 5 {
        10_913_382
    } else if s == 6 {
        11_562_326
    } else if s == 7 {
        12_249_857
    } else if s == 8 {
        12_978_272
    } else if s == 9 {
        13_750_000
    } else if s == 10 {
        14_567_618
    } else {
        15_433_853
    }
}

/// Octave factor lookup; the spec function is the reference.
fn octave_scale(o: u8) -> (r: u64)
    requires
        o <= 10,
    ensures
        r as int == spec_octave_scale(o as int),
{
    if o == 0 {
        1
    } else if o == 1 {
        2
    } else if o == 2 {
        4
    } else if o == 3 {
        8
    } else if o == 4 {
        16
    } else if o == 5 {
        32
    } else if o == 6 {
        64
    } else if o == 7 {
        128
    } else if o == 8 {
        256
    } else if o == 9 {
        512
    } else {
        1024
    }
}

/// Map a key of the standard 0..=127 note space to its equal-tempered
/// frequency in millihertz (A above middle C, key 69, is exactly
/// 440_000).
pub fn midi_to_freq(note: u8) -> (r: u32)
    requires
        note <= MAX_MIDI_KEY,
    ensures
        r as int == spec_midi_to_freq(note as int),
        1 <= r <= MAX_FREQ_MHZ,
{
    let s: u8 = note % 12;
    let o: u8 = note / 12;
    let micro: u64 = semitone_microhertz(s);
    let scale: u64 = octave_scale(o);
    proof {
        lemma_midi_to_freq_bounds(note as int);
        assert(micro * scale <= 15_433_853 * 1024) by (nonlinear_arith)
            requires
                micro <= 15_433_853,
                scale <= 1024,
        ;
    }
    let scaled: u64 = micro * scale;
    let r64: u64 = (scaled + 500) / 1000;
    r64 as u32
}

/// Whether a gain bit pattern is one of the two single-precision zeros:
/// with such a gain every sample of the scaled output is zero.
pub open spec fn gain_silent(bits: u32) -> bool {
    bits == 0 || bits == 0x8000_0000u32
}

/// Zero-gain test on a parameter value's bit pattern.
pub fn is_gain_silent(bits: u32) -> (r: bool)
    ensures
        r == gain_silent(bits),
{
    bits == 0 || bits == 0x8000_0000
}

/// Sample `i` (counting from 0) of the naive square wave that starts a
/// block at phase `phase0 / den` of a cycle and advances by `step / den`
/// of a cycle per sample: +1 while the phase, advanced before emitting,
/// lies in the first half of the cycle, -1 in the second half.
pub open spec fn square_sample(phase0: int, step: int, den: int, i: int) -> int
    recommends
        den > 0,
{
    if 2 * ((phase0 + (i + 1) * step) % den) < den {
        1
    } else {
        -1
    }
}

/// Sample `i` of a whole block, before scaling by the gain: silence when
/// no key is held; silence when the gain is zero (the scaled output would
/// be zero everywhere); otherwise the square wave.
pub open spec fn block_sample(
    note_on: bool,
    gain_bits: u32,
    phase0: int,
    step: int,
    den: int,
    i: int,
) -> int {
    if !note_on {
        0
    } else if gain_silent(gain_bits) {
        0
    } else {
        square_sample(phase0, step, den, i)
    }
}

/// The audio processor: the single voice's state machine, stepped once
/// per processing block on the real-time thread. `note_on` is the
/// `Sounding` state; a freshly activated processor is `Silent`.
#[derive(Clone, Copy, PartialEq, Eq, Structural, Debug)]
pub struct CaveAudioProcessor {
    /// Oscillator phase numerator: the phase is `phase_num` over
    /// `1000 * sample_rate`, a fraction of one cycle in `[0, 1)`.
    pub phase_num: u32,
    /// Current target frequency in millihertz; set by note-on events.
    pub freq_mhz: u32,
    /// Sample rate in Hz, fixed from activation to the next activation.
    pub sample_rate: u32,
    /// Whether a key is held: the `Sounding` state.
    pub note_on: bool,
}

impl CaveAudioProcessor {
    /// Denominator of the phase fraction.
    pub open spec fn den(self) -> int {
        1000 * self.sample_rate
    }

    /// The processor's invariant: the sample rate is one the engine
    /// accepts, the phase lies in `[0, 1)`, and the frequency is one the
    /// note mapping can produce.
    pub open spec fn wf(self) -> bool {
        &&& 1 <= self.sample_rate <= MAX_SAMPLE_RATE
        &&& (self.phase_num as int) < self.den()
        &&& 1 <= self.freq_mhz <= MAX_FREQ_MHZ
    }

    /// The voice and the store after one event, in the order the host
    /// delivered it:
    /// - a note-on with a specific key of the standard space retunes the
    ///   voice to that key and makes it sound (phase is kept);
    /// - a note-off with any specific key silences the voice, whatever
    ///   key started it (the voice is monophonic and tracks no key);
    /// - a parameter change goes to the store;
    /// - wildcard keys or ids and unknown event kinds are ignored.
    pub open spec fn spec_apply_event(self, p: Params, e: Event) -> (CaveAudioProcessor, Params) {
        match e {
            Event::NoteOn { key: Some(k) } => {
                if k <= MAX_MIDI_KEY {
                    (
                        CaveAudioProcessor {
                            freq_mhz: spec_midi_to_freq(k as int) as u32,
                            note_on: true,
                            ..self
                        },
                        p,
                    )
                } else {
                    (self, p)
                }
            },
            Event::NoteOff { key: Some(_) } => {
                ((CaveAudioProcessor { note_on: false, ..self }), p)
            },
            Event::ParamValue { param_id: _, value_bits: _ } => (self, p.spec_apply_event(e)),
            _ => (self, p),
        }
    }

    /// The voice and the store after a whole batch, applied in delivery
    /// order.
    pub open spec fn spec_apply_events(self, p: Params, events: Seq<Event>) -> (
        CaveAudioProcessor,
        Params,
    )
        decreases events.len(),
    {
        if events.len() == 0 {
            (self, p)
        } else {
            let (v2, p2) = self.spec_apply_event(p, events[0]);
            v2.spec_apply_events(p2, events.skip(1))
        }
    }

    /// A fresh processor for one activation: silent, phase at the cycle
    /// start, tuned to the default 440 Hz, bound to the host's sample
    /// rate.
    pub fn activate(sample_rate: u32) -> (r: CaveAudioProcessor)
        requires
            1 <= sample_rate <= MAX_SAMPLE_RATE,
        ensures
            r.wf(),
            r.phase_num == 0,
            r.freq_mhz == DEFAULT_FREQ_MHZ,
            r.sample_rate == sample_rate,
            !r.note_on,
    {
        CaveAudioProcessor {
            phase_num: 0,
            freq_mhz: DEFAULT_FREQ_MHZ,
            sample_rate,
            note_on: false,
        }
    }

    /// One processing block: drain the event batch in delivery order into
    /// the voice and the parameter store, read the gain once, then fill
    /// the caller's pre-sized mono buffer with one unscaled sample per
    /// frame. The buffer is written in place and never grows: the
    /// real-time path allocates nothing. The caller scales each sample by
    /// `gain * 0.1` and copies the block to every output channel.
    ///
    /// The block is deterministic: sample `i` is exactly
    /// `block_sample(..)` of the post-batch state, and the phase advances
    /// by one step per frame while sounding and stands still while
    /// silent. Malformed or unknown events are dropped; this path has no
    /// error case.
    pub fn process(&mut self, params: &mut Params, events: &Vec<Event>, out: &mut Vec<i8>)
        requires
            old(self).wf(),
        ensures
            final(self).wf(),
            (*final(self), *final(params)) == ({
                let (v2, p2) = old(self).spec_apply_events(*old(params), events@);
                (CaveAudioProcessor { phase_num: final(self).phase_num, ..v2 }, p2)
            }),
            final(self).sample_rate == old(self).sample_rate,
            final(out)@.len() == old(out)@.len(),
            !final(self).note_on ==> final(self).phase_num == old(self).phase_num,
            final(self).note_on ==> final(self).phase_num as int == (old(self).phase_num
                + final(out)@.len() * final(self).freq_mhz) % old(self).den(),
            forall|i: int|
                0 <= i < final(out)@.len() ==> (#[trigger] final(out)@[i]) as int == block_sample(
                    final(self).note_on,
                    final(params).gain,
                    old(self).phase_num as int,
                    final(self).freq_mhz as int,
                    old(self).den(),
                    i,
                ),
    {
        let ghost v0: CaveAudioProcessor = *self;
        let ghost p0: Params = *params;

        let n: usize = events.len();
        let mut i: usize = 0;
        while i < n
            invariant
                n == events@.len(),
                i <= n,
                v0.wf(),
                self.wf(),
                (*self, *params) == v0.spec_apply_events(p0, events@.take(i as int)),
                self.phase_num == v0.phase_num,
                self.sample_rate == v0.sample_rate,
            decreases n - i,
        {
            match events[i] {
                Event::NoteOn { key } => {
                    match key {
                        Some(k) => {
                            if k <= MAX_MIDI_KEY {
                                proof {
                                    lemma_midi_to_freq_bounds(k as int);
                                }
                                self.freq_mhz = midi_to_freq(k);
                                self.note_on = true;
                            }
                        },
                        None => {},
                    }
                },
                Event::NoteOff { key } => {
                    match key {
                        Some(_) => {
                            self.note_on = false;
                        },
                        None => {},
                    }
                },
                Event::ParamValue { param_id, value_bits } => {
                    params.handle_param_value_event(param_id, value_bits);
                },
                Event::Unsupported => {},
            }
            proof {
                assert(events@.take(i + 1) =~= events@.take(i as int).push(events@[i as int]));
                lemma_apply_events_snoc(v0, p0, events@.take(i as int), events@[i as int]);
            }
            i = i + 1;
        }
        proof {
            assert(events@.take(n as int) =~= events@);
        }

        let gain_bits: u32 = params.gain();
        let silent_gain: bool = is_gain_silent(gain_bits);
        let den: u32 = self.sample_rate * 1000;
        let step: u32 = self.freq_mhz;
        let frames: usize = out.len();
        let ghost phase0: int = self.phase_num as int;
        let ghost synth_state: CaveAudioProcessor = *self;

        let mut j: usize = 0;
        if self.note_on {
            while j < frames
                invariant
                    j <= frames,
                    out@.len() == frames,
                    synth_state.wf(),
                    *self == (CaveAudioProcessor { phase_num: self.phase_num, ..synth_state }),
                    den == synth_state.den(),
                    step == synth_state.freq_mhz,
                    silent_gain == gain_silent(gain_bits),
                    0 <= phase0 < den,
                    (self.phase_num as int) == if j == 0 {
                        phase0
                    } else {
                        (phase0 + j * step) % (den as int)
                    },
                    (self.phase_num as int) < den,
                    forall|q: int|
                        0 <= q < j ==> (#[trigger] out@[q]) as int == block_sample(
                            true,
                            gain_bits,
                            phase0,
                            step as int,
                            den as int,
                            q,
                        ),
                decreases frames - j,
            {
                let next: u32 = (self.phase_num + step) % den;
                proof {
                    lemma_mod_bound((self.phase_num + step) as int, den as int);
                    if j == 0 {
                        assert((phase0 + step) % (den as int) == (phase0 + 1 * step) % (
                        den as int));
                    } else {
                        lemma_add_mod_noop_right(step as int, phase0 + j * step, den as int);
                        assert(step + phase0 + j * step == phase0 + (j + 1) * step) by (nonlinear_arith);
                    }
                }
                self.phase_num = next;
                let sample: i8 = if silent_gain {
                    0
                } else if 2 * next < den {
                    1
                } else {
                    -1
                };
                out.set(j, sample);
                j = j + 1;
            }
            proof {
                if frames == 0 {
                    assert((phase0 + frames * step) % (den as int) == phase0 % (den as int));
                    vstd::arithmetic::div_mod::lemma_small_mod(phase0 as nat, den as nat);
                }
            }
        } else {
            while j < frames
                invariant
                    j <= frames,
                    out@.len() == frames,
                    forall|q: int| 0 <= q < j ==> (#[trigger] out@[q]) as int == 0,
                decreases frames - j,
            {
                out.set(j, 0);
                j = j + 1;
            }
        }
    }
}

/// Applying a batch and then one more event is applying the batch with
/// the event appended.
pub proof fn lemma_apply_events_snoc(
    v: CaveAudioProcessor,
    p: Params,
    events: Seq<Event>,
    e: Event,
)
    ensures
        v.spec_apply_events(p, events.push(e)) == ({
            let (v2, p2) = v.spec_apply_events(p, events);
            v2.spec_apply_event(p2, e)
        }),
    decreases events.len(),
{
    if events.len() == 0 {
        assert(events.push(e)[0] == e);
        assert(events.push(e).skip(1) =~= Seq::<Event>::empty());
        let (v2, p2) = v.spec_apply_event(p, e);
        assert(v.spec_apply_events(p, events.push(e)) == v2.spec_apply_events(
            p2,
            Seq::<Event>::empty(),
        ));
        assert(v2.spec_apply_events(p2, Seq::<Event>::empty()) == (v2, p2));
        assert(v.spec_apply_events(p, events) == (v, p));
    } else {
        assert(events.push(e)[0] == events[0]);
        assert(events.push(e).skip(1) =~= events.skip(1).push(e));
        let (v2, p2) = v.spec_apply_event(p, events[0]);
        lemma_apply_events_snoc(v2, p2, events.skip(1), e);
    }
}

/// Law: a note-off with any specific key leaves the voice silent,
/// whatever came before it in the batch; and a silent voice contributes a
/// zero sample at every frame, so every block rendered from then on (with
/// no new note-on) is all zeros.
pub proof fn lemma_note_off_silences(
    v: CaveAudioProcessor,
    p: Params,
    events: Seq<Event>,
    k: u8,
)
    requires
        events.len() > 0,
        events.last() == (Event::NoteOff { key: Some(k) }),
    ensures
        !v.spec_apply_events(p, events).0.note_on,
        forall|g: u32, phase0: int, step: int, den: int, i: int|
            #[trigger] block_sample(false, g, phase0, step, den, i) == 0,
{
    assert(events =~= events.drop_last().push(events.last()));
    lemma_apply_events_snoc(v, p, events.drop_last(), events.last());
}

/// Law: a note-on with a specific key of the standard space leaves the
/// voice sounding at that key's equal-tempered frequency, whatever came
/// before it in the batch; and while the gain is not zero, a sounding
/// voice contributes a nonzero sample (+1 or -1 before scaling) at every
/// frame, so the rendered block is not silent.
pub proof fn lemma_note_on_sounds(
    v: CaveAudioProcessor,
    p: Params,
    events: Seq<Event>,
    k: u8,
)
    requires
        k <= MAX_MIDI_KEY,
        events.len() > 0,
        events.last() == (Event::NoteOn { key: Some(k) }),
    ensures
        v.spec_apply_events(p, events).0.note_on,
        v.spec_apply_events(p, events).0.freq_mhz as int == spec_midi_to_freq(k as int),
        forall|g: u32, phase0: int, step: int, den: int, i: int|
            !gain_silent(g) ==> #[trigger] block_sample(true, g, phase0, step, den, i) != 0,
{
    assert(events =~= events.drop_last().push(events.last()));
    lemma_apply_events_snoc(v, p, events.drop_last(), events.last());
    lemma_midi_to_freq_bounds(k as int);
}

/// The sample index (counted in advanced phases, so sample `i` is index
/// `i + 1`) at which the square wave started at phase zero enters its
/// `j`-th half cycle: `j * den / (2 * step)` rounded up.
pub open spec fn half_cycle_start(j: int, step: int, den: int) -> int
    recommends
        1 <= step,
{
    (j * den + 2 * step - 1) / (2 * step)
}

/// A ceiling division `(a + b - 1) / b` lands in `[a, a + b)` after
/// multiplying back.
proof fn lemma_ceil_mul_bounds(a: int, b: int)
    requires
        0 <= a,
        0 < b,
    ensures
        a <= b * ((a + b - 1) / b) < a + b,
        (a + b - 1) / b >= 0,
{
    let c = (a + b - 1) / b;
    vstd::arithmetic::div_mod::lemma_fundamental_div_mod(a + b - 1, b);
    vstd::arithmetic::div_mod::lemma_mod_bound(a + b - 1, b);
    let r = (a + b - 1) % b;
    assert(b * c == a + b - 1 - r);
    assert(c >= 0) by (nonlinear_arith)
        requires
            b * c == a + b - 1 - r,
            r < b,
            a >= 0,
            b > 0,
    ;
}

/// Law: consecutive zero crossings of the square wave are half a period
/// apart, within one sample of rounding. The distance from the start of
/// half cycle `j` to the start of half cycle `j + 1` lies strictly
/// between `den / (2 * step) - 1` and `den / (2 * step) + 1` samples,
/// that is, within one sample of `sample_rate / (2 * frequency)`.
pub proof fn lemma_half_period_spacing(step: int, den: int, j: int)
    requires
        1 <= step,
        2 * step <= den,
        0 <= j,
    ensures
        ({
            let s2 = 2 * step;
            let c1 = half_cycle_start(j, step, den);
            let c2 = half_cycle_start(j + 1, step, den);
            den - s2 < s2 * (c2 - c1) < den + s2
        }),
{
    let s2 = 2 * step;
    let c1 = half_cycle_start(j, step, den);
    let c2 = half_cycle_start(j + 1, step, den);
    assert(j * den >= 0) by (nonlinear_arith)
        requires
            j >= 0,
            den > 0,
    ;
    lemma_ceil_mul_bounds(j * den, s2);
    lemma_ceil_mul_bounds((j + 1) * den, s2);
    assert((j + 1) * den == j * den + den) by (nonlinear_arith);
    assert(s2 * (c2 - c1) == s2 * c2 - s2 * c1) by (nonlinear_arith);
}

/// Law: within one half cycle the square wave's sign is constant: +1
/// through the even half cycles, -1 through the odd ones. Together with
/// the spacing law this pins the zero-crossing period of a block rendered
/// from phase zero to `sample_rate / frequency` within one sample of
/// rounding per crossing.
pub proof fn lemma_half_cycle_sign(step: int, den: int, j: int, i: int)
    requires
        1 <= step,
        2 * step <= den,
        0 <= j,
        half_cycle_start(j, step, den) <= i + 1 < half_cycle_start(j + 1, step, den),
    ensures
        square_sample(0, step, den, i) == if j % 2 == 0 {
            1int
        } else {
            -1int
        },
{
    let s2 = 2 * step;
    let m = i + 1;
    let c1 = half_cycle_start(j, step, den);
    let c2 = half_cycle_start(j + 1, step, den);
    assert(j * den >= 0) by (nonlinear_arith)
        requires
            j >= 0,
            den > 0,
    ;
    lemma_ceil_mul_bounds(j * den, s2);
    lemma_ceil_mul_bounds((j + 1) * den, s2);

    assert(m * s2 >= c1 * s2) by (nonlinear_arith)
        requires
            m >= c1,
            s2 > 0,
    ;
    assert(c1 * s2 == s2 * c1) by (nonlinear_arith);
    assert(m * s2 <= (c2 - 1) * s2) by (nonlinear_arith)
        requires
            m <= c2 - 1,
            s2 > 0,
    ;
    assert((c2 - 1) * s2 == s2 * c2 - s2) by (nonlinear_arith);
    assert((j + 1) * den == j * den + den) by (nonlinear_arith);
    assert(j * den <= m * s2 < (j + 1) * den);

    let p = m * step;
    vstd::arithmetic::div_mod::lemma_fundamental_div_mod(p, den);
    vstd::arithmetic::div_mod::lemma_mod_bound(p, den);
    let q = p / den;
    let r = p % den;
    assert(m * s2 == 2 * p) by (nonlinear_arith)
        requires
            s2 == 2 * step,
            p == m * step,
    ;
    assert(2 * p == 2 * den * q + 2 * r) by (nonlinear_arith)
        requires
            p == den * q + r,
    ;

    let t = j / 2;
    vstd::arithmetic::div_mod::lemma_fundamental_div_mod(j, 2);
    vstd::arithmetic::div_mod::lemma_mod_bound(j, 2);
    if j % 2 == 0 {
        assert(j == 2 * t);
        assert(2 * t * den <= 2 * den * q + 2 * r < (2 * t + 1) * den) by (nonlinear_arith)
            requires
                j == 2 * t,
                j * den <= 2 * den * q + 2 * r < (j + 1) * den,
        ;
        assert(q == t && 2 * r < den) by (nonlinear_arith)
            requires
                2 * t * den <= 2 * den * q + 2 * r < (2 * t + 1) * den,
                0 <= r < den,
                den > 0,
        ;
        assert((0 + m * step) % den == r);
        assert(square_sample(0, step, den, i) == 1);
    } else {
        assert(j == 2 * t + 1);
        assert((2 * t + 1) * den <= 2 * den * q + 2 * r < (2 * t + 2) * den) by (nonlinear_arith)
            requires
                j == 2 * t + 1,
                j * den <= 2 * den * q + 2 * r < (j + 1) * den,
        ;
        assert(q == t && 2 * r >= den) by (nonlinear_arith)
            requires
                (2 * t + 1) * den <= 2 * den * q + 2 * r < (2 * t + 2) * den,
                0 <= r < den,
                den > 0,
        ;
        assert((0 + m * step) % den == r);
        assert(square_sample(0, step, den, i) == -1);
    }
}

/// Law: a zero gain silences the whole block even while a note is
/// sounding; every sample of the block is zero.
pub proof fn lemma_zero_gain_silences(
    note_on: bool,
    gain_bits: u32,
    phase0: int,
    step: int,
    den: int,
    i: int,
)
    requires
        gain_silent(gain_bits),
    ensures
        block_sample(note_on, gain_bits, phase0, step, den, i) == 0,
{
}

} // verus!
