use cave::engine::{midi_to_freq, CaveAudioProcessor, DEFAULT_FREQ_MHZ};
use cave::events::Event;
use cave::params::{Params, PARAM_GAIN_ID};

fn render(
    proc_: &mut CaveAudioProcessor,
    params: &mut Params,
    events: Vec<Event>,
    frames: usize,
) -> Vec<i8> {
    let mut out: Vec<i8> = vec![0; frames];
    proc_.process(params, &events, &mut out);
    out
}

#[test]
fn equal_tempered_mapping_exact_values() {
    assert_eq!(midi_to_freq(69), 440_000); // A4, exactly 440 Hz
    assert_eq!(midi_to_freq(81), 880_000); // one octave up, exact doubling
    assert_eq!(midi_to_freq(57), 220_000); // one octave down, exact halving
    assert_eq!(midi_to_freq(60), 261_626); // middle C, 261.626 Hz
    assert_eq!(midi_to_freq(0), 8_176); // lowest key, 8.176 Hz
    assert_eq!(midi_to_freq(127), 12_543_854); // highest key, 12543.854 Hz
}

#[test]
fn activation_starts_silent_at_default_frequency() {
    let p = CaveAudioProcessor::activate(48_000);
    assert!(!p.note_on);
    assert_eq!(p.phase_num, 0);
    assert_eq!(p.freq_mhz, DEFAULT_FREQ_MHZ);
    let mut params = Params::new();
    let mut proc_ = p;
    let out = render(&mut proc_, &mut params, vec![], 64);
    assert!(out.iter().all(|&s| s == 0));
}

#[test]
fn a440_block_alternates_with_half_period_near_54_5() {
    // Activate at 48000 Hz, block of 64; note-on A4 at block start. The
    // half period is 48000 / 440 / 2 = 54.54 samples: the first 54
    // samples sit in the first half cycle, the rest of the block in the
    // second.
    let mut proc_ = CaveAudioProcessor::activate(48_000);
    let mut params = Params::new();
    let out = render(&mut proc_, &mut params, vec![Event::NoteOn { key: Some(69) }], 64);
    for i in 0..54 {
        assert_eq!(out[i], 1, "sample {} should be positive", i);
    }
    for i in 54..64 {
        assert_eq!(out[i], -1, "sample {} should be negative", i);
    }
}

#[test]
fn a440_zero_crossing_period_within_one_sample() {
    // Over a longer stretch, the square wave's full period (one positive
    // and one negative run) must be 48000 / 440 = 109.09 samples within
    // one sample of rounding.
    let mut proc_ = CaveAudioProcessor::activate(48_000);
    let mut params = Params::new();
    let out = render(&mut proc_, &mut params, vec![Event::NoteOn { key: Some(69) }], 512);
    let mut flips: Vec<usize> = Vec::new();
    for i in 1..out.len() {
        if out[i] != out[i - 1] {
            flips.push(i);
        }
    }
    assert!(flips.len() >= 4);
    for w in flips.windows(2).collect::<Vec<_>>().chunks(2) {
        // two half-periods make one period
        if w.len() == 2 {
            let period = (w[0][1] - w[0][0]) + (w[1][1] - w[1][0]);
            assert!(
                period == 109 || period == 110,
                "period {} out of range",
                period
            );
        }
    }
}

#[test]
fn note_off_silences_from_next_block_on() {
    let mut proc_ = CaveAudioProcessor::activate(48_000);
    let mut params = Params::new();
    let first = render(&mut proc_, &mut params, vec![Event::NoteOn { key: Some(69) }], 64);
    assert!(first.iter().any(|&s| s != 0));
    // a note-off for a different key still silences the single voice
    let second = render(&mut proc_, &mut params, vec![Event::NoteOff { key: Some(35) }], 64);
    assert!(second.iter().all(|&s| s == 0));
    let third = render(&mut proc_, &mut params, vec![], 64);
    assert!(third.iter().all(|&s| s == 0));
}

#[test]
fn zero_gain_event_silences_sounding_block() {
    let mut proc_ = CaveAudioProcessor::activate(48_000);
    let mut params = Params::new();
    let first = render(&mut proc_, &mut params, vec![Event::NoteOn { key: Some(69) }], 64);
    assert!(first.iter().any(|&s| s != 0));
    let muted = render(
        &mut proc_,
        &mut params,
        vec![Event::ParamValue { param_id: Some(PARAM_GAIN_ID), value_bits: 0.0f32.to_bits() }],
        64,
    );
    assert!(muted.iter().all(|&s| s == 0));
    assert!(proc_.note_on, "the voice keeps sounding; only the gain mutes it");
    // raising the gain again brings the tone back without a new note-on
    let raised = render(
        &mut proc_,
        &mut params,
        vec![Event::ParamValue { param_id: Some(PARAM_GAIN_ID), value_bits: 0.5f32.to_bits() }],
        64,
    );
    assert!(raised.iter().any(|&s| s != 0));
}

#[test]
fn wildcard_and_out_of_range_keys_are_ignored() {
    let mut proc_ = CaveAudioProcessor::activate(48_000);
    let mut params = Params::new();
    let wild = render(&mut proc_, &mut params, vec![Event::NoteOn { key: None }], 64);
    assert!(wild.iter().all(|&s| s == 0));
    let high = render(&mut proc_, &mut params, vec![Event::NoteOn { key: Some(200) }], 64);
    assert!(high.iter().all(|&s| s == 0));
    assert!(!proc_.note_on);
}

#[test]
fn unsupported_events_are_dropped_silently() {
    let mut proc_ = CaveAudioProcessor::activate(48_000);
    let mut params = Params::new();
    let out = render(&mut proc_, &mut params, vec![Event::Unsupported], 64);
    assert!(out.iter().all(|&s| s == 0));
    assert_eq!(params.gain(), 0.5f32.to_bits());
}

#[test]
fn phase_is_continuous_across_blocks() {
    // Rendering 128 frames in one block equals rendering two blocks of 64.
    let mut one = CaveAudioProcessor::activate(44_100);
    let mut params_one = Params::new();
    let whole = render(&mut one, &mut params_one, vec![Event::NoteOn { key: Some(72) }], 128);

    let mut two = CaveAudioProcessor::activate(44_100);
    let mut params_two = Params::new();
    let first = render(&mut two, &mut params_two, vec![Event::NoteOn { key: Some(72) }], 64);
    let second = render(&mut two, &mut params_two, vec![], 64);

    assert_eq!(&whole[..64], &first[..]);
    assert_eq!(&whole[64..], &second[..]);
    assert_eq!(one.phase_num, two.phase_num);
}

#[test]
fn buffer_length_is_preserved() {
    let mut proc_ = CaveAudioProcessor::activate(48_000);
    let mut params = Params::new();
    for frames in [0usize, 1, 7, 64, 1024] {
        let out = render(&mut proc_, &mut params, vec![Event::NoteOn { key: Some(69) }], frames);
        assert_eq!(out.len(), frames);
    }
}

#[test]
fn note_on_retunes_without_resetting_phase() {
    let mut proc_ = CaveAudioProcessor::activate(48_000);
    let mut params = Params::new();
    render(&mut proc_, &mut params, vec![Event::NoteOn { key: Some(69) }], 10);
    let phase_before = proc_.phase_num;
    render(&mut proc_, &mut params, vec![Event::NoteOn { key: Some(57) }], 0);
    assert_eq!(proc_.freq_mhz, 220_000);
    assert_eq!(proc_.phase_num, phase_before);
}
