use rsynth::envelope::Envelope;
use rsynth::hz::Hertz;
use rsynth::instrument::frequency_of;
use rsynth::instrument::Instrument;
use rsynth::key::KeyTable;
use rsynth::osc::OscillatorNode;
use rsynth::osc::Sine;
use rsynth::osc::Square;

const S: u64 = 1_000_000;
const KEY_COUNT: usize = 256;

fn adsr_default() -> Envelope {
    Envelope::ADSR {
        attack_time: 100_000,
        decay_time: 100_000,
        sustain_amplitude: 500_000,
        release_time: 200_000,
    }
}

#[test]
fn frequency_anchor_is_exactly_a4() {
    assert_eq!(frequency_of(57), 440_000_000);
}

#[test]
fn frequency_octaves_land_within_tolerance() {
    // One octave up and down from the anchor: 880 Hz and 220 Hz to within
    // a few micro-hertz (each semitone step rounds down).
    let up = frequency_of(69);
    assert!(up >= 879_999_000 && up <= 880_001_000);
    assert_eq!(up, 879_999_992);
    let down = frequency_of(45);
    assert!(down >= 219_999_000 && down <= 220_001_000);
    assert_eq!(down, 219_999_995);
}

#[test]
fn frequency_covers_the_full_note_range() {
    // The lowest and highest slots, beyond the standard 0..=127 range,
    // still map: ~16.35 Hz at the bottom, ~40.78 MHz at the top.
    assert_eq!(frequency_of(0), 16_351_589);
    assert_eq!(frequency_of(255), 40_780_035_555_619);
}

#[test]
fn highest_key_renders() {
    let inst = Instrument {
        volume: S as i64,
        envelope: Envelope::ADSR {
            attack_time: 0,
            decay_time: 0,
            sustain_amplitude: S,
            release_time: 100_000,
        },
        oscillator: OscillatorNode::Square(Square),
    };
    let mut keys = KeyTable::new();
    keys.press(255, 1_000_000);
    let v = inst.value(&keys, 2_000_001, &empty_banks(0));
    assert!(v == 0 || v == S as i64 || v == -(S as i64));
}

#[test]
fn frequency_is_monotone_over_the_note_range() {
    let mut prev = frequency_of(0);
    for i in 1..=255u8 {
        let f = frequency_of(i);
        assert!(f > prev);
        prev = f;
    }
}

#[test]
fn angular_velocity_scales_by_two_pi() {
    assert_eq!(Hertz(S).angular_velocity(), 6_283_185);
    assert_eq!(Hertz(440_000_000).angular_velocity(), 2_764_601_400);
}

fn empty_banks(len: usize) -> Vec<Vec<i64>> {
    (0..KEY_COUNT).map(|_| vec![0i64; len]).collect()
}

#[test]
fn end_to_end_sine_mid_attack() {
    // Volume 1, ADSR(0.1, 0.1, 0.5, 0.2), sine wave; key 57 (440 Hz)
    // pressed at t=0 and held. At t=0.05 the envelope is mid-attack (0.5)
    // and sin(2*pi*440*0.05) = sin(44*pi) = 0, so the sample is
    // 0.5 * 0 = 0.
    let inst = Instrument {
        volume: S as i64,
        envelope: adsr_default(),
        oscillator: OscillatorNode::Sine(Sine),
    };
    let mut keys = KeyTable::new();
    keys.press(57, 0);
    let t: u64 = 50_000;
    assert_eq!(inst.envelope.amplitude(&keys.keys[57], t), 500_000);
    assert_eq!(frequency_of(57), 440_000_000);
    let sine_sample = ((2.0 * std::f64::consts::PI * 440.0 * 0.05).sin() * 1e6).round() as i64;
    assert_eq!(sine_sample, 0);
    let mut banks = empty_banks(1);
    banks[57] = vec![sine_sample];
    let v = inst.value(&keys, t, &banks);
    assert_eq!(v, 0);
}

#[test]
fn mixer_weights_amplitude_oscillator_and_volume() {
    // Volume 0.5, square wave, key 57 held past the decay (sustain 0.5):
    // at a time where the square is +1 the sample is 0.5 * 1 * 0.5 = 0.25.
    let inst = Instrument {
        volume: 500_000,
        envelope: adsr_default(),
        oscillator: OscillatorNode::Square(Square),
    };
    let mut keys = KeyTable::new();
    keys.press(57, 1_000_000);
    let t: u64 = 2_000_001;
    // 440e6 * 2000001 leaves phase 440000 micro-cycles: first half, +1.
    assert_eq!(inst.value(&keys, t, &empty_banks(0)), 250_000);
}

#[test]
fn mixer_sums_two_active_keys() {
    // Two held keys, both past attack+decay with sustain 1.0, square at
    // +1 for one key and 0 for the other at the chosen instant.
    let inst = Instrument {
        volume: S as i64,
        envelope: Envelope::ADSR {
            attack_time: 0,
            decay_time: 0,
            sustain_amplitude: S,
            release_time: 100_000,
        },
        oscillator: OscillatorNode::Square(Square),
    };
    let mut keys = KeyTable::new();
    keys.press(57, 1_000_000);
    keys.press(69, 1_000_000);
    // At t=2000569 us: key 57's square is +1 (phase 250360 micro-cycles);
    // key 69's frequency 879999992 gives phase 500703: second half, -1.
    // Sum: 1 - 1 = 0.
    assert_eq!(inst.value(&keys, 2_000_569, &empty_banks(0)), 0);
    // With only key 57 active the sample is +1 * volume = 1.0.
    let mut solo = KeyTable::new();
    solo.press(57, 1_000_000);
    assert_eq!(inst.value(&solo, 2_000_001, &empty_banks(0)), S as i64);
}

#[test]
fn inactive_keys_contribute_nothing() {
    let inst = Instrument {
        volume: S as i64,
        envelope: adsr_default(),
        oscillator: OscillatorNode::Square(Square),
    };
    let keys = KeyTable::new();
    assert_eq!(inst.value(&keys, 2_000_001, &empty_banks(0)), 0);
}

#[test]
fn reload_with_candidate_replaces_instrument() {
    let old = Instrument {
        volume: S as i64,
        envelope: adsr_default(),
        oscillator: OscillatorNode::Square(Square),
    };
    let new = Instrument {
        volume: 250_000,
        envelope: Envelope::AD { attack_time: 1, decay_time: 2 },
        oscillator: OscillatorNode::Sine(Sine),
    };
    let r = old.reloaded(Some(new));
    assert_eq!(r.volume, 250_000);
    assert!(matches!(r.oscillator, OscillatorNode::Sine(_)));
}

#[test]
fn failed_reload_keeps_previous_instrument_and_output() {
    // A reload whose candidate did not parse keeps the previous
    // instrument, and rendering afterwards is identical to before.
    let inst = Instrument {
        volume: 500_000,
        envelope: adsr_default(),
        oscillator: OscillatorNode::Square(Square),
    };
    let mut keys = KeyTable::new();
    keys.press(57, 1_000_000);
    let times: Vec<u64> = (0..32u64).map(|o| 2_000_001 + o * 23).collect();
    let before: Vec<i64> =
        times.iter().map(|&t| inst.value(&keys, t, &empty_banks(0))).collect();
    let inst = inst.reloaded(None);
    assert_eq!(inst.volume, 500_000);
    let after: Vec<i64> =
        times.iter().map(|&t| inst.value(&keys, t, &empty_banks(0))).collect();
    assert_eq!(before, after);
}
