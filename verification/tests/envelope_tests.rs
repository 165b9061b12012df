use rsynth::envelope::Envelope;
use rsynth::key::Key;

const S: u64 = 1_000_000;

fn adsr(attack: u64, decay: u64, sustain: u64, release: u64) -> Envelope {
    Envelope::ADSR {
        attack_time: attack,
        decay_time: decay,
        sustain_amplitude: sustain,
        release_time: release,
    }
}

fn held(pressed: u64) -> Key {
    Key { active: true, time_pressed: pressed, time_released: 0 }
}

#[test]
fn adsr_reference_points() {
    // attack 0.1 s, decay 0.1 s, sustain 0.5: 0 at the press, 1.0 after the
    // attack, 0.5 after the decay, and held there while pressed.
    let env = adsr(100_000, 100_000, 500_000, 200_000);
    let key = held(1_000_000);
    assert_eq!(env.amplitude(&key, 1_000_000), 0);
    assert_eq!(env.amplitude(&key, 1_100_000), S);
    assert_eq!(env.amplitude(&key, 1_200_000), 500_000);
    assert_eq!(env.amplitude(&key, 2_000_000), 500_000);
    assert_eq!(env.amplitude(&key, 60_000_000), 500_000);
}

#[test]
fn adsr_mid_attack_and_mid_decay() {
    let env = adsr(100_000, 100_000, 500_000, 200_000);
    let key = held(1_000_000);
    // Halfway through the attack: 0.5; halfway through the decay: 0.75.
    assert_eq!(env.amplitude(&key, 1_050_000), 500_000);
    assert_eq!(env.amplitude(&key, 1_150_000), 750_000);
}

#[test]
fn adsr_press_at_clock_origin() {
    // A key pressed at the instant its release timestamp also names (the
    // clock origin) still ramps through attack and decay.
    let env = adsr(100_000, 100_000, 500_000, 200_000);
    let key = Key { active: true, time_pressed: 0, time_released: 0 };
    assert_eq!(env.amplitude(&key, 0), 0);
    assert_eq!(env.amplitude(&key, 100_000), S);
    assert_eq!(env.amplitude(&key, 200_000), 500_000);
}

#[test]
fn adsr_release_after_sustain_is_continuous() {
    // Released once sustain was reached: the tail starts at the release
    // instant, from the sustain level.
    let env = adsr(100_000, 100_000, 500_000, 200_000);
    let key = Key { active: true, time_pressed: 1_000_000, time_released: 2_000_000 };
    assert_eq!(env.amplitude(&key, 2_000_000), 500_000);
    assert_eq!(env.amplitude(&key, 2_100_000), 250_000);
    assert_eq!(env.amplitude(&key, 2_200_000), 0);
    assert_eq!(env.amplitude(&key, 9_000_000), 0);
}

#[test]
fn adsr_release_before_attack_decay_defers_tail() {
    // Released mid-attack at 1.05 s: the release clock starts at
    // 1.2 s = press + attack + decay, not at 1.05 s.
    let env = adsr(100_000, 100_000, 500_000, 200_000);
    let key = Key { active: true, time_pressed: 1_000_000, time_released: 1_050_000 };
    // Still on the attack/decay slope until 1.2 s.
    assert_eq!(env.amplitude(&key, 1_100_000), S);
    assert_eq!(env.amplitude(&key, 1_200_000), 500_000);
    // 0.1 s into the deferred tail: 0.5 * (1 - 0.1/0.2) = 0.25. Had the
    // tail started at the release instant the value would already be 0.5 *
    // (1 - 0.25/0.2) = 0.
    assert_eq!(env.amplitude(&key, 1_300_000), 250_000);
    assert_eq!(env.amplitude(&key, 1_400_000), 0);
}

#[test]
fn adsr_zero_duration_phases_are_skipped() {
    // Zero-length attack and decay land directly on the sustain level;
    // a zero-length release is silent at once.
    let env = adsr(0, 0, 700_000, 0);
    let pressed = Key { active: true, time_pressed: 10, time_released: 5 };
    assert_eq!(env.amplitude(&pressed, 10), 700_000);
    assert_eq!(env.amplitude(&pressed, 1_000), 700_000);
    let released = Key { active: true, time_pressed: 10, time_released: 20 };
    assert_eq!(env.amplitude(&released, 20), 0);
    assert_eq!(env.amplitude(&released, 1_000), 0);
}

#[test]
fn adsr_sustain_above_unity_is_kept() {
    // Sustain is stored unclamped: 2.0 makes the decay slope rise.
    let env = adsr(100_000, 100_000, 2_000_000, 200_000);
    let key = held(0);
    assert_eq!(env.amplitude(&key, 100_000), S);
    assert_eq!(env.amplitude(&key, 150_000), 1_500_000);
    assert_eq!(env.amplitude(&key, 200_000), 2_000_000);
}

#[test]
fn ad_reference_points() {
    // AD: 0 at the press, 1.0 after the attack, 0 at attack+decay and for
    // every later time, whatever the release state says.
    let env = Envelope::AD { attack_time: 100_000, decay_time: 100_000 };
    let key = held(1_000_000);
    assert_eq!(env.amplitude(&key, 1_000_000), 0);
    assert_eq!(env.amplitude(&key, 1_100_000), S);
    assert_eq!(env.amplitude(&key, 1_150_000), 500_000);
    assert_eq!(env.amplitude(&key, 1_200_000), 0);
    assert_eq!(env.amplitude(&key, 90_000_000), 0);
}

#[test]
fn ad_ignores_release_state() {
    let env = Envelope::AD { attack_time: 100_000, decay_time: 100_000 };
    let held_key = Key { active: true, time_pressed: 1_000_000, time_released: 0 };
    let released_key = Key { active: true, time_pressed: 1_000_000, time_released: 1_050_000 };
    for t in [1_000_000u64, 1_050_000, 1_100_000, 1_170_000, 1_200_000, 2_000_000] {
        assert_eq!(env.amplitude(&held_key, t), env.amplitude(&released_key, t));
    }
}
