use rsynth::envelope::Envelope;
use rsynth::instrument::Instrument;
use rsynth::midi::ChannelMessageKind;
use rsynth::midi::Message;
use rsynth::midi::Midi;
use rsynth::osc::OscillatorNode;
use rsynth::osc::Square;
use rsynth::renderer::Renderer;

const S: u64 = 1_000_000;

fn note_on(note: u8) -> Midi {
    Midi {
        message: Message::ChannelMessage {
            channel: 0,
            kind: ChannelMessageKind::NoteOn { key_number: note, velocity: 100 },
        },
        channel: 0,
    }
}

fn note_off(note: u8) -> Midi {
    Midi {
        message: Message::ChannelMessage {
            channel: 0,
            kind: ChannelMessageKind::NoteOff { key_number: note, velocity: 0 },
        },
        channel: 0,
    }
}

fn adsr(attack: u64, decay: u64, sustain: u64, release: u64) -> Envelope {
    Envelope::ADSR {
        attack_time: attack,
        decay_time: decay,
        sustain_amplitude: sustain,
        release_time: release,
    }
}

#[test]
fn renderer_starts_idle_at_time_zero() {
    let r = Renderer::new();
    assert_eq!(r.time, 0);
    assert_eq!(r.table.keys.len(), 256);
    assert!(r.table.keys.iter().all(|k| !k.active));
}

#[test]
fn note_on_presses_and_note_off_releases() {
    let mut r = Renderer::new();
    r.advance(5_000);
    r.apply_events(&vec![note_on(60)]);
    assert!(r.table.keys[60].active);
    assert_eq!(r.table.keys[60].time_pressed, 5_000);
    assert!(r.table.keys[60].is_pressed());
    r.advance(5_000);
    r.apply_events(&vec![note_off(60)]);
    // The key keeps sounding through its release tail.
    assert!(r.table.keys[60].active);
    assert_eq!(r.table.keys[60].time_released, 10_000);
    assert!(!r.table.keys[60].is_pressed());
}

#[test]
fn other_messages_change_nothing() {
    let mut r = Renderer::new();
    let pitch_bend = Midi {
        message: Message::ChannelMessage {
            channel: 2,
            kind: ChannelMessageKind::PitchBend,
        },
        channel: 2,
    };
    r.apply_events(&vec![pitch_bend]);
    assert!(r.table.keys.iter().all(|k| !k.active && k.time_pressed == 0));
}

#[test]
fn repress_retriggers_a_releasing_key() {
    let mut r = Renderer::new();
    r.advance(1_000);
    r.apply_events(&vec![note_on(60)]);
    r.advance(1_000);
    r.apply_events(&vec![note_off(60)]);
    assert!(!r.table.keys[60].is_pressed());
    r.advance(1_000);
    r.apply_events(&vec![note_on(60)]);
    // The fresh press outdates the release: the key is pressed again.
    assert!(r.table.keys[60].is_pressed());
    assert_eq!(r.table.keys[60].time_pressed, 3_000);
}

#[test]
fn sweep_drops_fully_decayed_keys_only() {
    let env = adsr(0, 0, 500_000, 100_000);
    let mut r = Renderer::new();
    r.advance(1_000);
    r.apply_events(&vec![note_on(10), note_on(20)]);
    r.advance(1_000);
    r.apply_events(&vec![note_off(10), note_off(20)]);
    // 99.999 ms into the 100 ms release tail: key 10's amplitude is still
    // 5 micro-units, above the epsilon of 1.
    r.advance(99_999);
    r.sweep(&env);
    assert!(r.table.keys[10].active);
    // One more microsecond: the tail has fully decayed; the sweep drops
    // both keys and leaves their timestamps alone.
    r.advance(1);
    r.sweep(&env);
    assert!(!r.table.keys[10].active);
    assert!(!r.table.keys[20].active);
    assert_eq!(r.table.keys[10].time_released, 2_000);
}

#[test]
fn sweep_keeps_held_keys() {
    let env = adsr(0, 0, 0, 0);
    let mut r = Renderer::new();
    r.advance(1_000);
    r.apply_events(&vec![note_on(30)]);
    r.advance(600_000);
    // Sustain 0 makes the held key inaudible, but a pressed key is never
    // swept: only released keys leave the rendering set.
    r.sweep(&env);
    assert!(r.table.keys[30].active);
}

#[test]
fn clock_wrap_resets_all_keys() {
    let mut r = Renderer::new();
    r.advance(1_000);
    r.apply_events(&vec![note_on(40)]);
    r.time = u64::MAX - 10;
    r.advance(100);
    assert_eq!(r.time, 0);
    assert!(r.table.keys.iter().all(|k| !k.active && k.time_pressed == 0));
}

#[test]
fn samples_render_from_the_renderer_clock() {
    let inst = Instrument {
        volume: S as i64,
        envelope: adsr(0, 0, S, 100_000),
        oscillator: OscillatorNode::Square(Square),
    };
    let banks: Vec<Vec<i64>> = (0..256).map(|_| Vec::new()).collect();
    let mut r = Renderer::new();
    r.advance(1_000_000);
    r.apply_events(&vec![note_on(57)]);
    r.advance(1_000_000);
    // Offset 1 us into the buffer: t = 2000001 us, where key 57's square
    // wave is +1 and the envelope sits at sustain 1.0.
    assert_eq!(r.sample(&inst, 1, &banks), S as i64);
}

#[test]
fn buffer_events_apply_before_first_sample_in_order() {
    let mut r = Renderer::new();
    r.advance(2_000);
    // On and off of the same note in one batch: both take effect at the
    // buffer boundary, in arrival order.
    r.apply_events(&vec![note_on(50), note_off(50)]);
    assert!(r.table.keys[50].active);
    assert_eq!(r.table.keys[50].time_pressed, 2_000);
    assert_eq!(r.table.keys[50].time_released, 2_000);
    assert!(!r.table.keys[50].is_pressed());
}
