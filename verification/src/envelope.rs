//! Amplitude envelopes: the pure state machine that maps a key's press and
//! release timestamps, together with the current time, to an amplitude
//! multiplier in fixed-point micro-units (`SCALE` stands for 1.0).
//!
//! The phase a key is in is never stored; it is derived from elapsed-time
//! comparisons, exactly as the rendering thread re-derives it each sample.

use vstd::prelude::*;

use crate::key::Key;
use crate::lemma_frac_le;
use crate::lemma_frac_lt;
use crate::mul_div;
use crate::SCALE;

verus! {

/// A released key whose amplitude falls below this (one millionth) is fully
/// decayed and can be dropped from rendering.
pub const EPSILON: u64 = 1;

/// An amplitude envelope. Durations are in microseconds; the sustain level
/// is in micro-units and is stored unclamped (values above `SCALE` are kept
/// as given).
#[derive(Clone, Copy, Debug, PartialEq, Eq, Structural)]
pub enum Envelope {
    ADSR {
        attack_time: u64,
        decay_time: u64,
        sustain_amplitude: u64,
        release_time: u64,
    },
    AD {
        attack_time: u64,
        decay_time: u64,
    },
}

/// Value of the attack ramp: the fraction of the attack that has elapsed,
/// scaled to micro-units.
pub open spec fn ramp(pressed_for: int, attack: int) -> int {
    pressed_for * SCALE / attack
}

/// Value of the decay slope: starts at `SCALE` and moves toward the sustain
/// level as `off` runs from 0 to `decay`.
pub open spec fn decay_toward(sustain: int, off: int, decay: int) -> int {
    if sustain <= SCALE {
        SCALE - (SCALE - sustain) * off / decay
    } else {
        SCALE + (sustain - SCALE) * off / decay
    }
}

/// Value of the release tail `released_for` after its start: a linear drop
/// from the sustain level to 0 over `release`, and 0 from then on. A
/// non-positive duration counts as instantly complete.
pub open spec fn release_tail(sustain: int, released_for: int, release: int) -> int {
    if released_for < release {
        sustain - sustain * released_for / release
    } else {
        0
    }
}

/// The ADSR curve at `time`, for a key that was pressed at
/// `key.time_pressed` and released at `key.time_released`.
///
/// A key that was released before attack+decay completed keeps following
/// the attack/decay slope to its end, and its release clock starts at the
/// moment attack+decay would have completed rather than at the actual
/// release instant; this removes the amplitude jump a mid-attack release
/// would otherwise cause.
pub open spec fn adsr_amplitude(
    attack: int,
    decay: int,
    sustain: int,
    release: int,
    key: Key,
    time: int,
) -> int {
    let pressed_for = time - key.time_pressed;
    let released_early = key.time_released < key.time_pressed || key.time_released
        - key.time_pressed < attack + decay;
    let during_ad = pressed_for <= attack + decay;
    if key.spec_is_pressed() || (released_early && during_ad) {
        if pressed_for < attack {
            ramp(pressed_for, attack)
        } else if pressed_for < attack + decay {
            decay_toward(sustain, pressed_for - attack, decay)
        } else {
            sustain
        }
    } else {
        let released_for = if released_early {
            time - (key.time_pressed + attack + decay)
        } else {
            time - key.time_released
        };
        release_tail(sustain, released_for, release)
    }
}

/// The AD curve at `time`: attack ramp, then a decay back to silence, then
/// 0 forever. The release timestamp plays no part.
pub open spec fn ad_amplitude(attack: int, decay: int, key: Key, time: int) -> int {
    let pressed_for = time - key.time_pressed;
    if pressed_for < attack {
        ramp(pressed_for, attack)
    } else if pressed_for < attack + decay {
        SCALE - SCALE * (pressed_for - attack) / decay
    } else {
        0
    }
}

impl Envelope {
    /// The envelope's amplitude at `time` for the given key.
    pub open spec fn spec_amplitude(&self, key: Key, time: int) -> int {
        match *self {
            Envelope::ADSR { attack_time, decay_time, sustain_amplitude, release_time } => {
                adsr_amplitude(
                    attack_time as int,
                    decay_time as int,
                    sustain_amplitude as int,
                    release_time as int,
                    key,
                    time,
                )
            },
            Envelope::AD { attack_time, decay_time } => {
                ad_amplitude(attack_time as int, decay_time as int, key, time)
            },
        }
    }

    /// Amplitude multiplier of `key` at `time`, in micro-units.
    ///
    /// Every phase boundary lands exactly on the neighbouring phase's
    /// value, and a phase of zero duration is skipped outright, so no
    /// division by zero can occur.
    pub fn amplitude(&self, key: &Key, time: u64) -> (r: u64)
        requires
            key.current_at(time as int),
        ensures
            r == self.spec_amplitude(*key, time as int),
    {
        match *self {
            Envelope::ADSR { attack_time, decay_time, sustain_amplitude, release_time } => {
                let pressed_for = time - key.time_pressed;
                let released_early = key.time_released < key.time_pressed || (key.time_released
                    - key.time_pressed) < attack_time || (key.time_released - key.time_pressed)
                    - attack_time < decay_time;
                let during_ad = pressed_for <= attack_time || pressed_for - attack_time
                    <= decay_time;
                if key.is_pressed() || (released_early && during_ad) {
                    if pressed_for < attack_time {
                        proof {
                            lemma_frac_lt(SCALE as int, pressed_for as int, attack_time as int);
                        }
                        mul_div(pressed_for, SCALE, attack_time)
                    } else if pressed_for - attack_time < decay_time {
                        let off = pressed_for - attack_time;
                        if sustain_amplitude <= SCALE {
                            proof {
                                lemma_frac_le(
                                    (SCALE - sustain_amplitude) as int,
                                    off as int,
                                    decay_time as int,
                                );
                            }
                            SCALE - mul_div(SCALE - sustain_amplitude, off, decay_time)
                        } else {
                            proof {
                                lemma_frac_le(
                                    (sustain_amplitude - SCALE) as int,
                                    off as int,
                                    decay_time as int,
                                );
                            }
                            SCALE + mul_div(sustain_amplitude - SCALE, off, decay_time)
                        }
                    } else {
                        sustain_amplitude
                    }
                } else {
                    let released_for = if released_early {
                        (pressed_for - attack_time) - decay_time
                    } else {
                        time - key.time_released
                    };
                    if released_for < release_time {
                        proof {
                            lemma_frac_le(
                                sustain_amplitude as int,
                                released_for as int,
                                release_time as int,
                            );
                        }
                        sustain_amplitude - mul_div(sustain_amplitude, released_for, release_time)
                    } else {
                        0
                    }
                }
            },
            Envelope::AD { attack_time, decay_time } => {
                let pressed_for = time - key.time_pressed;
                if pressed_for < attack_time {
                    proof {
                        lemma_frac_lt(SCALE as int, pressed_for as int, attack_time as int);
                    }
                    mul_div(pressed_for, SCALE, attack_time)
                } else if pressed_for - attack_time < decay_time {
                    proof {
                        lemma_frac_le(
                            SCALE as int,
                            (pressed_for - attack_time) as int,
                            decay_time as int,
                        );
                    }
                    SCALE - mul_div(SCALE, pressed_for - attack_time, decay_time)
                } else {
                    0
                }
            },
        }
    }
}

/// Law: with a sustain level within [0, 1], the ADSR amplitude stays
/// within [0, 1] at every current time, pressed or released.
pub proof fn lemma_adsr_amplitude_in_range(
    attack: u64,
    decay: u64,
    sustain: u64,
    release: u64,
    key: Key,
    time: int,
)
    requires
        sustain <= SCALE,
        key.current_at(time),
    ensures
        0 <= (Envelope::ADSR {
            attack_time: attack,
            decay_time: decay,
            sustain_amplitude: sustain,
            release_time: release,
        }).spec_amplitude(key, time) <= SCALE,
{
    let pressed_for = time - key.time_pressed;
    let released_early = key.time_released < key.time_pressed || key.time_released
        - key.time_pressed < attack + decay;
    let during_ad = pressed_for <= attack + decay;
    if key.spec_is_pressed() || (released_early && during_ad) {
        if pressed_for < attack {
            crate::lemma_frac_lt(SCALE as int, pressed_for, attack as int);
        } else if pressed_for < attack + decay {
            crate::lemma_frac_le(SCALE - sustain, pressed_for - attack, decay as int);
        }
    } else {
        let released_for = if released_early {
            time - (key.time_pressed + attack + decay)
        } else {
            time - key.time_released
        };
        if released_for < release {
            crate::lemma_frac_le(sustain as int, released_for, release as int);
        }
    }
}

/// Law: the AD amplitude stays within [0, 1] at every current time.
pub proof fn lemma_ad_amplitude_in_range(attack: u64, decay: u64, key: Key, time: int)
    requires
        key.current_at(time),
    ensures
        0 <= (Envelope::AD { attack_time: attack, decay_time: decay }).spec_amplitude(key, time)
            <= SCALE,
{
    let pressed_for = time - key.time_pressed;
    if pressed_for < attack {
        crate::lemma_frac_lt(SCALE as int, pressed_for, attack as int);
    } else if pressed_for < attack + decay {
        crate::lemma_frac_le(SCALE as int, pressed_for - attack, decay as int);
    }
}

/// The instant a released key's release tail starts: the release instant
/// itself if attack+decay had already completed by then, else deferred to
/// the moment attack+decay completes.
pub open spec fn release_start(attack: int, decay: int, key: Key) -> int {
    if key.time_released - key.time_pressed < attack + decay {
        key.time_pressed + attack + decay
    } else {
        key.time_released as int
    }
}

/// Law: while a key is held, once attack and decay have completed the ADSR
/// amplitude sits exactly at the sustain level, and stays there.
pub proof fn lemma_adsr_holds_sustain(
    attack: u64,
    decay: u64,
    sustain: u64,
    release: u64,
    key: Key,
    time: int,
)
    requires
        key.spec_is_pressed(),
        time - key.time_pressed >= attack + decay,
    ensures
        (Envelope::ADSR {
            attack_time: attack,
            decay_time: decay,
            sustain_amplitude: sustain,
            release_time: release,
        }).spec_amplitude(key, time) == sustain,
{
}

/// Law: the pressed-to-released hand-off is continuous. For a released key
/// the amplitude follows `release_tail` measured from `release_start`, and
/// at the boundary instant itself the amplitude still equals the sustain
/// level — exactly the value the tail formula starts from — whether the
/// release came before or after attack+decay completed.
pub proof fn lemma_release_continuity(
    attack: u64,
    decay: u64,
    sustain: u64,
    release: u64,
    key: Key,
)
    requires
        !key.spec_is_pressed(),
    ensures
        0 < release ==> (Envelope::ADSR {
            attack_time: attack,
            decay_time: decay,
            sustain_amplitude: sustain,
            release_time: release,
        }).spec_amplitude(key, release_start(attack as int, decay as int, key)) == sustain,
        forall|time: int|
            release_start(attack as int, decay as int, key) < time
                ==> (Envelope::ADSR {
                attack_time: attack,
                decay_time: decay,
                sustain_amplitude: sustain,
                release_time: release,
            }).spec_amplitude(key, time) == release_tail(
                sustain as int,
                time - release_start(attack as int, decay as int, key),
                release as int,
            ),
        release_tail(sustain as int, 0, release as int) == if 0 < release {
            sustain as int
        } else {
            0
        },
{
}

/// Law: a key released before attack+decay completed produces a release
/// tail that begins at the deferred instant `time_pressed + attack +
/// decay`, not at `time_released`.
pub proof fn lemma_deferred_release(
    attack: u64,
    decay: u64,
    sustain: u64,
    release: u64,
    key: Key,
    time: int,
)
    requires
        !key.spec_is_pressed(),
        key.time_released - key.time_pressed < attack + decay,
        time > key.time_pressed + attack + decay,
    ensures
        (Envelope::ADSR {
            attack_time: attack,
            decay_time: decay,
            sustain_amplitude: sustain,
            release_time: release,
        }).spec_amplitude(key, time) == release_tail(
            sustain as int,
            time - (key.time_pressed + attack + decay),
            release as int,
        ),
{
}

/// Law: the AD envelope is silent for good once attack+decay has elapsed
/// since the press, regardless of the key's release state.
pub proof fn lemma_ad_silent_after_decay(attack: u64, decay: u64, key: Key, time: int)
    requires
        time - key.time_pressed >= attack + decay,
    ensures
        (Envelope::AD { attack_time: attack, decay_time: decay }).spec_amplitude(key, time) == 0,
{
}

/// Law: the AD envelope ignores the released state entirely: two keys
/// pressed at the same instant have the same AD amplitude at every time,
/// whatever their release timestamps.
pub proof fn lemma_ad_ignores_release(attack: u64, decay: u64, key: Key, other: Key, time: int)
    requires
        other.time_pressed == key.time_pressed,
    ensures
        (Envelope::AD { attack_time: attack, decay_time: decay }).spec_amplitude(key, time)
            == (Envelope::AD { attack_time: attack, decay_time: decay }).spec_amplitude(
            other,
            time,
        ),
{
}

} // verus!
