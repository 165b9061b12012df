//! The instrument — the immutable snapshot of volume, envelope and
//! oscillator tree that the renderer reads — the equal-tempered mapping
//! from note index to frequency, and the hot-reload decision.

use vstd::prelude::*;

use crate::envelope::Envelope;
use crate::key::Key;
use crate::key::KeyTable;
use crate::osc::clip;
use crate::osc::clip_add;
use crate::osc::mul_div_clip;
use crate::osc::scaled;
use crate::osc::OscillatorNode;
use crate::CLIP;
use crate::KEY_COUNT;
use crate::SCALE;

verus! {

/// The twelfth root of two — the frequency ratio between adjacent
/// semitones — as the fixed-point fraction `STEP_NUM / STEP_DEN`.
pub const STEP_NUM: u64 = 10_594_630_944;

/// Denominator of the semitone ratio.
pub const STEP_DEN: u64 = 10_000_000_000;

/// The anchor of the scale: note index 57 sounds at 440 Hz (A4), in
/// micro-hertz.
pub const A4_FREQUENCY: u64 = 440_000_000;

/// Rail the frequency map saturates at: 100 MHz, far beyond both the
/// audible range and the highest note a `u8` index can name.
pub const FREQUENCY_CAP: u64 = 100_000_000_000_000;

/// Frequencies above the anchor: one saturating semitone step per
/// recursion.
pub open spec fn spec_freq_up(n: nat) -> int
    decreases n,
{
    if n == 0 {
        A4_FREQUENCY as int
    } else {
        let p = spec_freq_up((n - 1) as nat);
        if p > FREQUENCY_CAP {
            p
        } else {
            p * STEP_NUM / (STEP_DEN as int)
        }
    }
}

/// Frequencies below the anchor: one semitone step down per recursion.
pub open spec fn spec_freq_down(n: nat) -> int
    decreases n,
{
    if n == 0 {
        A4_FREQUENCY as int
    } else {
        spec_freq_down((n - 1) as nat) * STEP_DEN / (STEP_NUM as int)
    }
}

/// The equal-tempered frequency of note `index`, anchored at
/// `spec_frequency_of(57) == 440 Hz`: each step away from the anchor
/// scales by the semitone ratio, rounding down.
pub open spec fn spec_frequency_of(index: int) -> int {
    if index >= 57 {
        spec_freq_up((index - 57) as nat)
    } else {
        spec_freq_down((57 - index) as nat)
    }
}

/// Law: the anchor of the frequency map is exact: note 57 sounds at
/// exactly 440 Hz.
pub proof fn lemma_frequency_anchor()
    ensures
        spec_frequency_of(57) == 440_000_000,
{
}

/// The equal-tempered frequency of note `index`, in micro-hertz.
pub fn frequency_of(index: u8) -> (r: u64)
    ensures
        r == spec_frequency_of(index as int),
{
    let mut f: u64 = A4_FREQUENCY;
    if index >= 57 {
        let mut i: u8 = 57;
        while i < index
            invariant
                57 <= i <= index,
                f == spec_freq_up((i - 57) as nat),
                f <= 110_000_000_000_000,
            decreases index - i,
        {
            if f <= FREQUENCY_CAP {
                proof {
                    vstd::arithmetic::mul::lemma_mul_upper_bound(
                        f as int,
                        FREQUENCY_CAP as int,
                        STEP_NUM as int,
                        STEP_NUM as int,
                    );
                    vstd::arithmetic::div_mod::lemma_div_is_ordered(
                        f as int * STEP_NUM as int,
                        FREQUENCY_CAP as int * STEP_NUM as int,
                        STEP_DEN as int,
                    );
                }
                f = crate::mul_div(f, STEP_NUM, STEP_DEN);
            }
            i += 1;
        }
    } else {
        let mut i: u8 = 57;
        while i > index
            invariant
                index <= i <= 57,
                f == spec_freq_down((57 - i) as nat),
                f <= A4_FREQUENCY,
            decreases i - index,
        {
            proof {
                crate::lemma_frac_le(f as int, STEP_DEN as int, STEP_NUM as int);
            }
            f = crate::mul_div(f, STEP_DEN, STEP_NUM);
            i -= 1;
        }
    }
    f
}

/// The immutable unit of hot-reload: a volume, an envelope, and an
/// oscillator tree. The renderer reads one of these per buffer and never
/// sees it change mid-buffer; a reload replaces it wholesale.
#[derive(Debug)]
pub struct Instrument {
    /// Output gain in micro-units; `SCALE` is unity.
    pub volume: i64,
    pub envelope: Envelope,
    pub oscillator: OscillatorNode,
}

/// The hot-reload decision: a successfully parsed candidate replaces the
/// instrument wholesale; a failed parse keeps the previous instrument in
/// effect.
pub open spec fn spec_reloaded(current: Instrument, candidate: Option<Instrument>) -> Instrument {
    match candidate {
        Some(c) => c,
        None => current,
    }
}

impl Instrument {
    /// One mixing step per key slot, in slot order: an active key
    /// contributes its envelope amplitude times its oscillator value at
    /// the key's own frequency; inactive keys contribute nothing. Every
    /// combining step saturates at `CLIP`.
    pub open spec fn spec_mix(
        &self,
        keys: Seq<Key>,
        n: int,
        time: int,
        sines: Seq<Vec<i64>>,
    ) -> int
        decreases n,
    {
        if n <= 0 {
            0
        } else {
            let prev = self.spec_mix(keys, n - 1, time, sines);
            let k = keys[n - 1];
            if k.active {
                let amp = self.envelope.spec_amplitude(k, time);
                let wave = self.oscillator.spec_value(
                    spec_frequency_of(n - 1),
                    time,
                    sines[n - 1]@,
                );
                clip(prev + clip(scaled(clip(amp), wave, SCALE as int)))
            } else {
                prev
            }
        }
    }

    /// The output sample at `time`: the mixed contributions of all active
    /// keys, scaled by the instrument's volume.
    pub open spec fn spec_value(&self, keys: Seq<Key>, time: int, sines: Seq<Vec<i64>>) -> int {
        clip(
            scaled(
                self.spec_mix(keys, KEY_COUNT as int, time, sines),
                self.volume as int,
                SCALE as int,
            ),
        )
    }

    /// Render one output sample at `time` (microseconds) from the key
    /// table. `sines[k]` must hold the sine samples of key `k`'s
    /// frequency at `time`, one entry per harmonic the oscillator tree
    /// reads.
    #[verifier::loop_isolation(false)]
    pub fn value(&self, keys: &KeyTable, time: u64, sines: &Vec<Vec<i64>>) -> (r: i64)
        requires
            keys.wf(),
            keys.current_at(time as int),
            sines@.len() == KEY_COUNT,
            forall|k: int|
                0 <= k < KEY_COUNT ==> self.oscillator.spec_harmonics() <= #[trigger] sines@[k]@.len(),
        ensures
            r == self.spec_value(keys.keys@, time as int, sines@),
            -CLIP <= r <= CLIP,
    {
        let mut acc: i64 = 0;
        let mut k: usize = 0;
        while k < KEY_COUNT
            invariant
                k <= KEY_COUNT,
                acc == self.spec_mix(keys.keys@, k as int, time as int, sines@),
                -CLIP <= acc <= CLIP,
            decreases KEY_COUNT - k,
        {
            let key = keys.keys[k];
            if key.active {
                let amp = self.envelope.amplitude(&key, time);
                let f = frequency_of(k as u8);
                let wave = self.oscillator.value(f, time, &sines[k]);
                let amp_clipped: i64 = if amp > CLIP as u64 {
                    CLIP
                } else {
                    amp as i64
                };
                let term = mul_div_clip(amp_clipped, wave, SCALE);
                acc = clip_add(acc, term);
            }
            k += 1;
        }
        mul_div_clip(acc, self.volume, SCALE)
    }

    /// Take the outcome of a reload attempt: a parsed candidate replaces
    /// this instrument; `None` — a failed read or parse — keeps it.
    pub fn reloaded(self, candidate: Option<Instrument>) -> (r: Instrument)
        ensures
            r == spec_reloaded(self, candidate),
    {
        match candidate {
            Some(c) => c,
            None => self,
        }
    }
}

/// Induction step for `lemma_inactive_keys_are_silent`: the first `n`
/// mixing steps agree whenever the tables agree on which keys are active
/// and on the active keys themselves.
proof fn lemma_mix_ignores_inactive(
    inst: Instrument,
    keys1: Seq<Key>,
    keys2: Seq<Key>,
    n: int,
    time: int,
    sines: Seq<Vec<i64>>,
)
    requires
        forall|i: int| 0 <= i < n ==> keys1[i].active == keys2[i].active,
        forall|i: int| 0 <= i < n && keys1[i].active ==> keys1[i] == keys2[i],
    ensures
        inst.spec_mix(keys1, n, time, sines) == inst.spec_mix(keys2, n, time, sines),
    decreases n,
{
    if n > 0 {
        lemma_mix_ignores_inactive(inst, keys1, keys2, n - 1, time, sines);
    }
}

/// Law: rendering only ever considers keys with `active` set. Two key
/// tables that agree on which slots are active, and slot for slot on the
/// active ones, render the same sample — whatever the timestamps of the
/// inactive slots say.
pub proof fn lemma_inactive_keys_are_silent(
    inst: Instrument,
    keys1: Seq<Key>,
    keys2: Seq<Key>,
    time: int,
    sines: Seq<Vec<i64>>,
)
    requires
        forall|i: int| 0 <= i < KEY_COUNT ==> keys1[i].active == keys2[i].active,
        forall|i: int| 0 <= i < KEY_COUNT && keys1[i].active ==> keys1[i] == keys2[i],
    ensures
        inst.spec_value(keys1, time, sines) == inst.spec_value(keys2, time, sines),
{
    lemma_mix_ignores_inactive(inst, keys1, keys2, KEY_COUNT as int, time, sines);
}

/// Law: a failed reload is inaudible. After a reload attempt whose
/// candidate did not parse, the instrument in effect is the previous one,
/// so every sample subsequently rendered — from any key state, time and
/// sine bank — equals the sample the previous instrument would have
/// rendered.
pub proof fn lemma_failed_reload_preserves_output(
    current: Instrument,
    keys: Seq<Key>,
    time: int,
    sines: Seq<Vec<i64>>,
)
    ensures
        spec_reloaded(current, None).spec_value(keys, time, sines) == current.spec_value(
            keys,
            time,
            sines,
        ),
{
}

} // verus!
