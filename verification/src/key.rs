//! Per-note key state: the timestamps of the most recent press and
//! release, plus the flag that keeps a key inside the rendering set; and
//! the fixed-size table of one such slot per note.

use vstd::prelude::*;

use crate::envelope::Envelope;
use crate::envelope::EPSILON;
use crate::KEY_COUNT;

verus! {

/// One key slot. `active` marks the key as sounding (it is cleared only by
/// the sweep once the release tail has fully decayed, or by a clock reset);
/// whether the key is currently held is derived from the two timestamps,
/// never stored.
#[derive(Clone, Copy, Debug, PartialEq, Eq, Structural)]
pub struct Key {
    pub active: bool,
    /// Time of the most recent press, in microseconds.
    pub time_pressed: u64,
    /// Time of the most recent release, in microseconds.
    pub time_released: u64,
}

impl Key {
    /// A key is held exactly when its last press is more recent than its
    /// last release.
    pub open spec fn spec_is_pressed(&self) -> bool {
        self.time_pressed > self.time_released
    }

    /// Both timestamps lie at or before `now`; rendering always queries a
    /// key at or after the events that shaped it.
    pub open spec fn current_at(&self, now: int) -> bool {
        self.time_pressed <= now && self.time_released <= now
    }

    #[verifier::when_used_as_spec(spec_is_pressed)]
    pub fn is_pressed(&self) -> (r: bool)
        ensures
            r == self.spec_is_pressed(),
    {
        self.time_pressed > self.time_released
    }

    /// The state every slot starts in: silent, with both timestamps at the
    /// clock origin.
    pub fn idle() -> (r: Key)
        ensures
            r == (Key { active: false, time_pressed: 0, time_released: 0 }),
    {
        Key { active: false, time_pressed: 0, time_released: 0 }
    }
}

/// What the sweep does to one slot: an active slot that is already
/// released and whose amplitude has decayed below `EPSILON` is
/// deactivated; every other slot is untouched.
pub open spec fn spec_swept(k: Key, envelope: Envelope, now: int) -> Key {
    if k.active && !k.spec_is_pressed() && envelope.spec_amplitude(k, now) < EPSILON {
        Key { active: false, time_pressed: k.time_pressed, time_released: k.time_released }
    } else {
        k
    }
}

/// The fixed-size table of key slots, indexed by note number.
#[derive(Debug)]
pub struct KeyTable {
    pub keys: Vec<Key>,
}

impl KeyTable {
    /// Well-formed: one slot for each of the `KEY_COUNT` notes.
    pub open spec fn wf(&self) -> bool {
        self.keys@.len() == KEY_COUNT
    }

    /// Every slot's timestamps lie at or before `now`.
    pub open spec fn current_at(&self, now: int) -> bool {
        forall|i: int| 0 <= i < self.keys@.len() ==> #[trigger] self.keys@[i].current_at(now)
    }

    /// A fresh table: every slot idle.
    pub fn new() -> (r: KeyTable)
        ensures
            r.wf(),
            forall|i: int|
                0 <= i < KEY_COUNT ==> #[trigger] r.keys@[i] == (Key {
                    active: false,
                    time_pressed: 0,
                    time_released: 0,
                }),
    {
        let mut keys: Vec<Key> = Vec::new();
        let mut i: usize = 0;
        while i < KEY_COUNT
            invariant
                i <= KEY_COUNT,
                keys@.len() == i,
                forall|j: int|
                    0 <= j < i ==> #[trigger] keys@[j] == (Key {
                        active: false,
                        time_pressed: 0,
                        time_released: 0,
                    }),
            decreases KEY_COUNT - i,
        {
            keys.push(Key::idle());
            i += 1;
        }
        KeyTable { keys }
    }

    /// Press `note` at `now`: the slot starts sounding and records the
    /// press instant. A slot still sounding through its release tail is
    /// retriggered: the fresh press truncates the previous tail at once.
    pub fn press(&mut self, note: u8, now: u64)
        requires
            old(self).wf(),
        ensures
            final(self).wf(),
            final(self).keys@[note as int] == (Key {
                active: true,
                time_pressed: now,
                time_released: old(self).keys@[note as int].time_released,
            }),
            forall|i: int|
                0 <= i < KEY_COUNT && i != note as int ==> final(self).keys@[i] == old(
                    self,
                ).keys@[i],
    {
        let prev = self.keys[note as usize];
        self.keys.set(
            note as usize,
            Key { active: true, time_pressed: now, time_released: prev.time_released },
        );
    }

    /// Release `note` at `now`: records the release instant; the slot
    /// keeps sounding through its release tail until the sweep drops it.
    pub fn release(&mut self, note: u8, now: u64)
        requires
            old(self).wf(),
        ensures
            final(self).wf(),
            final(self).keys@[note as int] == (Key {
                active: old(self).keys@[note as int].active,
                time_pressed: old(self).keys@[note as int].time_pressed,
                time_released: now,
            }),
            forall|i: int|
                0 <= i < KEY_COUNT && i != note as int ==> final(self).keys@[i] == old(
                    self,
                ).keys@[i],
    {
        let prev = self.keys[note as usize];
        self.keys.set(
            note as usize,
            Key { active: prev.active, time_pressed: prev.time_pressed, time_released: now },
        );
    }

    /// Deactivate every slot that is active, already released, and whose
    /// envelope amplitude has decayed below `EPSILON`. This sweep is the
    /// sole mechanism that removes a key from rendering.
    #[verifier::loop_isolation(false)]
    pub fn sweep(&mut self, envelope: &Envelope, now: u64)
        requires
            old(self).wf(),
            old(self).current_at(now as int),
        ensures
            final(self).wf(),
            final(self).current_at(now as int),
            forall|i: int|
                0 <= i < KEY_COUNT ==> final(self).keys@[i] == spec_swept(
                    old(self).keys@[i],
                    *envelope,
                    now as int,
                ),
    {
        let mut i: usize = 0;
        while i < KEY_COUNT
            invariant
                i <= KEY_COUNT,
                self.keys@.len() == KEY_COUNT,
                forall|j: int|
                    0 <= j < i ==> #[trigger] self.keys@[j] == spec_swept(
                        old(self).keys@[j],
                        *envelope,
                        now as int,
                    ),
                forall|j: int| i <= j < KEY_COUNT ==> #[trigger] self.keys@[j] == old(self).keys@[j],
            decreases KEY_COUNT - i,
        {
            let k = self.keys[i];
            if k.active && !k.is_pressed() && envelope.amplitude(&k, now) < EPSILON {
                self.keys.set(
                    i,
                    Key {
                        active: false,
                        time_pressed: k.time_pressed,
                        time_released: k.time_released,
                    },
                );
            }
            i += 1;
        }
        proof {
            assert forall|j: int|
                0 <= j < self.keys@.len() implies #[trigger] self.keys@[j].current_at(
                now as int,
            ) by {
                assert(old(self).keys@[j].current_at(now as int));
                assert(self.keys@[j] == spec_swept(old(self).keys@[j], *envelope, now as int));
            };
        }
    }
}

} // verus!
