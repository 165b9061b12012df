//! The render-side state machine: the authoritative clock and the key
//! table, driven at buffer boundaries. Events accumulated since the
//! previous buffer are applied before the buffer's first sample, the
//! table is swept, samples are rendered, and the clock advances by one
//! buffer length.

use vstd::prelude::*;

use crate::envelope::Envelope;
use crate::instrument::Instrument;
use crate::key::spec_swept;
use crate::key::Key;
use crate::key::KeyTable;
use crate::midi::ChannelMessageKind;
use crate::midi::Message;
use crate::midi::Midi;
use crate::CLIP;
use crate::KEY_COUNT;

verus! {

/// What one decoded event does to the table at time `now`: note-on
/// presses its key, note-off releases it, and every other message — the
/// unimplemented channel kinds and system messages — changes nothing.
pub open spec fn spec_applied(table: Seq<Key>, m: Midi, now: u64) -> Seq<Key> {
    match m.message {
        Message::ChannelMessage { kind: ChannelMessageKind::NoteOn { key_number, .. }, .. } => {
            table.update(
                key_number as int,
                Key {
                    active: true,
                    time_pressed: now,
                    time_released: table[key_number as int].time_released,
                },
            )
        },
        Message::ChannelMessage { kind: ChannelMessageKind::NoteOff { key_number, .. }, .. } => {
            table.update(
                key_number as int,
                Key {
                    active: table[key_number as int].active,
                    time_pressed: table[key_number as int].time_pressed,
                    time_released: now,
                },
            )
        },
        _ => table,
    }
}

/// What a whole batch of events does: each event applied in arrival
/// order, all at the same buffer-boundary time.
pub open spec fn spec_applied_all(table: Seq<Key>, events: Seq<Midi>, now: u64) -> Seq<Key>
    decreases events,
{
    if events.len() == 0 {
        table
    } else {
        spec_applied(spec_applied_all(table, events.drop_last(), now), events.last(), now)
    }
}

/// The renderer's mutable state: the key table plus the monotonically
/// advancing clock, in microseconds. All timestamps in the table lie at
/// or before the clock.
#[derive(Debug)]
pub struct Renderer {
    pub table: KeyTable,
    pub time: u64,
}

impl Renderer {
    /// The table has its full complement of slots and no timestamp lies
    /// in the future.
    pub open spec fn wf(&self) -> bool {
        self.table.wf() && self.table.current_at(self.time as int)
    }

    /// A fresh renderer: clock at the origin, every key idle.
    pub fn new() -> (r: Renderer)
        ensures
            r.wf(),
            r.time == 0,
            forall|i: int|
                0 <= i < KEY_COUNT ==> #[trigger] r.table.keys@[i] == (Key {
                    active: false,
                    time_pressed: 0,
                    time_released: 0,
                }),
    {
        Renderer { table: KeyTable::new(), time: 0 }
    }

    /// Apply one decoded event to the table at the current time.
    pub fn apply_message(&mut self, m: &Midi)
        requires
            old(self).wf(),
        ensures
            final(self).wf(),
            final(self).time == old(self).time,
            final(self).table.keys@ == spec_applied(old(self).table.keys@, *m, old(self).time),
    {
        match &m.message {
            Message::ChannelMessage { kind: ChannelMessageKind::NoteOn { key_number, .. }, .. } => {
                self.table.press(*key_number, self.time);
            },
            Message::ChannelMessage {
                kind: ChannelMessageKind::NoteOff { key_number, .. },
                ..
            } => {
                self.table.release(*key_number, self.time);
            },
            _ => {},
        }
        proof {
            assert(self.table.keys@ =~= spec_applied(
                old(self).table.keys@,
                *m,
                old(self).time,
            ));
            assert forall|i: int|
                0 <= i < self.table.keys@.len() implies #[trigger] self.table.keys@[i].current_at(
                self.time as int,
            ) by {
                assert(old(self).table.keys@[i].current_at(old(self).time as int));
            };
        }
    }

    /// Apply every event received since the previous buffer, in arrival
    /// order: all of them take effect before the buffer's first sample,
    /// so note timing resolves to one buffer length.
    #[verifier::loop_isolation(false)]
    pub fn apply_events(&mut self, events: &Vec<Midi>)
        requires
            old(self).wf(),
        ensures
            final(self).wf(),
            final(self).time == old(self).time,
            final(self).table.keys@ == spec_applied_all(
                old(self).table.keys@,
                events@,
                old(self).time,
            ),
    {
        let mut i: usize = 0;
        while i < events.len()
            invariant
                i <= events@.len(),
                self.wf(),
                self.time == old(self).time,
                self.table.keys@ == spec_applied_all(
                    old(self).table.keys@,
                    events@.subrange(0, i as int),
                    old(self).time,
                ),
            decreases events@.len() - i,
        {
            self.apply_message(&events[i]);
            i += 1;
            proof {
                assert(events@.subrange(0, i as int).drop_last() =~= events@.subrange(
                    0,
                    i as int - 1,
                ));
            }
        }
        proof {
            assert(events@.subrange(0, events@.len() as int) =~= events@);
        }
    }

    /// Sweep the table against the current instrument's envelope,
    /// dropping fully decayed released keys from rendering.
    pub fn sweep(&mut self, envelope: &Envelope)
        requires
            old(self).wf(),
        ensures
            final(self).wf(),
            final(self).time == old(self).time,
            forall|i: int|
                0 <= i < KEY_COUNT ==> final(self).table.keys@[i] == spec_swept(
                    old(self).table.keys@[i],
                    *envelope,
                    old(self).time as int,
                ),
    {
        let now = self.time;
        self.table.sweep(envelope, now);
    }

    /// Render the output sample at `offset` microseconds into the current
    /// buffer. `sines[k]` must hold key `k`'s sine samples for this
    /// instant.
    pub fn sample(&self, instrument: &Instrument, offset: u64, sines: &Vec<Vec<i64>>) -> (r: i64)
        requires
            self.wf(),
            self.time + offset <= u64::MAX,
            sines@.len() == KEY_COUNT,
            forall|k: int|
                0 <= k < KEY_COUNT ==> instrument.oscillator.spec_harmonics()
                    <= #[trigger] sines@[k]@.len(),
        ensures
            r == instrument.spec_value(
                self.table.keys@,
                self.time + offset,
                sines@,
            ),
            -CLIP <= r <= CLIP,
    {
        proof {
            assert forall|i: int|
                0 <= i < self.table.keys@.len() implies #[trigger] self.table.keys@[i].current_at(
                self.time + offset,
            ) by {
                assert(self.table.keys@[i].current_at(self.time as int));
            };
        }
        instrument.value(&self.table, self.time + offset, sines)
    }

    /// Advance the clock by one buffer length. If the clock would pass
    /// the representable maximum it restarts at zero and every key is
    /// reset to idle — the explicit reset policy for clock wrap-around.
    pub fn advance(&mut self, delta: u64)
        requires
            old(self).wf(),
        ensures
            final(self).wf(),
            old(self).time + delta <= u64::MAX ==> final(self).time == old(self).time + delta
                && final(self).table.keys@ == old(self).table.keys@,
            old(self).time + delta > u64::MAX ==> final(self).time == 0 && (forall|i: int|
                0 <= i < KEY_COUNT ==> #[trigger] final(self).table.keys@[i] == (Key {
                    active: false,
                    time_pressed: 0,
                    time_released: 0,
                })),
    {
        if delta <= u64::MAX - self.time {
            self.time = self.time + delta;
            proof {
                assert forall|i: int|
                    0 <= i < self.table.keys@.len() implies #[trigger] self.table.keys@[i].current_at(
                    self.time as int,
                ) by {
                    assert(self.table.keys@[i].current_at(old(self).time as int));
                };
            }
        } else {
            self.time = 0;
            self.table = KeyTable::new();
        }
    }
}

} // verus!
