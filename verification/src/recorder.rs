//! The recorder supplier: captures incoming audio or MIDI material while a
//! clip records, and finalizes the captured material into playable source
//! material.

use vstd::prelude::*;

use crate::supplier::{MidiEvent, Source, MAX_MATERIAL_FRAMES, MAX_SAMPLE};

verus! {

/// How a recording is made.
#[derive(Clone, Copy, PartialEq, Eq, Structural)]
pub enum RecordBehavior {
    /// A normal one-shot recording; `play_after` starts playback right
    /// after the recording finishes.
    Normal { play_after: bool },
    /// Records more MIDI material onto the existing clip.
    MidiOverdub,
}

/// A sample clamped into the range the engine accepts.
pub open spec fn clamped_sample(s: i64) -> i64 {
    if s > MAX_SAMPLE {
        MAX_SAMPLE
    } else if s < -MAX_SAMPLE {
        (-MAX_SAMPLE) as i64
    } else {
        s
    }
}

/// An in-progress recording.
pub struct Recorder {
    frames: Vec<i64>,
    events: Vec<MidiEvent>,
    behavior: RecordBehavior,
    frame_rate: u32,
}

impl Recorder {
    pub closed spec fn frames_spec(&self) -> Seq<i64> {
        self.frames@
    }

    pub closed spec fn events_spec(&self) -> Seq<MidiEvent> {
        self.events@
    }

    pub closed spec fn behavior_spec(&self) -> RecordBehavior {
        self.behavior
    }

    pub closed spec fn frame_rate_spec(&self) -> u32 {
        self.frame_rate
    }

    /// Captured material stays within the engine's material limits.
    pub closed spec fn wf(&self) -> bool {
        &&& self.frames@.len() <= MAX_MATERIAL_FRAMES
        &&& forall|i: int|
            0 <= i < self.frames@.len() ==> -MAX_SAMPLE <= #[trigger] self.frames@[i]
                <= MAX_SAMPLE
    }

    /// An empty recording at the given material frame rate.
    pub fn new(behavior: RecordBehavior, frame_rate: u32) -> (r: Recorder)
        ensures
            r.wf(),
            r.frames_spec().len() == 0,
            r.events_spec().len() == 0,
            r.behavior_spec() == behavior,
            r.frame_rate_spec() == frame_rate,
    {
        Recorder { frames: Vec::new(), events: Vec::new(), behavior, frame_rate }
    }

    pub fn behavior(&self) -> (b: RecordBehavior)
        ensures
            b == self.behavior_spec(),
    {
        self.behavior
    }

    /// Hands out the captured material.
    pub fn into_parts(self) -> (p: (Vec<i64>, Vec<MidiEvent>))
        ensures
            p.0@ == self.frames_spec(),
            p.1@ == self.events_spec(),
    {
        (self.frames, self.events)
    }

    /// Checks at run time that the captured material is within the
    /// engine's limits.
    pub fn check_limits(&self) -> (r: bool)
        ensures
            r <==> self.wf(),
    {
        if self.frames.len() > MAX_MATERIAL_FRAMES {
            return false;
        }
        let mut i: usize = 0;
        while i < self.frames.len()
            invariant
                i <= self.frames@.len(),
                self.frames@.len() <= MAX_MATERIAL_FRAMES,
                forall|j: int|
                    0 <= j < i ==> -MAX_SAMPLE <= #[trigger] self.frames@[j] <= MAX_SAMPLE,
            decreases self.frames@.len() - i,
        {
            let f = self.frames[i];
            if f > MAX_SAMPLE || f < -MAX_SAMPLE {
                return false;
            }
            i += 1;
        }
        true
    }

    /// The frames captured so far.
    pub fn frame_count(&self) -> (n: usize)
        ensures
            n == self.frames_spec().len(),
    {
        self.frames.len()
    }

    /// Appends one block of incoming audio, clamping each sample into the
    /// accepted range; frames beyond the material limit are dropped.
    pub fn write_audio(&mut self, samples: &Vec<i64>)
        requires
            old(self).wf(),
        ensures
            final(self).wf(),
            final(self).events_spec() == old(self).events_spec(),
            final(self).behavior_spec() == old(self).behavior_spec(),
            final(self).frame_rate_spec() == old(self).frame_rate_spec(),
            ({
                let room = MAX_MATERIAL_FRAMES - old(self).frames_spec().len();
                let taken = if samples@.len() <= room {
                    samples@.len() as int
                } else {
                    room as int
                };
                &&& final(self).frames_spec().len() == old(self).frames_spec().len() + taken
                &&& forall|i: int|
                    0 <= i < old(self).frames_spec().len() ==> final(self).frames_spec()[i] == old(
                        self,
                    ).frames_spec()[i]
                &&& forall|i: int|
                    0 <= i < taken ==> final(self).frames_spec()[old(self).frames_spec().len() + i]
                        == clamped_sample(samples@[i])
            }),
    {
        let room = MAX_MATERIAL_FRAMES - self.frames.len();
        let take = if samples.len() <= room {
            samples.len()
        } else {
            room
        };
        let ghost orig = self.frames@;
        let mut i: usize = 0;
        while i < take
            invariant
                i <= take,
                take <= samples@.len(),
                self.frames@.len() == orig.len() + i,
                orig.len() + take <= MAX_MATERIAL_FRAMES,
                forall|j: int| 0 <= j < orig.len() ==> self.frames@[j] == orig[j],
                forall|j: int|
                    0 <= j < i ==> self.frames@[orig.len() + j] == clamped_sample(samples@[j]),
                forall|j: int|
                    0 <= j < self.frames@.len() ==> -MAX_SAMPLE <= #[trigger] self.frames@[j]
                        <= MAX_SAMPLE || j >= orig.len(),
                forall|j: int|
                    orig.len() <= j < self.frames@.len() ==> -MAX_SAMPLE
                        <= #[trigger] self.frames@[j] <= MAX_SAMPLE,
                self.events@ == old(self).events@,
                self.behavior == old(self).behavior,
                self.frame_rate == old(self).frame_rate,
                old(self).wf(),
                orig == old(self).frames@,
            decreases take - i,
        {
            let s = samples[i];
            let clamped = if s > MAX_SAMPLE {
                MAX_SAMPLE
            } else if s < -MAX_SAMPLE {
                -MAX_SAMPLE
            } else {
                s
            };
            self.frames.push(clamped);
            i += 1;
        }
    }

    /// Appends incoming MIDI events, each at its frame offset from the
    /// start of the recording.
    pub fn write_midi(&mut self, events: &Vec<MidiEvent>)
        requires
            old(self).wf(),
        ensures
            final(self).wf(),
            final(self).frames_spec() == old(self).frames_spec(),
            final(self).behavior_spec() == old(self).behavior_spec(),
            final(self).frame_rate_spec() == old(self).frame_rate_spec(),
            final(self).events_spec() == old(self).events_spec() + events@,
    {
        let mut i: usize = 0;
        while i < events.len()
            invariant
                i <= events@.len(),
                self.frames@ == old(self).frames@,
                self.behavior == old(self).behavior,
                self.frame_rate == old(self).frame_rate,
                old(self).wf(),
                self.events@ == old(self).events@ + events@.take(i as int),
            decreases events@.len() - i,
        {
            self.events.push(events[i]);
            proof {
                assert(events@.take(i as int + 1) =~= events@.take(i as int) + seq![events@[i as int]]);
            }
            i += 1;
        }
        proof {
            assert(events@.take(events@.len() as int) =~= events@);
        }
    }

    /// Finalizes the captured material into playable source material.
    /// Events whose frame lies beyond the captured frames are dropped, so
    /// the result upholds the source invariant.
    pub fn commit(self) -> (s: Source)
        requires
            self.wf(),
        ensures
            s.wf(),
            s.audio() == self.frames_spec(),
            s.midi() == self.events_spec().filter(
                |e: MidiEvent| e.frame < self.frames_spec().len(),
            ),
            s.frame_rate_spec() == self.frame_rate_spec(),
    {
        let frame_count = self.frames.len();
        let mut kept: Vec<MidiEvent> = Vec::new();
        let mut i: usize = 0;
        while i < self.events.len()
            invariant
                i <= self.events@.len(),
                frame_count == self.frames@.len(),
                kept@ == self.events@.take(i as int).filter(
                    |e: MidiEvent| e.frame < self.frames@.len(),
                ),
            decreases self.events@.len() - i,
        {
            let e = self.events[i];
            if e.frame < frame_count {
                kept.push(e);
            }
            proof {
                assert(self.events@.take(i as int + 1).drop_last() =~= self.events@.take(i as int));
                reveal_with_fuel(Seq::filter, 2);
                assert(self.events@.take(i as int + 1).last() == self.events@[i as int]);
            }
            i += 1;
        }
        proof {
            assert(self.events@.take(self.events@.len() as int) =~= self.events@);
        }
        let rate = self.frame_rate;
        Source::new(self.frames, kept, rate)
    }
}

} // verus!
