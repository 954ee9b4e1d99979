//! The supplier capability: produce audio frames and MIDI events for a
//! requested frame window of some material.
//!
//! A supplier owns material in its own local frame space (frame 0 is the
//! start of the material). Requests may carry negative start frames to
//! encode material that should have started earlier; the frames before
//! frame 0 are silence.

use vstd::prelude::*;

verus! {

/// Largest number of frames a piece of material may hold.
pub const MAX_MATERIAL_FRAMES: usize = 0x1000_0000;

/// Largest magnitude a material sample may hold.
pub const MAX_SAMPLE: i64 = 0x1_0000_0000;

/// Largest magnitude a start frame of a supply request may hold.
pub const MAX_START_FRAME: isize = 0x2000_0000;

/// An audio supply request: where, in the supplier's own frame space, the
/// destination block starts.
pub struct SupplyAudioRequest {
    pub start_frame: isize,
}

/// A MIDI supply request: the frame window `[start_frame, start_frame +
/// dest_frame_count)` for which events are wanted.
pub struct SupplyMidiRequest {
    pub start_frame: isize,
    pub dest_frame_count: usize,
}

/// What a supplier reports back after a supply call.
pub struct SupplyResponse {
    /// Frames actually placed in the destination.
    pub num_frames_written: usize,
    /// Frames advanced in the supplier's own frame space.
    pub num_frames_consumed: usize,
    /// Where the next request should start to stay continuous, if the
    /// material is not exhausted.
    pub next_inner_frame: Option<isize>,
}

/// One MIDI event: a frame offset and an encoded message.
///
/// In material, `frame` is the event's position in the source's own frame
/// space. In the output of a supply call, `frame` is the offset from the
/// start of the requested window.
#[derive(Clone, Copy, PartialEq, Eq, Debug, Structural)]
pub struct MidiEvent {
    pub frame: usize,
    pub payload: u64,
}

/// A destination buffer for one block of audio frames (one channel).
pub struct AudioBuffer {
    samples: Vec<i64>,
}

impl View for AudioBuffer {
    type V = Seq<i64>;

    closed spec fn view(&self) -> Seq<i64> {
        self.samples@
    }
}

impl AudioBuffer {
    /// A silent buffer of the given frame count.
    pub fn new(frame_count: usize) -> (b: AudioBuffer)
        ensures
            b@.len() == frame_count,
            forall|i: int| 0 <= i < frame_count ==> b@[i] == 0i64,
    {
        let mut samples: Vec<i64> = Vec::new();
        let mut i: usize = 0;
        while i < frame_count
            invariant
                i <= frame_count,
                samples@.len() == i,
                forall|j: int| 0 <= j < i ==> samples@[j] == 0i64,
            decreases frame_count - i,
        {
            samples.push(0);
            i += 1;
        }
        AudioBuffer { samples }
    }

    pub fn frame_count(&self) -> (n: usize)
        ensures
            n == self@.len(),
    {
        self.samples.len()
    }

    pub fn sample(&self, i: usize) -> (s: i64)
        requires
            i < self@.len(),
        ensures
            s == self@[i as int],
    {
        self.samples[i]
    }

    pub(crate) fn set_sample(&mut self, i: usize, s: i64)
        requires
            i < old(self)@.len(),
        ensures
            final(self)@ == old(self)@.update(i as int, s),
    {
        self.samples[i] = s;
    }
}

/// Largest magnitude a sample may reach in a mixing destination.
pub const MIX_HEADROOM: i64 = 0x4000_0000_0000;

/// Adds one block into another, frame by frame: how the blocks of several
/// clips are combined into one destination.
pub fn mix_into(dest: &mut AudioBuffer, src: &AudioBuffer)
    requires
        old(dest)@.len() == src@.len(),
        forall|i: int|
            0 <= i < old(dest)@.len() ==> -MIX_HEADROOM <= #[trigger] old(dest)@[i]
                <= MIX_HEADROOM,
        forall|i: int| 0 <= i < src@.len() ==> -MIX_HEADROOM <= #[trigger] src@[i] <= MIX_HEADROOM,
    ensures
        final(dest)@.len() == old(dest)@.len(),
        forall|i: int|
            0 <= i < final(dest)@.len() ==> #[trigger] final(dest)@[i] == old(dest)@[i] + src@[i],
{
    let n = dest.frame_count();
    let mut i: usize = 0;
    while i < n
        invariant
            i <= n,
            n == dest@.len(),
            dest@.len() == old(dest)@.len(),
            src@.len() == n,
            forall|j: int|
                0 <= j < n ==> -MIX_HEADROOM <= #[trigger] src@[j] <= MIX_HEADROOM,
            forall|j: int|
                i <= j < n ==> -MIX_HEADROOM <= #[trigger] dest@[j] <= MIX_HEADROOM,
            forall|j: int| i <= j < n ==> #[trigger] dest@[j] == old(dest)@[j],
            forall|j: int| 0 <= j < i ==> #[trigger] dest@[j] == old(dest)@[j] + src@[j],
        decreases n - i,
    {
        let sum = dest.sample(i) + src.sample(i);
        dest.set_sample(i, sum);
        i += 1;
    }
}

/// How many frames a supply call starting at `start` writes into a window
/// of `dest_len` frames, for material of `frame_count` frames.
pub open spec fn supply_written_count(start: int, dest_len: int, frame_count: int) -> int {
    if start >= frame_count {
        0
    } else if dest_len <= frame_count - start {
        dest_len
    } else {
        frame_count - start
    }
}

/// The sample a supply call places at window offset `i`: material where the
/// window overlaps it, silence before frame 0.
pub open spec fn supplied_sample(material: Seq<i64>, start: int, i: int) -> i64 {
    if 0 <= start + i < material.len() {
        material[start + i]
    } else {
        0i64
    }
}

/// Where the next request should start after writing `written` frames from
/// `start`: the end of the window if it still lies inside the material.
pub open spec fn next_inner_frame_spec(start: int, written: int, frame_count: int) -> Option<
    isize,
> {
    if 0 <= start + written < frame_count {
        Some((start + written) as isize)
    } else {
        None
    }
}

/// An event shifted from material frame space to window-offset space.
pub open spec fn shifted_event(e: MidiEvent, start: int) -> MidiEvent {
    MidiEvent { frame: (e.frame - start) as usize, payload: e.payload }
}

/// The events of `events` whose frame lies in the window `[start, start +
/// count)`, in order, each shifted to its offset from `start`.
pub open spec fn midi_window(events: Seq<MidiEvent>, start: int, count: int) -> Seq<MidiEvent>
    decreases events.len(),
{
    if events.len() == 0 {
        Seq::empty()
    } else {
        midi_window(events.drop_last(), start, count) + (
        if start <= events.last().frame < start + count {
            seq![shifted_event(events.last(), start)]
        } else {
            Seq::empty()
        })
    }
}

/// What well-formed material guarantees, for use outside this module.
pub proof fn lemma_source_wf(s: &Source)
    requires
        s.wf(),
    ensures
        s.audio().len() <= MAX_MATERIAL_FRAMES,
        forall|i: int|
            0 <= i < s.audio().len() ==> -MAX_SAMPLE <= #[trigger] s.audio()[i] <= MAX_SAMPLE,
        forall|i: int|
            0 <= i < s.midi().len() ==> (#[trigger] s.midi()[i]).frame < s.audio().len(),
{
}

/// Source material: the leaf supplier. Holds audio frames and MIDI events
/// in its own frame space; the frame count is the length of the audio
/// material.
pub struct Source {
    frames: Vec<i64>,
    events: Vec<MidiEvent>,
    frame_rate: u32,
}

impl Source {
    /// The audio material.
    pub closed spec fn audio(&self) -> Seq<i64> {
        self.frames@
    }

    /// The MIDI material.
    pub closed spec fn midi(&self) -> Seq<MidiEvent> {
        self.events@
    }

    /// Well-formed material: bounded length, bounded samples, every MIDI
    /// event within the material.
    pub closed spec fn wf(&self) -> bool {
        &&& self.frames@.len() <= MAX_MATERIAL_FRAMES
        &&& forall|i: int|
            0 <= i < self.frames@.len() ==> -MAX_SAMPLE <= #[trigger] self.frames@[i] <= MAX_SAMPLE
        &&& forall|i: int|
            0 <= i < self.events@.len() ==> (#[trigger] self.events@[i]).frame < self.frames@.len()
    }

    pub fn new(frames: Vec<i64>, events: Vec<MidiEvent>, frame_rate: u32) -> (s: Source)
        requires
            frames@.len() <= MAX_MATERIAL_FRAMES,
            forall|i: int| 0 <= i < frames@.len() ==> -MAX_SAMPLE <= #[trigger] frames@[i] <= MAX_SAMPLE,
            forall|i: int|
                0 <= i < events@.len() ==> (#[trigger] events@[i]).frame < frames@.len(),
        ensures
            s.wf(),
            s.audio() == frames@,
            s.midi() == events@,
            s.frame_rate_spec() == frame_rate,
    {
        Source { frames, events, frame_rate }
    }

    pub closed spec fn frame_rate_spec(&self) -> u32 {
        self.frame_rate
    }

    /// Exact frame count of the material.
    pub fn frame_count(&self) -> (n: usize)
        ensures
            n == self.audio().len(),
    {
        self.frames.len()
    }

    pub fn frame_rate(&self) -> (r: u32)
        ensures
            r == self.frame_rate_spec(),
    {
        self.frame_rate
    }

    /// Checks at run time that the material is within the engine's
    /// limits, establishing well-formedness for material of unknown
    /// provenance.
    pub fn check_limits(&self) -> (r: bool)
        ensures
            r <==> self.wf(),
    {
        if self.frames.len() > MAX_MATERIAL_FRAMES {
            return false;
        }
        let mut i: usize = 0;
        while i < self.frames.len()
            invariant
                i <= self.frames@.len(),
                forall|j: int|
                    0 <= j < i ==> -MAX_SAMPLE <= #[trigger] self.frames@[j] <= MAX_SAMPLE,
            decreases self.frames@.len() - i,
        {
            let f = self.frames[i];
            if f > MAX_SAMPLE || f < -MAX_SAMPLE {
                return false;
            }
            i += 1;
        }
        let mut k: usize = 0;
        while k < self.events.len()
            invariant
                k <= self.events@.len(),
                forall|j: int|
                    0 <= j < k ==> (#[trigger] self.events@[j]).frame < self.frames@.len(),
            decreases self.events@.len() - k,
        {
            if self.events[k].frame >= self.frames.len() {
                return false;
            }
            k += 1;
        }
        true
    }

    /// Merges additional MIDI events into the material (MIDI overdub).
    /// Events whose frame lies beyond the material are dropped, so the
    /// material invariant is kept.
    pub fn merge_midi_events(&mut self, events: &Vec<MidiEvent>)
        requires
            old(self).wf(),
        ensures
            final(self).wf(),
            final(self).audio() == old(self).audio(),
            final(self).frame_rate_spec() == old(self).frame_rate_spec(),
            final(self).midi() == old(self).midi() + events@.filter(
                |e: MidiEvent| e.frame < old(self).audio().len(),
            ),
    {
        let frame_count = self.frames.len();
        let mut i: usize = 0;
        while i < events.len()
            invariant
                i <= events@.len(),
                frame_count == self.frames@.len(),
                self.frames@ == old(self).frames@,
                self.frame_rate == old(self).frame_rate,
                old(self).wf(),
                self.events@ == old(self).events@ + events@.take(i as int).filter(
                    |e: MidiEvent| e.frame < old(self).frames@.len(),
                ),
            decreases events@.len() - i,
        {
            let e = events[i];
            if e.frame < frame_count {
                self.events.push(e);
            }
            proof {
                assert(events@.take(i as int + 1).drop_last() =~= events@.take(i as int));
                reveal_with_fuel(Seq::filter, 2);
                assert(events@.take(i as int + 1).last() == events@[i as int]);
            }
            i += 1;
        }
        proof {
            assert(events@.take(events@.len() as int) =~= events@);
        }
    }

    /// Supplies audio into `dest[offset..]`, starting at `start_frame` in
    /// the material's own frame space. Never fails: an exhausted window
    /// reports zero frames written and leaves the destination untouched.
    pub fn supply_audio_at(&self, start_frame: isize, dest: &mut AudioBuffer, offset: usize) -> (r:
        SupplyResponse)
        requires
            self.wf(),
            offset <= old(dest)@.len(),
            old(dest)@.len() <= MAX_MATERIAL_FRAMES,
            -MAX_START_FRAME <= start_frame <= MAX_START_FRAME,
        ensures
            ({
                let dest_len = old(dest)@.len() - offset;
                let w = supply_written_count(
                    start_frame as int,
                    dest_len as int,
                    self.audio().len() as int,
                );
                &&& r.num_frames_written == w
                &&& r.num_frames_consumed == w
                &&& r.next_inner_frame == next_inner_frame_spec(
                    start_frame as int,
                    w,
                    self.audio().len() as int,
                )
                &&& final(dest)@.len() == old(dest)@.len()
                &&& forall|i: int|
                    0 <= i < w ==> final(dest)@[offset + i] == supplied_sample(
                        self.audio(),
                        start_frame as int,
                        i,
                    )
                &&& forall|i: int|
                    0 <= i < old(dest)@.len() && !(offset <= i < offset + w) ==> final(dest)@[i]
                        == old(dest)@[i]
            }),
    {
        let f = self.frames.len();
        let dest_len = dest.frame_count() - offset;
        if start_frame >= f as isize {
            return SupplyResponse {
                num_frames_written: 0,
                num_frames_consumed: 0,
                next_inner_frame: None,
            };
        }
        // Frames available from `start_frame` to the end of the material,
        // counting the silence before frame 0.
        let avail: usize = if start_frame >= 0 {
            f - (start_frame as usize)
        } else {
            f + ((-start_frame) as usize)
        };
        let w = if dest_len <= avail {
            dest_len
        } else {
            avail
        };
        let mut i: usize = 0;
        while i < w
            invariant
                self.wf(),
                i <= w,
                f == self.audio().len(),
                w <= MAX_MATERIAL_FRAMES,
                offset <= MAX_MATERIAL_FRAMES,
                offset + w <= dest@.len(),
                dest@.len() == old(dest)@.len(),
                -MAX_START_FRAME <= start_frame <= MAX_START_FRAME,
                w == supply_written_count(
                    start_frame as int,
                    (old(dest)@.len() - offset) as int,
                    self.audio().len() as int,
                ),
                forall|j: int|
                    0 <= j < i ==> dest@[offset + j] == supplied_sample(
                        self.audio(),
                        start_frame as int,
                        j,
                    ),
                forall|j: int|
                    0 <= j < old(dest)@.len() && !(offset <= j < offset + i) ==> dest@[j]
                        == old(dest)@[j],
            decreases w - i,
        {
            let frame: isize = start_frame + i as isize;
            let val = if 0 <= frame && (frame as usize) < f {
                self.frames[frame as usize]
            } else {
                0
            };
            dest.set_sample(offset + i, val);
            i += 1;
        }
        let next_val: isize = start_frame + w as isize;
        let next = if 0 <= next_val && next_val < f as isize {
            Some(next_val)
        } else {
            None
        };
        SupplyResponse { num_frames_written: w, num_frames_consumed: w, next_inner_frame: next }
    }

    /// Supplies MIDI events for the window starting at the request's start
    /// frame, appending each event with its offset from the window start.
    pub fn supply_midi(&self, request: &SupplyMidiRequest, events_out: &mut Vec<MidiEvent>) -> (r:
        SupplyResponse)
        requires
            self.wf(),
            request.dest_frame_count <= MAX_MATERIAL_FRAMES,
            -MAX_START_FRAME <= request.start_frame <= MAX_START_FRAME,
        ensures
            ({
                let w = supply_written_count(
                    request.start_frame as int,
                    request.dest_frame_count as int,
                    self.audio().len() as int,
                );
                &&& r.num_frames_written == w
                &&& r.num_frames_consumed == w
                &&& r.next_inner_frame == next_inner_frame_spec(
                    request.start_frame as int,
                    w,
                    self.audio().len() as int,
                )
                &&& final(events_out)@ == old(events_out)@ + midi_window(
                    self.midi(),
                    request.start_frame as int,
                    w,
                )
            }),
    {
        let f = self.frames.len();
        let start_frame = request.start_frame;
        let w: usize = if start_frame >= f as isize {
            0
        } else {
            let avail: usize = if start_frame >= 0 {
                f - (start_frame as usize)
            } else {
                f + ((-start_frame) as usize)
            };
            if request.dest_frame_count <= avail {
                request.dest_frame_count
            } else {
                avail
            }
        };
        let mut i: usize = 0;
        while i < self.events.len()
            invariant
                self.wf(),
                i <= self.events@.len(),
                f == self.audio().len(),
                w <= MAX_MATERIAL_FRAMES,
                -MAX_START_FRAME <= start_frame <= MAX_START_FRAME,
                events_out@ == old(events_out)@ + midi_window(
                    self.midi().take(i as int),
                    start_frame as int,
                    w as int,
                ),
            decreases self.events@.len() - i,
        {
            let e = self.events[i];
            if start_frame <= e.frame as isize && (e.frame as isize) < start_frame + w as isize {
                let offset = (e.frame as isize - start_frame) as usize;
                events_out.push(MidiEvent { frame: offset, payload: e.payload });
            }
            proof {
                assert(self.midi().take(i as int + 1).drop_last() =~= self.midi().take(i as int));
                assert(self.midi().take(i as int + 1).last() == self.midi()[i as int]);
            }
            i += 1;
        }
        proof {
            assert(self.midi().take(self.midi().len() as int) =~= self.midi());
        }
        let next_val: isize = start_frame + w as isize;
        let next = if 0 <= next_val && next_val < f as isize {
            Some(next_val)
        } else {
            None
        };
        SupplyResponse { num_frames_written: w, num_frames_consumed: w, next_inner_frame: next }
    }

    /// Supplies one block of audio starting at the request's start frame.
    pub fn supply_audio(&self, request: &SupplyAudioRequest, dest: &mut AudioBuffer) -> (r:
        SupplyResponse)
        requires
            self.wf(),
            old(dest)@.len() <= MAX_MATERIAL_FRAMES,
            -MAX_START_FRAME <= request.start_frame <= MAX_START_FRAME,
        ensures
            ({
                let w = supply_written_count(
                    request.start_frame as int,
                    old(dest)@.len() as int,
                    self.audio().len() as int,
                );
                &&& r.num_frames_written == w
                &&& r.num_frames_consumed == w
                &&& r.next_inner_frame == next_inner_frame_spec(
                    request.start_frame as int,
                    w,
                    self.audio().len() as int,
                )
                &&& final(dest)@.len() == old(dest)@.len()
                &&& forall|i: int|
                    0 <= i < w ==> final(dest)@[i] == supplied_sample(
                        self.audio(),
                        request.start_frame as int,
                        i,
                    )
                &&& forall|i: int|
                    w <= i < old(dest)@.len() ==> final(dest)@[i] == old(dest)@[i]
            }),
    {
        self.supply_audio_at(request.start_frame, dest, 0)
    }
}

} // verus!
