//! The looping decorator: seamless cyclic repetition of finite material,
//! with optional crossfades at the loop boundary.
//!
//! The looper rewrites requests into the inner supplier's frame space by
//! taking the start frame modulo the material length, splices a second
//! request from frame 0 when a block crosses the loop end, and translates
//! the inner supplier's next frame back into an absolute, ever-increasing
//! cycle-aware frame space.

use vstd::prelude::*;

use crate::supplier::{
    supplied_sample, supply_written_count, AudioBuffer, MidiEvent, Source, SupplyAudioRequest,
    SupplyMidiRequest, SupplyResponse, MAX_MATERIAL_FRAMES, MAX_SAMPLE, MAX_START_FRAME,
};
use crate::FADE_LENGTH;
use vstd::arithmetic::div_mod::{
    lemma_fundamental_div_mod, lemma_mod_bound, lemma_mod_multiples_vanish, lemma_small_mod,
};

verus! {

/// Whether a clip is played once or repeated.
pub enum Repetition {
    Infinitely,
    Once,
}

/// How long the looper keeps looping.
///
/// `UntilEndOfCycle(n)` permits looping up to and including cycle index
/// `n`; `UntilEndOfCycle(0)` means looping is currently off.
pub enum LoopBehavior {
    Infinitely,
    UntilEndOfCycle(usize),
}

impl Default for LoopBehavior {
    /// Not looping.
    fn default() -> (r: Self)
        ensures
            r == LoopBehavior::UntilEndOfCycle(0usize),
    {
        Self::UntilEndOfCycle(0)
    }
}

impl LoopBehavior {
    pub fn from_repetition(repetition: Repetition) -> (r: Self)
        ensures
            r == match repetition {
                Repetition::Infinitely => LoopBehavior::Infinitely,
                Repetition::Once => LoopBehavior::UntilEndOfCycle(0usize),
            },
    {
        match repetition {
            Repetition::Infinitely => Self::Infinitely,
            Repetition::Once => Self::UntilEndOfCycle(0),
        }
    }

    pub fn from_bool(repeated: bool) -> (r: Self)
        ensures
            r == if repeated {
                LoopBehavior::Infinitely
            } else {
                LoopBehavior::UntilEndOfCycle(0usize)
            },
    {
        if repeated {
            Self::Infinitely
        } else {
            Self::UntilEndOfCycle(0)
        }
    }
}

/// Whether the looper rewrites a request starting at `start_frame`: only
/// non-negative starts, and only while the loop behavior still permits
/// looping at that start frame's cycle.
pub open spec fn loop_is_relevant(
    behavior: LoopBehavior,
    start_frame: int,
    frame_count: int,
) -> bool {
    &&& start_frame >= 0
    &&& match behavior {
        LoopBehavior::Infinitely => true,
        LoopBehavior::UntilEndOfCycle(n) => n > 0 && start_frame / frame_count <= n,
    }
}

/// Translates an inner frame back into the absolute cycle-aware frame
/// space: the previous cycle is `prev_start / frame_count`; if the inner
/// frame fell behind the previous start's modulo position, one more cycle
/// has begun.
pub open spec fn unmodulo_spec(next_inner: int, prev_start: int, frame_count: int) -> int {
    let previous_cycle = prev_start / frame_count;
    let previous_modulo = prev_start % frame_count;
    if previous_modulo <= next_inner {
        previous_cycle * frame_count + next_inner
    } else {
        (previous_cycle + 1) * frame_count + next_inner
    }
}

/// The inner frame the looper reports before un-modulo translation, for a
/// request of `dest_len` frames starting (absolutely) at `start`.
pub open spec fn looper_inner_next(start: int, dest_len: int, frame_count: int) -> int {
    let msf = start % frame_count;
    let w1 = supply_written_count(msf, dest_len, frame_count);
    if w1 == dest_len {
        if msf + dest_len < frame_count {
            msf + dest_len
        } else {
            0
        }
    } else {
        let w2 = supply_written_count(0, dest_len - w1, frame_count);
        if w2 < frame_count {
            w2
        } else {
            0
        }
    }
}

/// The next absolute frame a looper supply call reports.
pub open spec fn looper_next_frame(start: int, dest_len: int, frame_count: int) -> int {
    unmodulo_spec(looper_inner_next(start, dest_len, frame_count), start, frame_count)
}

/// The inner frame a looper MIDI supply call reports before un-modulo
/// translation. The wrap-around request starts at a negative frame equal
/// to the frames already consumed, so the window ends at the frames taken
/// from the head of the material.
pub open spec fn looper_midi_inner_next(start: int, dest_len: int, fc: int) -> int {
    let msf = start % fc;
    let w1 = supply_written_count(msf, dest_len, fc);
    if w1 == dest_len {
        if msf + dest_len < fc {
            msf + dest_len
        } else {
            0
        }
    } else {
        let w2 = supply_written_count(-w1, dest_len, fc);
        if 0 <= -w1 + w2 < fc {
            -w1 + w2
        } else {
            0
        }
    }
}

/// The frames a looper MIDI supply call consumes: the tail segment, plus,
/// after a wrap, the whole window of the second request (whose silence
/// prefix counts as consumed).
pub open spec fn looper_midi_consumed(start: int, dest_len: int, fc: int) -> int {
    let msf = start % fc;
    let w1 = supply_written_count(msf, dest_len, fc);
    if w1 == dest_len {
        w1
    } else {
        w1 + supply_written_count(-w1, dest_len, fc)
    }
}

/// The events a looper MIDI supply call appends: the events of the tail
/// segment starting at the modulo position, then, after a wrap, the events
/// of a second window issued at a negative start frame so that their
/// offsets continue immediately after the first segment.
pub open spec fn looper_midi_events(
    midi: Seq<crate::supplier::MidiEvent>,
    start: int,
    dest_len: int,
    fc: int,
) -> Seq<crate::supplier::MidiEvent> {
    let msf = start % fc;
    let w1 = supply_written_count(msf, dest_len, fc);
    if w1 == dest_len {
        crate::supplier::midi_window(midi, msf, w1)
    } else {
        crate::supplier::midi_window(midi, msf, w1) + crate::supplier::midi_window(
            midi,
            -w1,
            supply_written_count(-w1, dest_len, fc),
        )
    }
}

/// The sample the looper's splice places at destination offset `i`, before
/// any fade: first the material from the modulo start position, then, past
/// the loop end, the material from frame 0 again; frames beyond both
/// segments keep their old destination value.
pub open spec fn looper_raw_sample(mat: Seq<i64>, start: int, old_dest: Seq<i64>, i: int) -> i64 {
    let fc = mat.len() as int;
    let msf = start % fc;
    let w1 = supply_written_count(msf, old_dest.len() as int, fc);
    let w2 = supply_written_count(0, old_dest.len() - w1, fc);
    if i < w1 {
        mat[msf + i]
    } else if i < w1 + w2 {
        mat[i - w1]
    } else {
        old_dest[i]
    }
}

/// The fade gain at an absolute frame, as a numerator over `FADE_LENGTH`:
/// ramping down inside the last `FADE_LENGTH` frames of each cycle, ramping
/// up inside the first `FADE_LENGTH` frames of every cycle but the first,
/// and unity elsewhere.
pub open spec fn fade_gain_num(frame: int, frame_count: int) -> int {
    let m = frame % frame_count;
    let dist = frame_count - m;
    if dist < FADE_LENGTH {
        dist
    } else if frame >= frame_count && m < FADE_LENGTH {
        m
    } else {
        FADE_LENGTH as int
    }
}

/// A sample scaled by `num / FADE_LENGTH`, rounding toward zero.
pub open spec fn scaled_sample(sample: int, num: int) -> int {
    if sample >= 0 {
        (sample * num) / (FADE_LENGTH as int)
    } else {
        -(((-sample) * num) / (FADE_LENGTH as int))
    }
}

/// The sample a looper supply call places at destination offset `i` in the
/// looping case.
pub open spec fn looper_out_sample(
    mat: Seq<i64>,
    fades: bool,
    start: int,
    old_dest: Seq<i64>,
    i: int,
) -> i64 {
    let raw = looper_raw_sample(mat, start, old_dest, i);
    if fades {
        scaled_sample(raw as int, fade_gain_num(start + i, mat.len() as int)) as i64
    } else {
        raw
    }
}

/// The decorator itself.
pub struct Looper {
    loop_behavior: LoopBehavior,
    fades_enabled: bool,
    supplier: Source,
}

impl Looper {
    /// Well-formed: the inner material is well-formed and non-empty.
    pub open spec fn wf(&self) -> bool {
        &&& self.supplier_spec().wf()
        &&& self.supplier_spec().audio().len() > 0
    }

    pub closed spec fn loop_behavior_spec(&self) -> LoopBehavior {
        self.loop_behavior
    }

    pub closed spec fn fades_enabled_spec(&self) -> bool {
        self.fades_enabled
    }

    pub closed spec fn supplier_spec(&self) -> Source {
        self.supplier
    }

    /// Wraps the given supplier; initially not looping, fades off.
    pub fn new(supplier: Source) -> (l: Looper)
        requires
            supplier.wf(),
            supplier.audio().len() > 0,
        ensures
            l.wf(),
            l.loop_behavior_spec() == LoopBehavior::UntilEndOfCycle(0usize),
            !l.fades_enabled_spec(),
            l.supplier_spec() == supplier,
    {
        Self { loop_behavior: LoopBehavior::default(), fades_enabled: false, supplier }
    }

    /// Converts a pending "loop once more then stop" into "loop forever".
    pub fn reset(&mut self)
        ensures
            final(self).loop_behavior_spec() == match old(self).loop_behavior_spec() {
                LoopBehavior::UntilEndOfCycle(n) => if n > 0 {
                    LoopBehavior::Infinitely
                } else {
                    LoopBehavior::UntilEndOfCycle(0usize)
                },
                LoopBehavior::Infinitely => LoopBehavior::Infinitely,
            },
            final(self).fades_enabled_spec() == old(self).fades_enabled_spec(),
            final(self).supplier_spec() == old(self).supplier_spec(),
    {
        if let LoopBehavior::UntilEndOfCycle(n) = self.loop_behavior {
            if n > 0 {
                self.loop_behavior = LoopBehavior::Infinitely;
            }
        }
    }

    pub fn supplier(&self) -> (s: &Source)
        ensures
            *s == self.supplier_spec(),
    {
        &self.supplier
    }

    pub fn supplier_mut(&mut self) -> (s: &mut Source)
        ensures
            *s == old(self).supplier_spec(),
            final(self).supplier_spec() == *final(s),
            final(self).loop_behavior_spec() == old(self).loop_behavior_spec(),
            final(self).fades_enabled_spec() == old(self).fades_enabled_spec(),
    {
        &mut self.supplier
    }

    pub fn fades_enabled(&self) -> (r: bool)
        ensures
            r == self.fades_enabled_spec(),
    {
        self.fades_enabled
    }

    pub fn set_loop_behavior(&mut self, loop_behavior: LoopBehavior)
        ensures
            final(self).loop_behavior_spec() == loop_behavior,
            final(self).fades_enabled_spec() == old(self).fades_enabled_spec(),
            final(self).supplier_spec() == old(self).supplier_spec(),
    {
        self.loop_behavior = loop_behavior;
    }

    pub fn set_fades_enabled(&mut self, fades_enabled: bool)
        ensures
            final(self).fades_enabled_spec() == fades_enabled,
            final(self).loop_behavior_spec() == old(self).loop_behavior_spec(),
            final(self).supplier_spec() == old(self).supplier_spec(),
    {
        self.fades_enabled = fades_enabled;
    }

    /// The cycle index the given absolute frame falls into.
    pub fn get_cycle_at_frame(&self, frame: usize) -> (c: usize)
        requires
            self.wf(),
        ensures
            c == frame as int / self.supplier_spec().audio().len() as int,
    {
        frame / self.supplier.frame_count()
    }

    fn is_relevant(&self, start_frame: isize) -> (r: bool)
        requires
            self.wf(),
        ensures
            r == loop_is_relevant(
                self.loop_behavior_spec(),
                start_frame as int,
                self.supplier_spec().audio().len() as int,
            ),
    {
        if start_frame < 0 {
            return false;
        }
        let start_frame = start_frame as usize;
        match self.loop_behavior {
            LoopBehavior::Infinitely => true,
            LoopBehavior::UntilEndOfCycle(n) => {
                if n == 0 {
                    false
                } else {
                    self.get_cycle_at_frame(start_frame) <= n
                }
            },
        }
    }
}

impl Looper {
    /// Supplies one block of audio. A request that looping does not apply
    /// to (negative start, or looping off or exhausted at that cycle) is
    /// passed through unmodified. Otherwise the request is rewritten to the
    /// modulo start position; a block crossing the loop end is completed
    /// with material from frame 0, the response reports the destination
    /// fully written, and the next frame is translated into the absolute
    /// cycle-aware frame space. With fades enabled, a linear gain ramp is
    /// applied near the loop boundary.
    pub fn supply_audio(&self, request: &SupplyAudioRequest, dest: &mut AudioBuffer) -> (r:
        SupplyResponse)
        requires
            self.wf(),
            old(dest)@.len() <= MAX_MATERIAL_FRAMES,
            -MAX_START_FRAME <= request.start_frame <= MAX_START_FRAME,
            forall|i: int|
                0 <= i < old(dest)@.len() ==> -MAX_SAMPLE <= #[trigger] old(dest)@[i]
                    <= MAX_SAMPLE,
        ensures
            final(dest)@.len() == old(dest)@.len(),
            forall|i: int|
                0 <= i < final(dest)@.len() ==> -MAX_SAMPLE <= #[trigger] final(dest)@[i]
                    <= MAX_SAMPLE,
            ({
                let mat = self.supplier_spec().audio();
                let fc = mat.len() as int;
                let s = request.start_frame as int;
                let len = old(dest)@.len() as int;
                if !loop_is_relevant(self.loop_behavior_spec(), s, fc) {
                    let w = supply_written_count(s, len, fc);
                    &&& r.num_frames_written == w
                    &&& r.num_frames_consumed == w
                    &&& r.next_inner_frame == crate::supplier::next_inner_frame_spec(s, w, fc)
                    &&& forall|i: int| 0 <= i < w ==> final(dest)@[i] == supplied_sample(mat, s, i)
                    &&& forall|i: int| w <= i < len ==> final(dest)@[i] == old(dest)@[i]
                } else {
                    let msf = s % fc;
                    let w1 = supply_written_count(msf, len, fc);
                    let w2 = supply_written_count(0, len - w1, fc);
                    &&& r.num_frames_written == len
                    &&& r.num_frames_consumed == w1 + w2
                    &&& r.next_inner_frame == Some(looper_next_frame(s, len, fc) as isize)
                    &&& forall|i: int|
                        0 <= i < len ==> final(dest)@[i] == looper_out_sample(
                            mat,
                            self.fades_enabled_spec(),
                            s,
                            old(dest)@,
                            i,
                        )
                }
            }),
    {
        if !self.is_relevant(request.start_frame) {
            let r = self.supplier.supply_audio(request, dest);
            proof {
                crate::supplier::lemma_source_wf(&self.supplier);
                assert forall|i: int| 0 <= i < dest@.len() implies -MAX_SAMPLE
                    <= #[trigger] dest@[i] <= MAX_SAMPLE by {
                    let w = supply_written_count(
                        request.start_frame as int,
                        old(dest)@.len() as int,
                        self.supplier_spec().audio().len() as int,
                    );
                    if i < w {
                        assert(dest@[i] == supplied_sample(
                            self.supplier_spec().audio(),
                            request.start_frame as int,
                            i,
                        ));
                    }
                }
            }
            return r;
        }
        let start_frame = request.start_frame as usize;
        let supplier_frame_count = self.supplier.frame_count();
        proof {
            crate::supplier::lemma_source_wf(&self.supplier);
            lemma_mod_bound(start_frame as int, supplier_frame_count as int);
        }
        // Start from the beginning if the start frame lies after the end
        // (modulo).
        let modulo_start_frame = start_frame % supplier_frame_count;
        let modulo_response = self.supplier.supply_audio_at(modulo_start_frame as isize, dest, 0);
        let final_response = if modulo_response.num_frames_written == dest.frame_count() {
            // Did not cross the end yet. Nothing else to do.
            SupplyResponse {
                num_frames_written: modulo_response.num_frames_written,
                num_frames_consumed: modulo_response.num_frames_consumed,
                next_inner_frame: unmodulo_next_inner_frame(
                    modulo_response.next_inner_frame,
                    start_frame,
                    supplier_frame_count,
                ),
            }
        } else {
            // Crossed the end: fill the rest with material from the
            // beginning of the source.
            let start_response = self.supplier.supply_audio_at(
                0,
                dest,
                modulo_response.num_frames_written,
            );
            SupplyResponse {
                num_frames_written: dest.frame_count(),
                num_frames_consumed: modulo_response.num_frames_consumed
                    + start_response.num_frames_consumed,
                next_inner_frame: unmodulo_next_inner_frame(
                    start_response.next_inner_frame,
                    start_frame,
                    supplier_frame_count,
                ),
            }
        };
        proof {
            assert forall|i: int|
                0 <= i < dest@.len() implies -MAX_SAMPLE <= #[trigger] dest@[i] <= MAX_SAMPLE
                    && dest@[i] == looper_raw_sample(
                    self.supplier_spec().audio(),
                    start_frame as int,
                    old(dest)@,
                    i,
                ) by {
                let mat = self.supplier_spec().audio();
                let fc = mat.len() as int;
                let len = old(dest)@.len() as int;
                let msf = start_frame as int % fc;
                let w1 = supply_written_count(msf, len, fc);
                let w2 = supply_written_count(0, len - w1, fc);
                if i < w1 {
                    assert(dest@[i] == supplied_sample(mat, msf, i));
                } else if i < w1 + w2 {
                    assert(dest@[i] == supplied_sample(mat, 0, i - w1));
                }
            }
        }
        let ghost pre_fade = dest@;
        if self.fades_enabled {
            let dest_len = dest.frame_count();
            let mut i: usize = 0;
            while i < dest_len
                invariant
                    i <= dest_len,
                    dest@.len() == dest_len,
                    dest_len <= MAX_MATERIAL_FRAMES,
                    0 < supplier_frame_count <= MAX_MATERIAL_FRAMES,
                    start_frame <= MAX_START_FRAME,
                    pre_fade.len() == dest_len,
                    forall|j: int|
                        0 <= j < dest_len ==> -MAX_SAMPLE <= #[trigger] pre_fade[j] <= MAX_SAMPLE,
                    forall|j: int|
                        0 <= j < i ==> #[trigger] dest@[j] == scaled_sample(
                            pre_fade[j] as int,
                            fade_gain_num(
                                start_frame as int + j,
                                supplier_frame_count as int,
                            ),
                        ) as i64,
                    forall|j: int|
                        0 <= j < i ==> -MAX_SAMPLE <= #[trigger] dest@[j] <= MAX_SAMPLE,
                    forall|j: int| i <= j < dest_len ==> #[trigger] dest@[j] == pre_fade[j],
                    forall|j: int|
                        0 <= j < dest_len ==> #[trigger] pre_fade[j] == looper_raw_sample(
                            self.supplier_spec().audio(),
                            start_frame as int,
                            old(dest)@,
                            j,
                        ),
                decreases dest_len - i,
            {
                let factor = calc_volume_factor_at(start_frame + i, supplier_frame_count);
                let sample = dest.sample(i);
                dest.set_sample(i, apply_gain(sample, factor));
                i += 1;
            }
        }
        final_response
    }

    /// Supplies MIDI events for one block, with the same splicing logic as
    /// the audio path. The wrap-around request is issued with a negative
    /// start frame equal to the frames already consumed, so the inner
    /// supplier emits the added events with offsets that continue
    /// immediately after the first segment.
    pub fn supply_midi(&self, request: &SupplyMidiRequest, event_list: &mut Vec<MidiEvent>) -> (r:
        SupplyResponse)
        requires
            self.wf(),
            request.dest_frame_count <= MAX_MATERIAL_FRAMES,
            -MAX_START_FRAME <= request.start_frame <= MAX_START_FRAME,
        ensures
            ({
                let midi = self.supplier_spec().midi();
                let fc = self.supplier_spec().audio().len() as int;
                let s = request.start_frame as int;
                let len = request.dest_frame_count as int;
                if !loop_is_relevant(self.loop_behavior_spec(), s, fc) {
                    let w = supply_written_count(s, len, fc);
                    &&& r.num_frames_written == w
                    &&& r.num_frames_consumed == w
                    &&& r.next_inner_frame == crate::supplier::next_inner_frame_spec(s, w, fc)
                    &&& final(event_list)@ == old(event_list)@ + crate::supplier::midi_window(
                        midi,
                        s,
                        w,
                    )
                } else {
                    &&& r.num_frames_written == len
                    &&& r.num_frames_consumed == looper_midi_consumed(s, len, fc)
                    &&& r.next_inner_frame == Some(
                        unmodulo_spec(looper_midi_inner_next(s, len, fc), s, fc) as isize,
                    )
                    &&& final(event_list)@ == old(event_list)@ + looper_midi_events(
                        midi,
                        s,
                        len,
                        fc,
                    )
                }
            }),
    {
        if !self.is_relevant(request.start_frame) {
            return self.supplier.supply_midi(request, event_list);
        }
        let start_frame = request.start_frame as usize;
        let supplier_frame_count = self.supplier.frame_count();
        proof {
            crate::supplier::lemma_source_wf(&self.supplier);
            lemma_mod_bound(start_frame as int, supplier_frame_count as int);
        }
        // Start from the beginning if the start frame lies after the end
        // (modulo).
        let modulo_start_frame = start_frame % supplier_frame_count;
        let modulo_request = SupplyMidiRequest {
            start_frame: modulo_start_frame as isize,
            dest_frame_count: request.dest_frame_count,
        };
        let modulo_response = self.supplier.supply_midi(&modulo_request, event_list);
        if modulo_response.num_frames_written == request.dest_frame_count {
            // Did not cross the end yet. Nothing else to do.
            SupplyResponse {
                num_frames_written: modulo_response.num_frames_written,
                num_frames_consumed: modulo_response.num_frames_consumed,
                next_inner_frame: unmodulo_next_inner_frame(
                    modulo_response.next_inner_frame,
                    start_frame,
                    supplier_frame_count,
                ),
            }
        } else {
            // Crossed the end: fill the rest of the window with events from
            // the beginning of the source. The second request starts at a
            // negative position as long as the material already consumed,
            // so the frame offsets of the added events come out right.
            let start_request = SupplyMidiRequest {
                start_frame: -(modulo_response.num_frames_consumed as isize),
                dest_frame_count: request.dest_frame_count,
            };
            let start_response = self.supplier.supply_midi(&start_request, event_list);
            SupplyResponse {
                num_frames_written: request.dest_frame_count,
                num_frames_consumed: modulo_response.num_frames_consumed
                    + start_response.num_frames_consumed,
                next_inner_frame: unmodulo_next_inner_frame(
                    start_response.next_inner_frame,
                    start_frame,
                    supplier_frame_count,
                ),
            }
        }
    }
}

/// Translates the inner supplier's reported next frame into the absolute
/// cycle-aware frame space. An exhausted inner response stands for inner
/// frame 0 of the following cycle.
fn unmodulo_next_inner_frame(
    next_inner_frame: Option<isize>,
    previous_start_frame: usize,
    frame_count: usize,
) -> (r: Option<isize>)
    requires
        0 < frame_count <= MAX_MATERIAL_FRAMES,
        previous_start_frame <= MAX_START_FRAME,
        match next_inner_frame {
            Some(n) => 0 <= n < frame_count,
            None => true,
        },
    ensures
        r == Some(
            unmodulo_spec(
                match next_inner_frame {
                    Some(n) => n as int,
                    None => 0,
                },
                previous_start_frame as int,
                frame_count as int,
            ) as isize,
        ),
        0 <= unmodulo_spec(
            match next_inner_frame {
                Some(n) => n as int,
                None => 0,
            },
            previous_start_frame as int,
            frame_count as int,
        ) <= previous_start_frame + frame_count,
{
    let next_inner_frame: usize = match next_inner_frame {
        Some(n) => n as usize,
        None => 0,
    };
    let previous_cycle = previous_start_frame / frame_count;
    let previous_modulo_start_frame = previous_start_frame % frame_count;
    proof {
        lemma_fundamental_div_mod(previous_start_frame as int, frame_count as int);
        lemma_mod_bound(previous_start_frame as int, frame_count as int);
        assert(previous_cycle as int * frame_count as int == previous_start_frame as int
            - previous_modulo_start_frame as int);
    }
    let next_cycle = if previous_modulo_start_frame <= next_inner_frame {
        previous_cycle
    } else {
        previous_cycle + 1
    };
    proof {
        assert((previous_cycle as int + 1) * frame_count as int == previous_cycle as int
            * frame_count as int + frame_count as int) by (nonlinear_arith);
        assert(next_cycle as int * frame_count as int <= previous_start_frame as int
            + frame_count as int);
    }
    Some((next_cycle * frame_count + next_inner_frame) as isize)
}

/// The fade gain numerator (over `FADE_LENGTH`) at an absolute frame.
fn calc_volume_factor_at(frame: usize, frame_count: usize) -> (num: usize)
    requires
        0 < frame_count <= MAX_MATERIAL_FRAMES,
        frame <= 2 * MAX_START_FRAME,
    ensures
        num == fade_gain_num(frame as int, frame_count as int),
        num <= FADE_LENGTH,
{
    let modulo_frame = frame % frame_count;
    proof {
        lemma_mod_bound(frame as int, frame_count as int);
    }
    let distance_to_end = frame_count - modulo_frame;
    if distance_to_end < FADE_LENGTH {
        // Approaching loop end: fade out.
        return distance_to_end;
    }
    if frame >= frame_count && modulo_frame < FADE_LENGTH {
        // Continuing at loop start: fade in.
        return modulo_frame;
    }
    FADE_LENGTH
}

/// Scales one sample by `num / FADE_LENGTH`, rounding toward zero.
fn apply_gain(sample: i64, num: usize) -> (r: i64)
    requires
        -MAX_SAMPLE <= sample <= MAX_SAMPLE,
        num <= FADE_LENGTH,
    ensures
        r == scaled_sample(sample as int, num as int),
        -MAX_SAMPLE <= r <= MAX_SAMPLE,
{
    proof {
        lemma_scaled_sample_bounded(sample as int, num as int);
    }
    if sample >= 0 {
        let q = (sample as u64 * num as u64) / (FADE_LENGTH as u64);
        q as i64
    } else {
        let q = ((-sample) as u64 * num as u64) / (FADE_LENGTH as u64);
        -(q as i64)
    }
}

/// The sample of the endlessly looped material at absolute frame `f`.
pub open spec fn looped_frame(mat: Seq<i64>, f: int) -> i64 {
    mat[f % (mat.len() as int)]
}

/// A block of `n` frames of the endlessly looped material starting at
/// absolute frame `start`.
pub open spec fn looped_block(mat: Seq<i64>, start: int, n: int) -> Seq<i64> {
    Seq::new(n as nat, |i: int| looped_frame(mat, start + i))
}

/// Loop continuity: supplying consecutive blocks of arbitrary sizes yields
/// the same concatenated sample sequence as supplying one block equal to
/// the total requested length.
pub proof fn lemma_loop_continuity(mat: Seq<i64>, start: int, a: int, b: int)
    requires
        mat.len() > 0,
        start >= 0,
        a >= 0,
        b >= 0,
    ensures
        looped_block(mat, start, a) + looped_block(mat, start + a, b) == looped_block(
            mat,
            start,
            a + b,
        ),
{
    assert(looped_block(mat, start, a) + looped_block(mat, start + a, b) =~= looped_block(
        mat,
        start,
        a + b,
    ));
}

/// The total frame count of a sequence of block lengths.
pub open spec fn total_len(lens: Seq<int>) -> int
    decreases lens.len(),
{
    if lens.len() == 0 {
        0
    } else {
        total_len(lens.drop_last()) + lens.last()
    }
}

/// The concatenated looped output of consecutive blocks starting at
/// `start`, each block beginning where the previous one ended — which is
/// exactly how a supply sequence chains, since a supply call of fewer
/// frames than one cycle advances the reported next frame by its block
/// length.
pub open spec fn chained_blocks(mat: Seq<i64>, start: int, lens: Seq<int>) -> Seq<i64>
    decreases lens.len(),
{
    if lens.len() == 0 {
        Seq::empty()
    } else {
        chained_blocks(mat, start, lens.drop_last()) + looped_block(
            mat,
            start + total_len(lens.drop_last()),
            lens.last(),
        )
    }
}

proof fn lemma_total_len_nonneg(lens: Seq<int>)
    requires
        forall|k: int| 0 <= k < lens.len() ==> #[trigger] lens[k] >= 0,
    ensures
        total_len(lens) >= 0,
    decreases lens.len(),
{
    if lens.len() > 0 {
        lemma_total_len_nonneg(lens.drop_last());
    }
}

/// Loop continuity over any sequence of supply calls: consecutive blocks
/// of arbitrary sizes, each starting where the previous one ended,
/// concatenate to the same sample sequence as one block of the total
/// requested length.
pub proof fn lemma_loop_continuity_chained(mat: Seq<i64>, start: int, lens: Seq<int>)
    requires
        mat.len() > 0,
        start >= 0,
        forall|k: int| 0 <= k < lens.len() ==> #[trigger] lens[k] >= 0,
    ensures
        chained_blocks(mat, start, lens) == looped_block(mat, start, total_len(lens)),
    decreases lens.len(),
{
    if lens.len() == 0 {
        assert(looped_block(mat, start, 0) =~= Seq::<i64>::empty());
    } else {
        let front = lens.drop_last();
        lemma_loop_continuity_chained(mat, start, front);
        lemma_total_len_nonneg(front);
        lemma_loop_continuity(mat, start, total_len(front), lens.last());
    }
}

/// The splice is seamless: in the looping case, as long as a block wraps
/// around the loop end at most once, the sample placed at each destination
/// offset is exactly the endlessly looped material.
pub proof fn lemma_splice_is_looped_material(mat: Seq<i64>, start: int, old_dest: Seq<i64>, i: int)
    requires
        mat.len() > 0,
        start >= 0,
        0 <= i < old_dest.len(),
        old_dest.len() <= mat.len() + (mat.len() - start % (mat.len() as int)),
    ensures
        looper_raw_sample(mat, start, old_dest, i) == looped_frame(mat, start + i),
{
    let fc = mat.len() as int;
    let msf = start % fc;
    let c = start / fc;
    lemma_fundamental_div_mod(start, fc);
    lemma_mod_bound(start, fc);
    let w1 = supply_written_count(msf, old_dest.len() as int, fc);
    if i < w1 {
        assert(fc * c + (msf + i) == start + i);
        lemma_mod_multiples_vanish(c, msf + i, fc);
        lemma_small_mod((msf + i) as nat, fc as nat);
    } else {
        assert(fc * (c + 1) == fc * c + fc) by (nonlinear_arith);
        assert(fc * (c + 1) + (msf + i - fc) == start + i);
        lemma_mod_multiples_vanish(c + 1, msf + i - fc, fc);
        lemma_small_mod((msf + i - fc) as nat, fc as nat);
    }
}

/// The inner frame a supply call reports always lies within the material:
/// within `[0, frame_count)` for any supplier with finite material.
pub proof fn lemma_inner_frame_in_range(start: int, dest_len: int, fc: int)
    requires
        fc > 0,
        start >= 0,
        dest_len >= 0,
    ensures
        0 <= looper_inner_next(start, dest_len, fc) < fc,
        0 <= looper_midi_inner_next(start, dest_len, fc) < fc,
{
    lemma_mod_bound(start, fc);
}

/// Un-modulo monotonicity: the translated absolute frame never falls
/// behind the start frame it was derived from.
pub proof fn lemma_unmodulo_monotonic(next_inner: int, prev_start: int, fc: int)
    requires
        fc > 0,
        prev_start >= 0,
        0 <= next_inner < fc,
    ensures
        unmodulo_spec(next_inner, prev_start, fc) >= prev_start,
{
    lemma_fundamental_div_mod(prev_start, fc);
    lemma_mod_bound(prev_start, fc);
    assert(fc * (prev_start / fc) == (prev_start / fc) * fc) by (nonlinear_arith);
    assert((prev_start / fc + 1) * fc == prev_start / fc * fc + fc) by (nonlinear_arith);
}

/// Consuming fewer frames than one full cycle translates back to the start
/// frame advanced by exactly the frames consumed.
pub proof fn lemma_unmodulo_advances(prev_start: int, n: int, fc: int)
    requires
        fc > 0,
        prev_start >= 0,
        0 < n < fc,
    ensures
        unmodulo_spec((prev_start + n) % fc, prev_start, fc) == prev_start + n,
{
    let pm = prev_start % fc;
    let pc = prev_start / fc;
    lemma_fundamental_div_mod(prev_start, fc);
    lemma_mod_bound(prev_start, fc);
    assert(fc * pc == pc * fc) by (nonlinear_arith);
    assert((pc + 1) * fc == pc * fc + fc) by (nonlinear_arith);
    if pm + n < fc {
        assert(fc * pc + (pm + n) == prev_start + n);
        lemma_mod_multiples_vanish(pc, pm + n, fc);
        lemma_small_mod((pm + n) as nat, fc as nat);
    } else {
        assert(fc * (pc + 1) == fc * pc + fc) by (nonlinear_arith);
        assert(fc * (pc + 1) + (pm + n - fc) == prev_start + n);
        lemma_mod_multiples_vanish(pc + 1, pm + n - fc, fc);
        lemma_small_mod((pm + n - fc) as nat, fc as nat);
    }
}

/// Across any sequence of supply calls, the reported absolute next frame
/// is non-decreasing: it never falls behind the block's own start frame.
pub proof fn lemma_looper_position_monotonic(start: int, dest_len: int, fc: int)
    requires
        fc > 0,
        start >= 0,
        dest_len >= 0,
    ensures
        looper_next_frame(start, dest_len, fc) >= start,
{
    lemma_mod_bound(start, fc);
    lemma_unmodulo_monotonic(looper_inner_next(start, dest_len, fc), start, fc);
}

/// A supply call of fewer frames than one cycle advances the reported
/// absolute next frame by exactly the block length.
pub proof fn lemma_looper_next_frame_advances(start: int, dest_len: int, fc: int)
    requires
        fc > 0,
        start >= 0,
        0 < dest_len < fc,
    ensures
        looper_next_frame(start, dest_len, fc) == start + dest_len,
{
    let msf = start % fc;
    let pc = start / fc;
    lemma_fundamental_div_mod(start, fc);
    lemma_mod_bound(start, fc);
    let w1 = supply_written_count(msf, dest_len, fc);
    if w1 == dest_len {
        if msf + dest_len < fc {
            assert(fc * pc + (msf + dest_len) == start + dest_len);
            lemma_mod_multiples_vanish(pc, msf + dest_len, fc);
            lemma_small_mod((msf + dest_len) as nat, fc as nat);
        } else {
            assert(msf + dest_len == fc);
            assert(fc * (pc + 1) == fc * pc + fc) by (nonlinear_arith);
            assert(fc * (pc + 1) + 0 == start + dest_len);
            lemma_mod_multiples_vanish(pc + 1, 0, fc);
            lemma_small_mod(0nat, fc as nat);
        }
    } else {
        let w2 = supply_written_count(0, dest_len - w1, fc);
        assert(w2 == dest_len - w1);
        assert(fc * (pc + 1) == fc * pc + fc) by (nonlinear_arith);
        assert(fc * (pc + 1) + (msf + dest_len - fc) == start + dest_len);
        lemma_mod_multiples_vanish(pc + 1, msf + dest_len - fc, fc);
        lemma_small_mod((msf + dest_len - fc) as nat, fc as nat);
    }
    lemma_unmodulo_advances(start, dest_len, fc);
}

/// The reported absolute next frame stays within one cycle of the start
/// frame it was derived from.
pub proof fn lemma_looper_next_frame_bound(start: int, dest_len: int, fc: int)
    requires
        fc > 0,
        start >= 0,
        dest_len >= 0,
    ensures
        start <= looper_next_frame(start, dest_len, fc) <= start + fc,
{
    let pm = start % fc;
    let pc = start / fc;
    lemma_fundamental_div_mod(start, fc);
    lemma_mod_bound(start, fc);
    assert(fc * pc == pc * fc) by (nonlinear_arith);
    assert((pc + 1) * fc == pc * fc + fc) by (nonlinear_arith);
    lemma_unmodulo_monotonic(looper_inner_next(start, dest_len, fc), start, fc);
}

/// The un-modulo translation of an inner frame stays within one cycle of
/// the start frame.
pub proof fn lemma_unmodulo_bound_spec(next_inner: int, prev_start: int, fc: int)
    requires
        fc > 0,
        prev_start >= 0,
        0 <= next_inner < fc,
    ensures
        prev_start <= unmodulo_spec(next_inner, prev_start, fc) <= prev_start + fc,
{
    let pm = prev_start % fc;
    let pc = prev_start / fc;
    lemma_fundamental_div_mod(prev_start, fc);
    lemma_mod_bound(prev_start, fc);
    assert(fc * pc == pc * fc) by (nonlinear_arith);
    assert((pc + 1) * fc == pc * fc + fc) by (nonlinear_arith);
}

/// Fade symmetry: for material long enough that the two ramps do not
/// overlap, the gain at the fade-out midpoint of a cycle equals the gain at
/// the fade-in midpoint of the next cycle, and both are one half.
pub proof fn lemma_fade_symmetry(frame_count: int)
    requires
        2 * FADE_LENGTH <= frame_count,
    ensures
        fade_gain_num(frame_count - FADE_LENGTH / 2, frame_count) == FADE_LENGTH / 2,
        fade_gain_num(frame_count + FADE_LENGTH / 2, frame_count) == FADE_LENGTH / 2,
{
    let fc = frame_count;
    let half = FADE_LENGTH as int / 2;
    lemma_small_mod((fc - half) as nat, fc as nat);
    assert(fc * 1 + half == fc + half);
    lemma_mod_multiples_vanish(1, half, fc);
    lemma_small_mod(half as nat, fc as nat);
}

/// A scaled sample keeps the magnitude of the original.
proof fn lemma_scaled_sample_bounded(sample: int, num: int)
    requires
        -MAX_SAMPLE <= sample <= MAX_SAMPLE,
        0 <= num <= FADE_LENGTH,
    ensures
        sample >= 0 ==> 0 <= scaled_sample(sample, num) <= sample,
        sample < 0 ==> sample <= scaled_sample(sample, num) <= 0,
{
    let fl = FADE_LENGTH as int;
    if sample >= 0 {
        assert(sample * num <= sample * fl) by (nonlinear_arith)
            requires
                sample >= 0,
                num <= fl,
        ;
        assert(0 <= (sample * num) / fl) by (nonlinear_arith)
            requires
                sample >= 0,
                num >= 0,
                fl > 0,
        ;
        assert((sample * num) / fl <= sample) by (nonlinear_arith)
            requires
                sample * num <= sample * fl,
                fl > 0,
                sample >= 0,
        ;
    } else {
        let m = -sample;
        assert(m * num <= m * fl) by (nonlinear_arith)
            requires
                m >= 0,
                num <= fl,
        ;
        assert(0 <= (m * num) / fl) by (nonlinear_arith)
            requires
                m >= 0,
                num >= 0,
                fl > 0,
        ;
        assert((m * num) / fl <= m) by (nonlinear_arith)
            requires
                m * num <= m * fl,
                fl > 0,
                m >= 0,
        ;
    }
}

} // verus!
