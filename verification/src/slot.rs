//! A slot: one playback bay inside a column. A slot holds at most one
//! clip, routes commands to it, and reconciles its play state with host
//! transport changes.

use vstd::prelude::*;

use crate::clip::{
    clip_next_state, Clip, ClipChangedEvent, ClipCommand, ClipPlayArgs, ClipPlayState,
    ClipStopArgs, ClipStopBehavior, SlotInstruction,
};
use crate::api;
use crate::recorder::RecordBehavior;
use crate::supplier::{
    AudioBuffer, MidiEvent, SupplyResponse, MAX_MATERIAL_FRAMES, MAX_SAMPLE, MAX_START_FRAME,
};
use crate::timeline::{TimelineMoment, TransportState};

verus! {

/// How the last play command was issued; a one-bit memory used when the
/// transport jumps or restarts.
#[derive(Clone, Copy, PartialEq, Eq, Structural)]
pub struct LastPlay {
    pub was_synced_to_bar: bool,
}

/// A host transport change the engine reacts to.
#[derive(Clone, Copy, PartialEq, Eq, Structural)]
pub enum TransportChange {
    PlayState(RelevantPlayStateChange),
    PlayCursorJump,
}

/// The transport play-state changes that matter to clip scheduling.
#[derive(Clone, Copy, PartialEq, Eq, Debug, Structural)]
pub enum RelevantPlayStateChange {
    PlayAfterStop,
    StopAfterPlay,
    StopAfterPause,
}

impl RelevantPlayStateChange {
    /// Classifies a transport play-state edge, if it is relevant.
    pub fn from_play_state_change(old_state: TransportState, new: TransportState) -> (r: Option<
        RelevantPlayStateChange,
    >)
        ensures
            r == spec_from_play_state_change(old_state, new),
    {
        if !old_state.is_paused && !old_state.is_playing && new.is_playing {
            Some(RelevantPlayStateChange::PlayAfterStop)
        } else if old_state.is_playing && !new.is_playing && !new.is_paused {
            Some(RelevantPlayStateChange::StopAfterPlay)
        } else if old_state.is_paused && !new.is_playing && !new.is_paused {
            Some(RelevantPlayStateChange::StopAfterPause)
        } else {
            None
        }
    }
}

/// The classification `from_play_state_change` performs.
pub open spec fn spec_from_play_state_change(
    old_state: TransportState,
    new: TransportState,
) -> Option<RelevantPlayStateChange> {
    if !old_state.is_paused && !old_state.is_playing && new.is_playing {
        Some(RelevantPlayStateChange::PlayAfterStop)
    } else if old_state.is_playing && !new.is_playing && !new.is_paused {
        Some(RelevantPlayStateChange::StopAfterPlay)
    } else if old_state.is_paused && !new.is_playing && !new.is_paused {
        Some(RelevantPlayStateChange::StopAfterPause)
    } else {
        None
    }
}

/// Arguments of a transport-change notification.
#[derive(Clone, Copy, PartialEq, Eq, Structural)]
pub struct SlotProcessTransportChangeArgs {
    pub change: TransportChange,
    pub moment: TimelineMoment,
}

/// A single playback bay holding at most one clip.
pub struct Slot {
    clip: Option<Clip>,
    descriptor: Option<api::Clip>,
    last_play_state: ClipPlayState,
    last_play: Option<LastPlay>,
    stop_was_caused_by_transport_change: bool,
}

impl Slot {
    pub closed spec fn clip_spec(&self) -> Option<Clip> {
        self.clip
    }

    pub closed spec fn last_play_state_spec(&self) -> ClipPlayState {
        self.last_play_state
    }

    pub closed spec fn last_play_spec(&self) -> Option<LastPlay> {
        self.last_play
    }

    pub closed spec fn stop_by_transport_spec(&self) -> bool {
        self.stop_was_caused_by_transport_change
    }

    pub closed spec fn descriptor_spec(&self) -> Option<api::Clip> {
        self.descriptor
    }

    pub closed spec fn wf(&self) -> bool {
        match self.clip {
            Some(c) => c.wf(),
            None => true,
        }
    }

    /// An empty slot.
    pub fn new() -> (s: Slot)
        ensures
            s.wf(),
            s.clip_spec() is None,
            s.last_play_spec() is None,
            !s.stop_by_transport_spec(),
            s.last_play_state_spec() == ClipPlayState::Stopped,
    {
        Slot {
            clip: None,
            descriptor: None,
            last_play_state: ClipPlayState::Stopped,
            last_play: None,
            stop_was_caused_by_transport_change: false,
        }
    }

    /// Fills the slot with a clip, replacing any previous one.
    pub fn fill(&mut self, clip: Clip)
        requires
            old(self).wf(),
            clip.wf(),
        ensures
            final(self).wf(),
            final(self).clip_spec() == Some(clip),
            final(self).descriptor_spec() == old(self).descriptor_spec(),
            final(self).last_play_spec() == old(self).last_play_spec(),
            final(self).stop_by_transport_spec() == old(self).stop_by_transport_spec(),
            final(self).last_play_state_spec() == old(self).last_play_state_spec(),
    {
        self.clip = Some(clip);
    }

    /// Fills the slot with a clip together with the persisted form it was
    /// loaded from, so the slot can be saved again.
    pub fn fill_with_descriptor(&mut self, clip: Clip, descriptor: api::Clip)
        requires
            old(self).wf(),
            clip.wf(),
        ensures
            final(self).wf(),
            final(self).clip_spec() == Some(clip),
            final(self).descriptor_spec() == Some(descriptor),
            final(self).last_play_spec() == old(self).last_play_spec(),
            final(self).stop_by_transport_spec() == old(self).stop_by_transport_spec(),
            final(self).last_play_state_spec() == old(self).last_play_state_spec(),
    {
        self.clip = Some(clip);
        self.descriptor = Some(descriptor);
    }

    /// The persisted form of this slot: its stored descriptor brought up
    /// to date with the live clip's repeat flag and volume. A slot without
    /// both a clip and a descriptor is omitted from saving.
    pub fn save(&self, row: usize) -> (r: Option<api::Slot>)
        requires
            self.wf(),
        ensures
            r == spec_slot_save(*self, row as int),
    {
        match (&self.clip, &self.descriptor) {
            (Some(c), Some(d)) => {
                let mut saved = d.duplicate();
                saved.looped = c.looped();
                saved.volume = c.volume();
                Some(api::Slot { row, clip: Some(saved) })
            },
            _ => None,
        }
    }

    pub fn is_filled(&self) -> (r: bool)
        ensures
            r == (self.clip_spec() is Some),
    {
        self.clip.is_some()
    }

    /// The clip's play state; an empty slot reports `Stopped`.
    pub fn play_state(&self) -> (s: ClipPlayState)
        ensures
            s == match self.clip_spec() {
                Some(c) => c.state_spec(),
                None => ClipPlayState::Stopped,
            },
    {
        match &self.clip {
            Some(c) => c.play_state(),
            None => ClipPlayState::Stopped,
        }
    }

    /// Plays the clip, remembering whether the play was synced to a bar.
    /// An empty slot reports an error and changes nothing else.
    pub fn play_clip(&mut self, args: ClipPlayArgs) -> (r: Result<(), &'static str>)
        requires
            old(self).wf(),
            match args.from_bar {
                Some(t) => 0 <= t <= MAX_START_FRAME,
                None => true,
            },
        ensures
            final(self).wf(),
            r is Ok <==> old(self).clip_spec() is Some,
            final(self).last_play_spec() == Some(
                LastPlay { was_synced_to_bar: args.from_bar is Some },
            ),
            final(self).stop_by_transport_spec() == old(self).stop_by_transport_spec(),
            final(self).last_play_state_spec() == old(self).last_play_state_spec(),
            ({
                match old(self).clip_spec() {
                    Some(c) => {
                        &&& final(self).clip_spec() matches Some(c2)
                        &&& c2.state_spec() == clip_next_state(
                            c.state_spec(),
                            ClipCommand::Play { quantized: args.from_bar is Some },
                        )
                        &&& c2.play_target_spec() == (if args.from_bar is Some {
                            args.from_bar
                        } else {
                            Option::<isize>::None
                        })
                        &&& c2.pos_spec() == (if args.from_bar is None {
                            0isize
                        } else {
                            c.pos_spec()
                        })
                        &&& c2.looper_spec() == c.looper_spec()
                        &&& c2.volume_spec() == c.volume_spec()
                        &&& c2.looped_spec() == c.looped_spec()
                    },
                    None => final(self).clip_spec() is None,
                }
            }),
    {
        self.last_play = Some(LastPlay { was_synced_to_bar: args.from_bar.is_some() });
        match &mut self.clip {
            Some(c) => {
                c.play(args);
                Ok(())
            },
            None => Err(SLOT_NOT_FILLED),
        }
    }

    /// Stops the clip as a user action (so a later transport start will
    /// not re-arm it). An empty slot reports an error. A stop that aborts
    /// a recording which never produced material clears the slot.
    pub fn stop_clip(&mut self, args: ClipStopArgs) -> (r: Result<(), &'static str>)
        requires
            old(self).wf(),
            match args.stop_behavior {
                ClipStopBehavior::Quantized(t) => 0 <= t <= MAX_START_FRAME,
                ClipStopBehavior::Immediately => true,
            },
        ensures
            final(self).wf(),
            r is Ok <==> old(self).clip_spec() is Some,
            !final(self).stop_by_transport_spec(),
            final(self).last_play_spec() == old(self).last_play_spec(),
            final(self).last_play_state_spec() == old(self).last_play_state_spec(),
            ({
                match old(self).clip_spec() {
                    Some(c) => {
                        if !c.has_material_spec() {
                            final(self).clip_spec() is None
                        } else {
                            &&& final(self).clip_spec() matches Some(c2)
                            &&& c2.state_spec() == clip_next_state(
                                c.state_spec(),
                                ClipCommand::Stop {
                                    quantized: args.stop_behavior matches
                                        ClipStopBehavior::Quantized(_)
                                        && c.state_spec().is_advancing_spec(),
                                },
                            )
                            &&& c2.recorder_spec() is None
                            &&& c2.looper_spec() == c.looper_spec()
                        }
                    },
                    None => final(self).clip_spec() is None,
                }
            }),
    {
        self.stop_was_caused_by_transport_change = false;
        match &mut self.clip {
            Some(c) => {
                if c.stop(args) == SlotInstruction::ClearSlot {
                    self.clip = None;
                }
                Ok(())
            },
            None => Err(SLOT_NOT_FILLED),
        }
    }

    /// Sets whether the clip repeats. An empty slot reports an error.
    pub fn set_clip_repeated(&mut self, repeated: bool) -> (r: Result<(), &'static str>)
        requires
            old(self).wf(),
        ensures
            final(self).wf(),
            r is Ok <==> old(self).clip_spec() is Some,
            final(self).last_play_spec() == old(self).last_play_spec(),
            final(self).stop_by_transport_spec() == old(self).stop_by_transport_spec(),
            ({
                match old(self).clip_spec() {
                    Some(c) => {
                        &&& final(self).clip_spec() matches Some(c2)
                        &&& c2.looped_spec() == repeated
                        &&& c2.state_spec() == c.state_spec()
                        &&& c2.pos_spec() == c.pos_spec()
                    },
                    None => final(self).clip_spec() is None,
                }
            }),
    {
        match &mut self.clip {
            Some(c) => {
                c.set_repeated(repeated);
                Ok(())
            },
            None => Err(SLOT_NOT_FILLED),
        }
    }

    /// Starts recording into this slot: a normal recording on an empty
    /// slot creates a recording clip; on a filled slot it records into the
    /// existing clip. A MIDI overdub needs a filled slot.
    pub fn record_clip(&mut self, behavior: RecordBehavior, frame_rate: u32) -> (r: Result<
        (),
        &'static str,
    >)
        requires
            old(self).wf(),
        ensures
            final(self).wf(),
            r is Ok <==> (old(self).clip_spec() is Some || behavior matches
                RecordBehavior::Normal { .. }),
            final(self).last_play_spec() == old(self).last_play_spec(),
            final(self).stop_by_transport_spec() == old(self).stop_by_transport_spec(),
            r is Ok ==> (final(self).clip_spec() matches Some(c2) && (c2.recorder_spec() matches
                Some(rec) && rec.frames_spec().len() == 0 && rec.events_spec().len() == 0
                && rec.behavior_spec() == behavior && rec.frame_rate_spec() == frame_rate)),
            r is Err ==> *final(self) == *old(self) && r == Result::<(), &'static str>::Err(
                SLOT_NOT_FILLED,
            ),
    {
        match &mut self.clip {
            Some(c) => {
                c.record(behavior, frame_rate);
                Ok(())
            },
            None => {
                match behavior {
                    RecordBehavior::Normal { .. } => {
                        self.clip = Some(Clip::from_recording(behavior, frame_rate));
                        Ok(())
                    },
                    RecordBehavior::MidiOverdub => Err(SLOT_NOT_FILLED),
                }
            },
        }
    }

    /// Finalizes the clip's recording in progress; see the clip-level
    /// finalization for what each behavior does.
    pub fn finish_recording(&mut self) -> (r: Result<usize, &'static str>)
        requires
            old(self).wf(),
        ensures
            final(self).wf(),
            final(self).last_play_spec() == old(self).last_play_spec(),
            final(self).stop_by_transport_spec() == old(self).stop_by_transport_spec(),
            r is Ok ==> (old(self).clip_spec() matches Some(c) && c.recorder_spec() is Some),
            final(self).clip_spec() is Some <==> old(self).clip_spec() is Some,
            ({
                match old(self).clip_spec() {
                    Some(c) => {
                        &&& final(self).clip_spec() matches Some(c2)
                        &&& c2.recorder_spec() is None
                        &&& (match c.recorder_spec() {
                            Some(rec) => match rec.behavior_spec() {
                                crate::recorder::RecordBehavior::Normal { play_after } => {
                                    if rec.frames_spec().len() > 0 {
                                        &&& r == Result::<usize, &'static str>::Ok(
                                            rec.frames_spec().len() as usize,
                                        )
                                        &&& c2.material() == rec.frames_spec()
                                        &&& c2.state_spec() == (if play_after {
                                            ClipPlayState::Playing
                                        } else {
                                            ClipPlayState::Stopped
                                        })
                                    } else {
                                        r is Err
                                    }
                                },
                                crate::recorder::RecordBehavior::MidiOverdub => {
                                    &&& r == Result::<usize, &'static str>::Ok(
                                        c.material().len() as usize,
                                    )
                                    &&& c2.material() == c.material()
                                    &&& c2.state_spec() == c.state_spec()
                                },
                            },
                            None => r is Err && *final(self) == *old(self),
                        })
                    },
                    None => r is Err && final(self).clip_spec() is None,
                }
            }),
    {
        match &mut self.clip {
            Some(c) => c.finish_recording(),
            None => Err(SLOT_NOT_FILLED),
        }
    }

    /// Pauses the clip. An empty slot reports an error.
    pub fn pause_clip(&mut self) -> (r: Result<(), &'static str>)
        requires
            old(self).wf(),
        ensures
            final(self).wf(),
            r is Ok <==> old(self).clip_spec() is Some,
            final(self).last_play_spec() == old(self).last_play_spec(),
            final(self).stop_by_transport_spec() == old(self).stop_by_transport_spec(),
            ({
                match old(self).clip_spec() {
                    Some(c) => {
                        &&& final(self).clip_spec() matches Some(c2)
                        &&& c2.state_spec() == clip_next_state(c.state_spec(), ClipCommand::Pause)
                        &&& c2.pos_spec() == c.pos_spec()
                        &&& c2.looper_spec() == c.looper_spec()
                    },
                    None => final(self).clip_spec() is None,
                }
            }),
    {
        match &mut self.clip {
            Some(c) => {
                c.pause();
                Ok(())
            },
            None => Err(SLOT_NOT_FILLED),
        }
    }

    /// Seeks the clip to a proportional position, in thousandths. An
    /// empty slot reports an error.
    pub fn seek_clip(&mut self, proportional_pos: u32) -> (r: Result<(), &'static str>)
        requires
            old(self).wf(),
            proportional_pos <= 1000,
        ensures
            final(self).wf(),
            r is Ok <==> old(self).clip_spec() is Some,
            final(self).last_play_spec() == old(self).last_play_spec(),
            final(self).stop_by_transport_spec() == old(self).stop_by_transport_spec(),
            ({
                match old(self).clip_spec() {
                    Some(c) => {
                        &&& final(self).clip_spec() matches Some(c2)
                        &&& c2.state_spec() == c.state_spec()
                        &&& c2.pos_spec() == proportional_pos as int * c.material().len() as int
                            / 1000
                        &&& c2.looper_spec() == c.looper_spec()
                    },
                    None => final(self).clip_spec() is None,
                }
            }),
    {
        match &mut self.clip {
            Some(c) => {
                c.seek(proportional_pos);
                Ok(())
            },
            None => Err(SLOT_NOT_FILLED),
        }
    }

    /// Sets the clip volume. An empty slot reports an error.
    pub fn set_clip_volume(&mut self, volume: u32) -> (r: Result<ClipChangedEvent, &'static str>)
        requires
            old(self).wf(),
            volume <= crate::clip::MAX_VOLUME,
        ensures
            final(self).wf(),
            r is Ok <==> old(self).clip_spec() is Some,
            final(self).last_play_spec() == old(self).last_play_spec(),
            final(self).stop_by_transport_spec() == old(self).stop_by_transport_spec(),
            ({
                match old(self).clip_spec() {
                    Some(c) => {
                        &&& final(self).clip_spec() matches Some(c2)
                        &&& c2.volume_spec() == volume
                        &&& c2.state_spec() == c.state_spec()
                        &&& c2.pos_spec() == c.pos_spec()
                        &&& c2.looper_spec() == c.looper_spec()
                        &&& r == Result::<ClipChangedEvent, &'static str>::Ok(
                            ClipChangedEvent::ClipVolume(volume),
                        )
                    },
                    None => final(self).clip_spec() is None,
                }
            }),
    {
        match &mut self.clip {
            Some(c) => Ok(c.set_volume(volume)),
            None => Err(SLOT_NOT_FILLED),
        }
    }

    /// Appends incoming MIDI to the clip's recording in progress.
    pub fn write_clip_midi(&mut self, events: &Vec<MidiEvent>) -> (r: Result<(), &'static str>)
        requires
            old(self).wf(),
        ensures
            final(self).wf(),
            r is Ok <==> (old(self).clip_spec() matches Some(c) && c.recorder_spec() is Some),
            final(self).last_play_spec() == old(self).last_play_spec(),
            final(self).stop_by_transport_spec() == old(self).stop_by_transport_spec(),
            r is Err ==> *final(self) == *old(self),
            r is Ok ==> ({
                let c = old(self).clip_spec()->Some_0;
                let rec = c.recorder_spec()->Some_0;
                &&& final(self).clip_spec() matches Some(c2)
                &&& c2.state_spec() == c.state_spec()
                &&& c2.pos_spec() == c.pos_spec()
                &&& c2.looper_spec() == c.looper_spec()
                &&& (c2.recorder_spec() matches Some(rec2)
                    && rec2.events_spec() == rec.events_spec() + events@
                    && rec2.frames_spec() == rec.frames_spec()
                    && rec2.behavior_spec() == rec.behavior_spec())
            }),
    {
        match &mut self.clip {
            Some(c) => {
                if c.write_midi(events) {
                    Ok(())
                } else {
                    Err(SLOT_NOT_FILLED)
                }
            },
            None => Err(SLOT_NOT_FILLED),
        }
    }

    /// Appends incoming audio to the clip's recording in progress.
    pub fn write_clip_audio(&mut self, samples: &Vec<i64>) -> (r: Result<(), &'static str>)
        requires
            old(self).wf(),
        ensures
            final(self).wf(),
            r is Ok <==> (old(self).clip_spec() matches Some(c) && c.recorder_spec() is Some),
            final(self).last_play_spec() == old(self).last_play_spec(),
            final(self).stop_by_transport_spec() == old(self).stop_by_transport_spec(),
            r is Err ==> *final(self) == *old(self),
            r is Ok ==> ({
                let c = old(self).clip_spec()->Some_0;
                let rec = c.recorder_spec()->Some_0;
                let room = crate::supplier::MAX_MATERIAL_FRAMES - rec.frames_spec().len();
                let taken = if samples@.len() <= room {
                    samples@.len() as int
                } else {
                    room as int
                };
                &&& final(self).clip_spec() matches Some(c2)
                &&& c2.state_spec() == c.state_spec()
                &&& c2.pos_spec() == c.pos_spec()
                &&& c2.looper_spec() == c.looper_spec()
                &&& (c2.recorder_spec() matches Some(rec2) && ({
                    &&& rec2.frames_spec().len() == rec.frames_spec().len() + taken
                    &&& (forall|i: int|
                        0 <= i < rec.frames_spec().len() ==> rec2.frames_spec()[i]
                            == rec.frames_spec()[i])
                    &&& (forall|i: int|
                        0 <= i < taken ==> rec2.frames_spec()[rec.frames_spec().len() + i]
                            == crate::recorder::clamped_sample(samples@[i]))
                    &&& rec2.events_spec() == rec.events_spec()
                    &&& rec2.behavior_spec() == rec.behavior_spec()
                }))
            }),
    {
        match &mut self.clip {
            Some(c) => {
                if c.write_audio(samples) {
                    Ok(())
                } else {
                    Err(SLOT_NOT_FILLED)
                }
            },
            None => Err(SLOT_NOT_FILLED),
        }
    }
}

/// How one slot reconciles with a host transport change: the relation
/// between the slot before and after `process_transport_change`.
pub open spec fn spec_slot_transport_processed(
    s0: Slot,
    s1: Slot,
    args: SlotProcessTransportChangeArgs,
) -> bool {
    &&& s1.last_play_spec() == s0.last_play_spec()
    &&& s1.last_play_state_spec() == s0.last_play_state_spec()
    &&& match (s0.clip_spec(), s0.last_play_spec()) {
        (Some(c), Some(lp)) => {
            match args.change {
                TransportChange::PlayState(rel) => {
                    let rearm = rel == RelevantPlayStateChange::PlayAfterStop && c.state_spec()
                        == ClipPlayState::Stopped && s0.stop_by_transport_spec();
                    let memorize = rel == RelevantPlayStateChange::StopAfterPlay
                        && c.state_spec().is_advancing_spec() && lp.was_synced_to_bar;
                    if rearm {
                        // Re-armed: scheduled to start at the next bar.
                        &&& s1.clip_spec() matches Some(c2)
                        &&& c2.state_spec() == ClipPlayState::ScheduledForPlay
                        &&& c2.play_target_spec() == Some(args.moment.next_bar_pos)
                        &&& c2.looper_spec() == c.looper_spec()
                        &&& s1.stop_by_transport_spec() == s0.stop_by_transport_spec()
                    } else {
                        // Stopped immediately; the memory keeps only a
                        // transport-caused stop of a bar-synced clip in
                        // motion.
                        &&& s1.stop_by_transport_spec() == memorize
                        &&& (if !c.has_material_spec() {
                            s1.clip_spec() is None
                        } else {
                            &&& s1.clip_spec() matches Some(c2)
                            &&& c2.state_spec() == ClipPlayState::Stopped
                            &&& c2.pos_spec() == 0
                            &&& c2.looper_spec() == c.looper_spec()
                        })
                    }
                },
                TransportChange::PlayCursorJump => {
                    let resync = lp.was_synced_to_bar && c.state_spec().is_advancing_spec();
                    if resync {
                        &&& s1.clip_spec() matches Some(c2)
                        &&& c2.state_spec() == clip_next_state(
                            c.state_spec(),
                            ClipCommand::Play { quantized: true },
                        )
                        &&& c2.play_target_spec() == Some(args.moment.next_bar_pos)
                        &&& c2.looper_spec() == c.looper_spec()
                        &&& s1.stop_by_transport_spec() == s0.stop_by_transport_spec()
                    } else {
                        s1 == s0
                    }
                },
            }
        },
        _ => s1 == s0,
    }
}

impl Slot {
    /// Reconciles the clip's play state with a host transport change.
    ///
    /// - After the transport starts from stopped, a clip that was itself
    ///   stopped by a previous transport stop is re-armed to start at the
    ///   next bar; any other clip is stopped and the memory cleared.
    /// - After the transport stops from playing, the clip is stopped
    ///   immediately; whether the stop came from the transport is
    ///   remembered only for a bar-synced clip that was in motion.
    /// - After the transport stops from paused, the clip is stopped and
    ///   the memory cleared.
    /// - After a bare cursor jump, a bar-synced clip in motion is
    ///   rescheduled to resume at the next bar boundary.
    pub fn process_transport_change(&mut self, args: &SlotProcessTransportChangeArgs)
        requires
            old(self).wf(),
            0 <= args.moment.next_bar_pos <= MAX_START_FRAME,
        ensures
            final(self).wf(),
            spec_slot_transport_processed(*old(self), *final(self), *args),
            final(self).last_play_spec() == old(self).last_play_spec(),
            final(self).last_play_state_spec() == old(self).last_play_state_spec(),
            ({
                match (old(self).clip_spec(), old(self).last_play_spec()) {
                    (Some(c), Some(lp)) => {
                        match args.change {
                            TransportChange::PlayState(rel) => {
                                let rearm = rel == RelevantPlayStateChange::PlayAfterStop
                                    && c.state_spec() == ClipPlayState::Stopped && old(
                                    self,
                                ).stop_by_transport_spec();
                                let memorize = rel == RelevantPlayStateChange::StopAfterPlay
                                    && c.state_spec().is_advancing_spec()
                                    && lp.was_synced_to_bar;
                                if rearm {
                                    // Re-armed: scheduled to start at the
                                    // next bar.
                                    &&& final(self).clip_spec() matches Some(c2)
                                    &&& c2.state_spec() == ClipPlayState::ScheduledForPlay
                                    &&& c2.play_target_spec() == Some(args.moment.next_bar_pos)
                                    &&& c2.looper_spec() == c.looper_spec()
                                    &&& final(self).stop_by_transport_spec() == old(
                                        self,
                                    ).stop_by_transport_spec()
                                } else {
                                    // Stopped immediately; the memory keeps
                                    // only a transport-caused stop of a
                                    // bar-synced clip in motion.
                                    &&& final(self).stop_by_transport_spec() == memorize
                                    &&& (if !c.has_material_spec() {
                                        final(self).clip_spec() is None
                                    } else {
                                        &&& final(self).clip_spec() matches Some(c2)
                                        &&& c2.state_spec() == ClipPlayState::Stopped
                                        &&& c2.pos_spec() == 0
                                        &&& c2.looper_spec() == c.looper_spec()
                                    })
                                }
                            },
                            TransportChange::PlayCursorJump => {
                                let resync = lp.was_synced_to_bar
                                    && c.state_spec().is_advancing_spec();
                                if resync {
                                    &&& final(self).clip_spec() matches Some(c2)
                                    &&& c2.state_spec() == clip_next_state(
                                        c.state_spec(),
                                        ClipCommand::Play { quantized: true },
                                    )
                                    &&& c2.play_target_spec() == Some(args.moment.next_bar_pos)
                                    &&& c2.looper_spec() == c.looper_spec()
                                    &&& final(self).stop_by_transport_spec() == old(
                                        self,
                                    ).stop_by_transport_spec()
                                } else {
                                    *final(self) == *old(self)
                                }
                            },
                        }
                    },
                    _ => *final(self) == *old(self),
                }
            }),
    {
        let slot_instruction = {
            let clip = match &mut self.clip {
                None => {
                    return ;
                },
                Some(c) => c,
            };
            match args.change {
                TransportChange::PlayState(rel_change) => {
                    // Only relevant once the clip was started at least
                    // once.
                    let last_play = match self.last_play {
                        None => {
                            return ;
                        },
                        Some(a) => a,
                    };
                    let state = clip.play_state();
                    match rel_change {
                        RelevantPlayStateChange::PlayAfterStop => {
                            match state {
                                ClipPlayState::Stopped if self
                                    .stop_was_caused_by_transport_change => {
                                    // The transport was started from
                                    // stopped, and the clip is stopped
                                    // because of a previous transport
                                    // stop: play it again.
                                    let play_args = ClipPlayArgs {
                                        from_bar: Some(args.moment.next_bar()),
                                    };
                                    clip.play(play_args);
                                    SlotInstruction::KeepSlot
                                },
                                _ => {
                                    // Stop and forget.
                                    stop_clip_by_transport(
                                        clip,
                                        &mut self.stop_was_caused_by_transport_change,
                                        false,
                                    )
                                },
                            }
                        },
                        RelevantPlayStateChange::StopAfterPlay => {
                            if state.is_advancing() && last_play.was_synced_to_bar {
                                // Stop and memorize.
                                stop_clip_by_transport(
                                    clip,
                                    &mut self.stop_was_caused_by_transport_change,
                                    true,
                                )
                            } else {
                                // Stop and forget.
                                stop_clip_by_transport(
                                    clip,
                                    &mut self.stop_was_caused_by_transport_change,
                                    false,
                                )
                            }
                        },
                        RelevantPlayStateChange::StopAfterPause => {
                            stop_clip_by_transport(
                                clip,
                                &mut self.stop_was_caused_by_transport_change,
                                false,
                            )
                        },
                    }
                },
                TransportChange::PlayCursorJump => {
                    // The play cursor was repositioned.
                    let last_play = match self.last_play {
                        None => {
                            return ;
                        },
                        Some(a) => a,
                    };
                    if !last_play.was_synced_to_bar {
                        return ;
                    }
                    let play_state = clip.play_state();
                    if !play_state.is_advancing() {
                        return ;
                    }
                    clip.play(ClipPlayArgs { from_bar: Some(args.moment.next_bar()) });
                    SlotInstruction::KeepSlot
                },
            }
        };
        if slot_instruction == SlotInstruction::ClearSlot {
            self.clip = None;
        }
    }
}

/// Stops a clip because of a transport change, remembering whether the
/// stop should re-arm the clip when the transport starts again.
fn stop_clip_by_transport(
    clip: &mut Clip,
    stop_memory: &mut bool,
    keep_starting_with_transport: bool,
) -> (instruction: SlotInstruction)
    requires
        old(clip).wf(),
    ensures
        final(clip).wf(),
        *final(stop_memory) == keep_starting_with_transport,
        final(clip).state_spec() == ClipPlayState::Stopped,
        final(clip).pos_spec() == 0,
        final(clip).recorder_spec() is None,
        final(clip).looper_spec() == old(clip).looper_spec(),
        final(clip).volume_spec() == old(clip).volume_spec(),
        final(clip).looped_spec() == old(clip).looped_spec(),
        final(clip).has_material_spec() == old(clip).has_material_spec(),
        instruction == (if !old(clip).has_material_spec() {
            SlotInstruction::ClearSlot
        } else {
            SlotInstruction::KeepSlot
        }),
{
    *stop_memory = keep_starting_with_transport;
    clip.stop(ClipStopArgs { stop_behavior: ClipStopBehavior::Immediately })
}

/// How one slot advances across one tick resolution: a due scheduled
/// play or stop completes against the moment's cursor, the last reported
/// play state follows, and everything else stays put.
pub open spec fn spec_slot_resolved(s0: Slot, s1: Slot, moment: TimelineMoment) -> bool {
    &&& s1.last_play_spec() == s0.last_play_spec()
    &&& s1.stop_by_transport_spec() == s0.stop_by_transport_spec()
    &&& match s0.clip_spec() {
        Some(c) => {
            &&& s1.clip_spec() matches Some(c2)
            &&& c2.looper_spec() == c.looper_spec()
            &&& c2.volume_spec() == c.volume_spec()
            &&& c2.looped_spec() == c.looped_spec()
            &&& ({
                let due_play = c.state_spec() == ClipPlayState::ScheduledForPlay && (match
                    c.play_target_spec() {
                    Some(t) => moment.cursor_pos >= t,
                    None => true,
                });
                let due_stop = c.state_spec() == ClipPlayState::ScheduledForStop && (match
                    c.stop_target_spec() {
                    Some(t) => moment.cursor_pos >= t,
                    None => true,
                });
                let new_state = if due_play {
                    ClipPlayState::Playing
                } else if due_stop {
                    ClipPlayState::Stopped
                } else {
                    c.state_spec()
                };
                &&& c2.state_spec() == new_state
                &&& s1.last_play_state_spec() == new_state
            })
        },
        None => s1 == s0,
    }
}

impl Slot {
    /// The slot's part of the real-time tick: resolves due scheduled
    /// transitions against the timeline moment and reports a play-state
    /// change once, comparing against the last state reported.
    pub fn process(&mut self, moment: &TimelineMoment) -> (changed: Option<ClipPlayState>)
        requires
            old(self).wf(),
        ensures
            final(self).wf(),
            spec_slot_resolved(*old(self), *final(self), *moment),
            final(self).last_play_spec() == old(self).last_play_spec(),
            final(self).stop_by_transport_spec() == old(self).stop_by_transport_spec(),
            ({
                match old(self).clip_spec() {
                    Some(c) => {
                        &&& final(self).clip_spec() matches Some(c2)
                        &&& c2.looper_spec() == c.looper_spec()
                        &&& c2.volume_spec() == c.volume_spec()
                        &&& c2.looped_spec() == c.looped_spec()
                        &&& ({
                            let due_play = c.state_spec() == ClipPlayState::ScheduledForPlay
                                && (match c.play_target_spec() {
                                Some(t) => moment.cursor_pos >= t,
                                None => true,
                            });
                            let due_stop = c.state_spec() == ClipPlayState::ScheduledForStop
                                && (match c.stop_target_spec() {
                                Some(t) => moment.cursor_pos >= t,
                                None => true,
                            });
                            let new_state = if due_play {
                                ClipPlayState::Playing
                            } else if due_stop {
                                ClipPlayState::Stopped
                            } else {
                                c.state_spec()
                            };
                            &&& c2.state_spec() == new_state
                            &&& final(self).last_play_state_spec() == new_state
                            &&& changed == (if new_state != old(self).last_play_state_spec() {
                                Some(new_state)
                            } else {
                                Option::<ClipPlayState>::None
                            })
                        })
                    },
                    None => {
                        &&& *final(self) == *old(self)
                        &&& changed is None
                    },
                }
            }),
    {
        let clip = match &mut self.clip {
            Some(c) => c,
            None => {
                return None;
            },
        };
        let _ = clip.tick_state(moment);
        let play_state = clip.play_state();
        if play_state != self.last_play_state {
            self.last_play_state = play_state;
            Some(play_state)
        } else {
            None
        }
    }
}

/// How one slot's supply call relates its state and the destination
/// buffer before and after, and how many frames it reports written: a
/// playing (or stop-scheduled) clip produces the looper's output and
/// advances; non-looping material runs out and stops the clip; a quiescent
/// clip, or one past the engine's position limit, produces nothing.
pub open spec fn spec_slot_supplied(
    s0: Slot,
    s1: Slot,
    dest0: Seq<i64>,
    dest1: Seq<i64>,
    written: int,
) -> bool {
    &&& s1.last_play_spec() == s0.last_play_spec()
    &&& s1.stop_by_transport_spec() == s0.stop_by_transport_spec()
    &&& s1.last_play_state_spec() == s0.last_play_state_spec()
    &&& dest1.len() == dest0.len()
    &&& match s0.clip_spec() {
        Some(c) => {
            &&& s1.clip_spec() matches Some(c2)
            &&& c2.looper_spec() == c.looper_spec()
            &&& c2.volume_spec() == c.volume_spec()
            &&& c2.looped_spec() == c.looped_spec()
            &&& c2.recorder_spec() == c.recorder_spec()
            &&& ({
                let supplying = c.state_spec() == ClipPlayState::Playing || c.state_spec()
                    == ClipPlayState::ScheduledForStop;
                let s = c.pos_spec() as int;
                let len = dest0.len() as int;
                let fc = c.material().len() as int;
                let relevant = crate::looper::loop_is_relevant(
                    c.looper_spec().loop_behavior_spec(),
                    s,
                    fc,
                );
                &&& !supplying ==> (c2.state_spec() == c.state_spec() && c2.pos_spec()
                    == c.pos_spec() && dest1 == dest0 && written == 0)
                &&& (supplying && c.pos_spec() > crate::clip::POSITION_LIMIT) ==> (c2.state_spec()
                    == ClipPlayState::Stopped && c2.pos_spec() == 0 && dest1 == dest0 && written
                    == 0)
                &&& (supplying && c.pos_spec() <= crate::clip::POSITION_LIMIT && relevant) ==> {
                    &&& written == len
                    &&& c2.pos_spec() == crate::looper::looper_next_frame(s, len, fc) as isize
                    &&& c2.state_spec() == c.state_spec()
                    &&& forall|i: int|
                        0 <= i < len ==> dest1[i] == crate::looper::looper_out_sample(
                            c.material(),
                            c.looper_spec().fades_enabled_spec(),
                            s,
                            dest0,
                            i,
                        )
                }
                &&& (supplying && c.pos_spec() <= crate::clip::POSITION_LIMIT && !relevant) ==> {
                    // Pass-through: the material plays once; running out
                    // stops the clip.
                    let w = crate::supplier::supply_written_count(s, len, fc);
                    &&& written == w
                    &&& forall|i: int|
                        0 <= i < w ==> dest1[i] == crate::supplier::supplied_sample(
                            c.material(),
                            s,
                            i,
                        )
                    &&& forall|i: int| w <= i < len ==> dest1[i] == dest0[i]
                    &&& if w == len && s + len < fc {
                        c2.state_spec() == c.state_spec() && c2.pos_spec() == (s + len) as isize
                    } else {
                        c2.state_spec() == ClipPlayState::Stopped && c2.pos_spec() == 0
                    }
                }
            })
        },
        None => s1 == s0 && dest1 == dest0,
    }
}

impl Slot {
    /// Supplies the next audio block of the slot's clip into the
    /// destination buffer and advances the clip's position; the per-slot
    /// piece of the real-time audio path.
    pub fn supply_audio(&mut self, dest: &mut AudioBuffer) -> (r: Result<
        SupplyResponse,
        &'static str,
    >)
        requires
            old(self).wf(),
            old(dest)@.len() <= MAX_MATERIAL_FRAMES,
            forall|i: int|
                0 <= i < old(dest)@.len() ==> -MAX_SAMPLE <= #[trigger] old(dest)@[i]
                    <= MAX_SAMPLE,
        ensures
            final(self).wf(),
            final(dest)@.len() == old(dest)@.len(),
            r is Ok <==> old(self).clip_spec() is Some,
            r is Err ==> final(dest)@ == old(dest)@ && *final(self) == *old(self) && r
                == Result::<SupplyResponse, &'static str>::Err(SLOT_NOT_FILLED),
            forall|i: int|
                0 <= i < final(dest)@.len() ==> -MAX_SAMPLE <= #[trigger] final(dest)@[i]
                    <= MAX_SAMPLE,
            r matches Ok(resp) ==> spec_slot_supplied(
                *old(self),
                *final(self),
                old(dest)@,
                final(dest)@,
                resp.num_frames_written as int,
            ),
    {
        match &mut self.clip {
            Some(c) => {
                let resp = c.supply_audio(dest);
                Ok(resp)
            },
            None => Err(SLOT_NOT_FILLED),
        }
    }

    /// The clip's volume, in thousandths.
    pub fn clip_volume(&self) -> (r: Option<u32>)
        requires
            self.wf(),
        ensures
            r == match self.clip_spec() {
                Some(c) => Some(c.volume_spec()),
                None => Option::<u32>::None,
            },
    {
        match &self.clip {
            Some(c) => Some(c.volume()),
            None => None,
        }
    }

    /// Whether the clip repeats.
    pub fn clip_looped(&self) -> (r: Option<bool>)
        requires
            self.wf(),
        ensures
            r == match self.clip_spec() {
                Some(c) => Some(c.looped_spec()),
                None => Option::<bool>::None,
            },
    {
        match &self.clip {
            Some(c) => Some(c.looped()),
            None => None,
        }
    }

    /// The clip's proportional position within its cycle, in thousandths.
    pub fn proportional_pos(&self) -> (r: Option<u32>)
        requires
            self.wf(),
        ensures
            r == match self.clip_spec() {
                Some(c) => Some(
                    (c.pos_spec() as int % c.material().len() as int * 1000
                        / c.material().len() as int) as u32,
                ),
                None => Option::<u32>::None,
            },
    {
        match &self.clip {
            Some(c) => Some(c.proportional_pos()),
            None => None,
        }
    }
}

/// The persisted form of one slot, if it has both a clip and a stored
/// descriptor: the descriptor with the live repeat flag and volume.
pub open spec fn spec_slot_save(s: Slot, row: int) -> Option<api::Slot> {
    match (s.clip_spec(), s.descriptor_spec()) {
        (Some(c), Some(d)) => Some(
            api::Slot {
                row: row as usize,
                clip: Some(api::Clip { looped: c.looped_spec(), volume: c.volume_spec(), ..d }),
            },
        ),
        _ => None,
    }
}

/// The error a command against a slot without a clip reports.
pub const SLOT_NOT_FILLED: &'static str = "slot not filled";

} // verus!
