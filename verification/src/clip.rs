//! The clip: playable and recordable material with its play-state machine
//! and its supplier chain.
//!
//! A clip owns a looper-wrapped source and a play state. Play, stop and
//! pause commands either act immediately or schedule a transition at a
//! quantization boundary; each real-time tick compares the current
//! timeline moment against the stored boundary and completes due
//! transitions.

use vstd::prelude::*;

use crate::looper::{
    loop_is_relevant, looper_next_frame, looper_out_sample, LoopBehavior, Looper,
};
use crate::recorder::{RecordBehavior, Recorder};
use crate::supplier::{
    supplied_sample, supply_written_count, AudioBuffer, MidiEvent, Source, SupplyAudioRequest,
    SupplyResponse, MAX_MATERIAL_FRAMES, MAX_SAMPLE, MAX_START_FRAME,
};
use crate::timeline::TimelineMoment;

verus! {

/// Largest clip volume, in thousandths (1000 is unity gain).
pub const MAX_VOLUME: u32 = 4000;

/// The clip play-state machine's states. `Stopped` and `Paused` are
/// quiescent; the two scheduled states wait for a quantization boundary.
#[derive(Clone, Copy, PartialEq, Eq, Debug, Structural)]
pub enum ClipPlayState {
    Stopped,
    ScheduledForPlay,
    Playing,
    ScheduledForStop,
    Paused,
}

impl Default for ClipPlayState {
    /// A clip starts out stopped.
    fn default() -> (r: Self)
        ensures
            r == ClipPlayState::Stopped,
    {
        Self::Stopped
    }
}

impl ClipPlayState {
    /// Whether material is advancing (or about to): the states for which
    /// position updates are worth reporting.
    pub open spec fn is_advancing_spec(self) -> bool {
        match self {
            ClipPlayState::ScheduledForPlay
            | ClipPlayState::Playing
            | ClipPlayState::ScheduledForStop => true,
            _ => false,
        }
    }

    pub fn is_advancing(&self) -> (r: bool)
        ensures
            r == self.is_advancing_spec(),
    {
        match self {
            ClipPlayState::ScheduledForPlay
            | ClipPlayState::Playing
            | ClipPlayState::ScheduledForStop => true,
            _ => false,
        }
    }
}

/// Arguments of a play command: `from_bar` is the timeline position of the
/// quantization boundary to start at, or `None` to start immediately.
#[derive(Clone, Copy, PartialEq, Eq, Structural)]
pub struct ClipPlayArgs {
    pub from_bar: Option<isize>,
}

/// When a stop command takes effect.
#[derive(Clone, Copy, PartialEq, Eq, Structural)]
pub enum ClipStopBehavior {
    /// Right now.
    Immediately,
    /// At the given timeline position (a quantization boundary).
    Quantized(isize),
}

/// Arguments of a stop command.
#[derive(Clone, Copy, PartialEq, Eq, Structural)]
pub struct ClipStopArgs {
    pub stop_behavior: ClipStopBehavior,
}

/// What the slot should do with the clip after a stop command.
#[derive(Clone, Copy, PartialEq, Eq, Debug, Structural)]
pub enum SlotInstruction {
    KeepSlot,
    /// The stop aborted a recording that had produced no material yet and
    /// the clip never had any: nothing worth keeping remains.
    ClearSlot,
}

/// The commands the play-state machine reacts to, reduced to what decides
/// the next state.
#[derive(Clone, Copy, PartialEq, Eq, Structural)]
pub enum ClipCommand {
    Play { quantized: bool },
    Stop { quantized: bool },
    Pause,
    Seek,
}

/// The play state that results from a command in a given state. The match
/// is exhaustive: every (state, command) pair has a defined outcome.
pub open spec fn clip_next_state(s: ClipPlayState, c: ClipCommand) -> ClipPlayState {
    match c {
        ClipCommand::Play { quantized } => match s {
            ClipPlayState::Stopped | ClipPlayState::Paused => if quantized {
                ClipPlayState::ScheduledForPlay
            } else {
                ClipPlayState::Playing
            },
            // A repeated play retriggers without leaving `Playing`.
            ClipPlayState::Playing => ClipPlayState::Playing,
            ClipPlayState::ScheduledForPlay | ClipPlayState::ScheduledForStop => if quantized {
                ClipPlayState::ScheduledForPlay
            } else {
                ClipPlayState::Playing
            },
        },
        ClipCommand::Stop { quantized } => match s {
            ClipPlayState::Playing
            | ClipPlayState::ScheduledForPlay
            | ClipPlayState::ScheduledForStop => if quantized {
                ClipPlayState::ScheduledForStop
            } else {
                ClipPlayState::Stopped
            },
            // From `Paused` a stop acts immediately, quantized or not.
            ClipPlayState::Paused => ClipPlayState::Stopped,
            ClipPlayState::Stopped => ClipPlayState::Stopped,
        },
        ClipCommand::Pause => match s {
            ClipPlayState::Playing | ClipPlayState::ScheduledForStop => ClipPlayState::Paused,
            // Pausing a quiescent or merely scheduled clip is a documented
            // no-op.
            _ => s,
        },
        ClipCommand::Seek => s,
    }
}

/// The (state, command) pairs on which the machine moves to a different
/// state, written out as the documented transition table.
pub open spec fn clip_transition_documented(s: ClipPlayState, c: ClipCommand) -> bool {
    ||| (s == ClipPlayState::Stopped && c matches ClipCommand::Play { .. })
    ||| (s == ClipPlayState::Paused && (c matches ClipCommand::Play { .. } || c matches
        ClipCommand::Stop { .. }))
    ||| (s == ClipPlayState::Playing && (c matches ClipCommand::Stop { .. } || c
        == ClipCommand::Pause))
    ||| (s == ClipPlayState::ScheduledForPlay && (c matches ClipCommand::Play { .. } || c matches
        ClipCommand::Stop { .. }))
    ||| (s == ClipPlayState::ScheduledForStop && (c matches ClipCommand::Play { .. } || c matches
        ClipCommand::Stop { .. } || c == ClipCommand::Pause))
}

/// State-machine completeness: for every (state, command) pair, either the
/// pair is in the documented transition table, or the command leaves the
/// state unchanged (a documented no-op) — there is no undefined
/// transition.
pub proof fn lemma_state_machine_complete(s: ClipPlayState, c: ClipCommand)
    ensures
        clip_transition_documented(s, c) || clip_next_state(s, c) == s,
{
}

/// Quiescence is only left through a play command: no stop, pause or seek
/// ever sets a stopped or paused clip in motion.
pub proof fn lemma_quiescence_stable(s: ClipPlayState, c: ClipCommand)
    requires
        !s.is_advancing_spec(),
        !(c matches ClipCommand::Play { .. }),
    ensures
        !clip_next_state(s, c).is_advancing_spec(),
{
}

/// A change a clip reports to the controller side.
#[derive(Clone, Copy, PartialEq, Eq, Debug, Structural)]
pub enum ClipChangedEvent {
    PlayState(ClipPlayState),
    ClipVolume(u32),
    ClipRepeat(bool),
    /// The proportional position within the current cycle, in thousandths.
    ClipPosition(u32),
}

/// Playable or recordable material plus its play-state machine.
pub struct Clip {
    looper: Looper,
    volume: u32,
    looped: bool,
    state: ClipPlayState,
    play_target: Option<isize>,
    stop_target: Option<isize>,
    pos: isize,
    recorder: Option<Recorder>,
    has_material: bool,
}

impl Clip {
    pub closed spec fn looper_spec(&self) -> Looper {
        self.looper
    }

    pub closed spec fn volume_spec(&self) -> u32 {
        self.volume
    }

    pub closed spec fn looped_spec(&self) -> bool {
        self.looped
    }

    pub closed spec fn state_spec(&self) -> ClipPlayState {
        self.state
    }

    pub closed spec fn play_target_spec(&self) -> Option<isize> {
        self.play_target
    }

    pub closed spec fn stop_target_spec(&self) -> Option<isize> {
        self.stop_target
    }

    pub closed spec fn pos_spec(&self) -> isize {
        self.pos
    }

    pub closed spec fn recorder_spec(&self) -> Option<Recorder> {
        self.recorder
    }

    pub closed spec fn has_material_spec(&self) -> bool {
        self.has_material
    }

    /// The clip's audio material.
    pub open spec fn material(&self) -> Seq<i64> {
        self.looper_spec().supplier_spec().audio()
    }

    pub closed spec fn wf(&self) -> bool {
        &&& self.looper.wf()
        &&& self.volume <= MAX_VOLUME
        &&& 0 <= self.pos <= MAX_START_FRAME
        &&& match self.play_target {
            Some(t) => 0 <= t <= MAX_START_FRAME,
            None => true,
        }
        &&& match self.stop_target {
            Some(t) => 0 <= t <= MAX_START_FRAME,
            None => true,
        }
        &&& match self.recorder {
            Some(r) => r.wf(),
            None => true,
        }
    }

    /// A clip over loaded material, initially stopped at position zero.
    pub fn new(source: Source, looped: bool, volume: u32) -> (c: Clip)
        requires
            source.wf(),
            source.audio().len() > 0,
            volume <= MAX_VOLUME,
        ensures
            c.wf(),
            c.material() == source.audio(),
            c.state_spec() == ClipPlayState::Stopped,
            c.looped_spec() == looped,
            c.volume_spec() == volume,
            c.pos_spec() == 0,
            c.recorder_spec() is None,
            c.has_material_spec(),
            c.looper_spec().loop_behavior_spec() == spec_loop_behavior_from_bool(looped),
            !c.looper_spec().fades_enabled_spec(),
            c.play_target_spec() is None,
            c.stop_target_spec() is None,
    {
        let mut looper = Looper::new(source);
        looper.set_loop_behavior(LoopBehavior::from_bool(looped));
        Clip {
            looper,
            volume,
            looped,
            state: ClipPlayState::Stopped,
            play_target: None,
            stop_target: None,
            pos: 0,
            recorder: None,
            has_material: true,
        }
    }

    /// A clip created by starting a recording into an empty slot: a silent
    /// one-frame placeholder stands in for material until the recording is
    /// finalized.
    pub fn from_recording(behavior: RecordBehavior, frame_rate: u32) -> (c: Clip)
        ensures
            c.wf(),
            c.state_spec() == ClipPlayState::Stopped,
            c.recorder_spec() matches Some(r) && r.frames_spec().len() == 0
                && r.events_spec().len() == 0 && r.behavior_spec() == behavior
                && r.frame_rate_spec() == frame_rate,
            !c.has_material_spec(),
            c.pos_spec() == 0,
    {
        let mut frames: Vec<i64> = Vec::new();
        frames.push(0);
        let source = Source::new(frames, Vec::new(), frame_rate);
        let looper = Looper::new(source);
        Clip {
            looper,
            volume: 1000,
            looped: false,
            state: ClipPlayState::Stopped,
            play_target: None,
            stop_target: None,
            pos: 0,
            recorder: Some(Recorder::new(behavior, frame_rate)),
            has_material: false,
        }
    }

    /// Checks at run time that a clip of unknown provenance (for example
    /// one received over a channel) is within the engine's limits.
    pub fn check_limits(&self) -> (r: bool)
        ensures
            r <==> self.wf(),
    {
        if !(self.looper.supplier().check_limits() && self.looper.supplier().frame_count() > 0) {
            return false;
        }
        if self.volume > MAX_VOLUME {
            return false;
        }
        if !(0 <= self.pos && self.pos <= MAX_START_FRAME) {
            return false;
        }
        match self.play_target {
            Some(t) => {
                if !(0 <= t && t <= MAX_START_FRAME) {
                    return false;
                }
            },
            None => {},
        }
        match self.stop_target {
            Some(t) => {
                if !(0 <= t && t <= MAX_START_FRAME) {
                    return false;
                }
            },
            None => {},
        }
        match &self.recorder {
            Some(r) => r.check_limits(),
            None => true,
        }
    }

    pub fn play_state(&self) -> (s: ClipPlayState)
        ensures
            s == self.state_spec(),
    {
        self.state
    }

    pub fn volume(&self) -> (v: u32)
        ensures
            v == self.volume_spec(),
    {
        self.volume
    }

    pub fn looped(&self) -> (r: bool)
        ensures
            r == self.looped_spec(),
    {
        self.looped
    }

    pub fn is_recording(&self) -> (r: bool)
        ensures
            r == (self.recorder_spec() is Some),
    {
        self.recorder.is_some()
    }

    /// Plays the clip: quiescent clips start (immediately or at the given
    /// boundary), a playing clip retriggers from position zero, scheduled
    /// clips are rescheduled.
    pub fn play(&mut self, args: ClipPlayArgs)
        requires
            old(self).wf(),
            match args.from_bar {
                Some(t) => 0 <= t <= MAX_START_FRAME,
                None => true,
            },
        ensures
            final(self).wf(),
            final(self).state_spec() == clip_next_state(
                old(self).state_spec(),
                ClipCommand::Play { quantized: args.from_bar is Some },
            ),
            final(self).play_target_spec() == (if args.from_bar is Some {
                args.from_bar
            } else {
                Option::<isize>::None
            }),
            final(self).stop_target_spec() is None,
            final(self).pos_spec() == (if args.from_bar is None {
                0isize
            } else {
                old(self).pos_spec()
            }),
            final(self).looper_spec() == old(self).looper_spec(),
            final(self).volume_spec() == old(self).volume_spec(),
            final(self).looped_spec() == old(self).looped_spec(),
            final(self).recorder_spec() == old(self).recorder_spec(),
            final(self).has_material_spec() == old(self).has_material_spec(),
    {
        match args.from_bar {
            Some(target) => {
                match self.state {
                    ClipPlayState::Playing => {
                        // Retrigger is immediate even while playing; the
                        // schedule fields are cleared.
                        self.play_target = Some(target);
                        self.stop_target = None;
                    },
                    _ => {
                        self.state = ClipPlayState::ScheduledForPlay;
                        self.play_target = Some(target);
                        self.stop_target = None;
                    },
                }
            },
            None => {
                self.state = ClipPlayState::Playing;
                self.play_target = None;
                self.stop_target = None;
                self.pos = 0;
            },
        }
    }

    /// Stops the clip: immediately (position reset to zero) or at the
    /// given boundary. A stop that aborts a recording which captured
    /// nothing, on a clip that never had material, asks the slot to clear
    /// itself.
    pub fn stop(&mut self, args: ClipStopArgs) -> (instruction: SlotInstruction)
        requires
            old(self).wf(),
            match args.stop_behavior {
                ClipStopBehavior::Quantized(t) => 0 <= t <= MAX_START_FRAME,
                ClipStopBehavior::Immediately => true,
            },
        ensures
            final(self).wf(),
            final(self).state_spec() == clip_next_state(
                old(self).state_spec(),
                ClipCommand::Stop {
                    quantized: args.stop_behavior matches ClipStopBehavior::Quantized(_)
                        && old(self).state_spec().is_advancing_spec(),
                },
            ),
            final(self).recorder_spec() is None,
            instruction == (if !old(self).has_material_spec() {
                SlotInstruction::ClearSlot
            } else {
                SlotInstruction::KeepSlot
            }),
            final(self).pos_spec() == (if final(self).state_spec() == ClipPlayState::Stopped {
                0isize
            } else {
                old(self).pos_spec()
            }),
            final(self).stop_target_spec() == (match args.stop_behavior {
                ClipStopBehavior::Quantized(t) => if old(self).state_spec().is_advancing_spec() {
                    Some(t)
                } else {
                    Option::<isize>::None
                },
                ClipStopBehavior::Immediately => Option::<isize>::None,
            }),
            final(self).play_target_spec() is None,
            final(self).looper_spec() == old(self).looper_spec(),
            final(self).volume_spec() == old(self).volume_spec(),
            final(self).looped_spec() == old(self).looped_spec(),
            final(self).has_material_spec() == old(self).has_material_spec(),
    {
        let instruction = if !self.has_material {
            SlotInstruction::ClearSlot
        } else {
            SlotInstruction::KeepSlot
        };
        // A stop always ends an in-progress recording; committed capture is
        // handled by the slot before it calls this.
        self.recorder = None;
        match args.stop_behavior {
            ClipStopBehavior::Quantized(target) => {
                match self.state {
                    ClipPlayState::Playing
                    | ClipPlayState::ScheduledForPlay
                    | ClipPlayState::ScheduledForStop => {
                        self.state = ClipPlayState::ScheduledForStop;
                        self.stop_target = Some(target);
                        self.play_target = None;
                    },
                    _ => {
                        self.state = ClipPlayState::Stopped;
                        self.stop_target = None;
                        self.play_target = None;
                        self.pos = 0;
                    },
                }
            },
            ClipStopBehavior::Immediately => {
                self.state = ClipPlayState::Stopped;
                self.stop_target = None;
                self.play_target = None;
                self.pos = 0;
            },
        }
        instruction
    }

    /// Pauses the clip, preserving its position; only meaningful while
    /// playing or scheduled to stop.
    pub fn pause(&mut self)
        requires
            old(self).wf(),
        ensures
            final(self).wf(),
            final(self).state_spec() == clip_next_state(
                old(self).state_spec(),
                ClipCommand::Pause,
            ),
            final(self).pos_spec() == old(self).pos_spec(),
            ({
                let moved = old(self).state_spec() == ClipPlayState::Playing || old(
                    self,
                ).state_spec() == ClipPlayState::ScheduledForStop;
                &&& final(self).play_target_spec() == (if moved {
                    Option::<isize>::None
                } else {
                    old(self).play_target_spec()
                })
                &&& final(self).stop_target_spec() == (if moved {
                    Option::<isize>::None
                } else {
                    old(self).stop_target_spec()
                })
            }),
            final(self).looper_spec() == old(self).looper_spec(),
            final(self).volume_spec() == old(self).volume_spec(),
            final(self).looped_spec() == old(self).looped_spec(),
            final(self).recorder_spec() == old(self).recorder_spec(),
            final(self).has_material_spec() == old(self).has_material_spec(),
    {
        match self.state {
            ClipPlayState::Playing | ClipPlayState::ScheduledForStop => {
                self.state = ClipPlayState::Paused;
                self.play_target = None;
                self.stop_target = None;
            },
            _ => {},
        }
    }

    /// Seeks to a proportional position within the material, in
    /// thousandths of the cycle length. The play state is unchanged.
    pub fn seek(&mut self, proportional_pos: u32)
        requires
            old(self).wf(),
            proportional_pos <= 1000,
        ensures
            final(self).wf(),
            final(self).state_spec() == old(self).state_spec(),
            final(self).pos_spec() == proportional_pos as int * old(self).material().len() as int
                / 1000,
            final(self).looper_spec() == old(self).looper_spec(),
            final(self).volume_spec() == old(self).volume_spec(),
            final(self).looped_spec() == old(self).looped_spec(),
            final(self).play_target_spec() == old(self).play_target_spec(),
            final(self).stop_target_spec() == old(self).stop_target_spec(),
            final(self).recorder_spec() == old(self).recorder_spec(),
            final(self).has_material_spec() == old(self).has_material_spec(),
    {
        let frame_count = self.looper.supplier().frame_count();
        proof {
            crate::supplier::lemma_source_wf(&self.looper.supplier_spec());
            assert(proportional_pos as int * frame_count as int <= 1000 * frame_count as int)
                by (nonlinear_arith)
                requires
                    proportional_pos <= 1000,
                    frame_count >= 0,
            ;
            assert(proportional_pos as int * frame_count as int / 1000 <= frame_count as int)
                by (nonlinear_arith)
                requires
                    proportional_pos as int * frame_count as int <= 1000 * frame_count as int,
                    frame_count >= 0,
            ;
        }
        let new_pos = (proportional_pos as u64 * frame_count as u64 / 1000) as usize;
        self.pos = new_pos as isize;
    }

    /// Sets the clip volume.
    pub fn set_volume(&mut self, volume: u32) -> (e: ClipChangedEvent)
        requires
            old(self).wf(),
            volume <= MAX_VOLUME,
        ensures
            final(self).wf(),
            final(self).volume_spec() == volume,
            e == ClipChangedEvent::ClipVolume(volume),
            final(self).state_spec() == old(self).state_spec(),
            final(self).pos_spec() == old(self).pos_spec(),
            final(self).looper_spec() == old(self).looper_spec(),
            final(self).looped_spec() == old(self).looped_spec(),
            final(self).play_target_spec() == old(self).play_target_spec(),
            final(self).stop_target_spec() == old(self).stop_target_spec(),
            final(self).recorder_spec() == old(self).recorder_spec(),
            final(self).has_material_spec() == old(self).has_material_spec(),
    {
        self.volume = volume;
        ClipChangedEvent::ClipVolume(volume)
    }

    /// Sets whether the clip repeats, adjusting the looper accordingly.
    pub fn set_repeated(&mut self, repeated: bool)
        requires
            old(self).wf(),
        ensures
            final(self).wf(),
            final(self).looped_spec() == repeated,
            final(self).looper_spec().loop_behavior_spec() == spec_loop_behavior_from_bool(
                repeated,
            ),
            final(self).looper_spec().supplier_spec() == old(self).looper_spec().supplier_spec(),
            final(self).looper_spec().fades_enabled_spec() == old(
                self,
            ).looper_spec().fades_enabled_spec(),
            final(self).state_spec() == old(self).state_spec(),
            final(self).pos_spec() == old(self).pos_spec(),
            final(self).volume_spec() == old(self).volume_spec(),
            final(self).play_target_spec() == old(self).play_target_spec(),
            final(self).stop_target_spec() == old(self).stop_target_spec(),
            final(self).recorder_spec() == old(self).recorder_spec(),
            final(self).has_material_spec() == old(self).has_material_spec(),
    {
        self.looped = repeated;
        self.looper.set_loop_behavior(LoopBehavior::from_bool(repeated));
    }

    /// Resolves due scheduled transitions against the current timeline
    /// moment: a scheduled play becomes `Playing` exactly at the first
    /// tick whose cursor has reached the stored boundary, never earlier; a
    /// scheduled stop becomes `Stopped` in the same way.
    pub fn tick_state(&mut self, moment: &TimelineMoment) -> (changed: Option<ClipPlayState>)
        requires
            old(self).wf(),
        ensures
            final(self).wf(),
            ({
                let due_play = old(self).state_spec() == ClipPlayState::ScheduledForPlay && (match
                    old(self).play_target_spec() {
                    Some(t) => moment.cursor_pos >= t,
                    None => true,
                });
                let due_stop = old(self).state_spec() == ClipPlayState::ScheduledForStop && (match
                    old(self).stop_target_spec() {
                    Some(t) => moment.cursor_pos >= t,
                    None => true,
                });
                let due_retrigger = old(self).state_spec() == ClipPlayState::Playing && (match old(
                    self,
                ).play_target_spec() {
                    Some(t) => moment.cursor_pos >= t,
                    None => false,
                });
                &&& final(self).state_spec() == (if due_play {
                    ClipPlayState::Playing
                } else if due_stop {
                    ClipPlayState::Stopped
                } else {
                    old(self).state_spec()
                })
                &&& final(self).pos_spec() == (if due_play || due_stop || due_retrigger {
                    0isize
                } else {
                    old(self).pos_spec()
                })
                &&& changed == (if due_play {
                    Some(ClipPlayState::Playing)
                } else if due_stop {
                    Some(ClipPlayState::Stopped)
                } else {
                    Option::<ClipPlayState>::None
                })
            }),
            final(self).looper_spec() == old(self).looper_spec(),
            final(self).volume_spec() == old(self).volume_spec(),
            final(self).looped_spec() == old(self).looped_spec(),
            final(self).recorder_spec() == old(self).recorder_spec(),
            final(self).has_material_spec() == old(self).has_material_spec(),
    {
        match self.state {
            ClipPlayState::ScheduledForPlay => {
                let due = match self.play_target {
                    Some(t) => moment.cursor_pos() >= t,
                    None => true,
                };
                if due {
                    self.state = ClipPlayState::Playing;
                    self.play_target = None;
                    self.pos = 0;
                    Some(ClipPlayState::Playing)
                } else {
                    None
                }
            },
            ClipPlayState::ScheduledForStop => {
                let due = match self.stop_target {
                    Some(t) => moment.cursor_pos() >= t,
                    None => true,
                };
                if due {
                    self.state = ClipPlayState::Stopped;
                    self.stop_target = None;
                    self.pos = 0;
                    Some(ClipPlayState::Stopped)
                } else {
                    None
                }
            },
            ClipPlayState::Playing => {
                // A playing clip with a pending quantized retrigger resumes
                // from the top at the boundary, preserving perceived sync.
                match self.play_target {
                    Some(t) => {
                        if moment.cursor_pos() >= t {
                            self.play_target = None;
                            self.pos = 0;
                        }
                        None
                    },
                    None => None,
                }
            },
            _ => None,
        }
    }
}

impl Clip {
    /// The proportional position within the current cycle, in thousandths.
    pub fn proportional_pos(&self) -> (r: u32)
        requires
            self.wf(),
        ensures
            r == self.pos_spec() as int % self.material().len() as int * 1000 / self.material().len() as int,
            r < 1000,
    {
        proof {
            crate::supplier::lemma_source_wf(&self.looper.supplier_spec());
        }
        let frame_count = self.looper.supplier().frame_count();
        let pos = self.pos as usize;
        let m = (pos as u64 % frame_count as u64);
        proof {
            vstd::arithmetic::div_mod::lemma_mod_bound(pos as int, frame_count as int);
            assert((m as int) * 1000 < (frame_count as int) * 1000) by (nonlinear_arith)
                requires
                    (m as int) < (frame_count as int),
            ;
            assert((m as int) * 1000 / (frame_count as int) < 1000) by (nonlinear_arith)
                requires
                    (m as int) * 1000 < (frame_count as int) * 1000,
                    (frame_count as int) > 0,
                    (m as int) >= 0,
            ;
        }
        ((m * 1000) / frame_count as u64) as u32
    }

    /// Starts a recording on this clip with the given behavior, replacing
    /// any recording already in progress.
    pub fn record(&mut self, behavior: RecordBehavior, frame_rate: u32)
        requires
            old(self).wf(),
        ensures
            final(self).wf(),
            final(self).recorder_spec() matches Some(r) && r.frames_spec().len() == 0
                && r.events_spec().len() == 0 && r.behavior_spec() == behavior
                && r.frame_rate_spec() == frame_rate,
            final(self).state_spec() == old(self).state_spec(),
            final(self).looper_spec() == old(self).looper_spec(),
            final(self).pos_spec() == old(self).pos_spec(),
            final(self).volume_spec() == old(self).volume_spec(),
            final(self).looped_spec() == old(self).looped_spec(),
            final(self).has_material_spec() == old(self).has_material_spec(),
            final(self).play_target_spec() == old(self).play_target_spec(),
            final(self).stop_target_spec() == old(self).stop_target_spec(),
    {
        self.recorder = Some(Recorder::new(behavior, frame_rate));
    }

    /// Appends one block of incoming audio to the recording in progress.
    /// Returns whether a recording was in progress.
    pub fn write_audio(&mut self, samples: &Vec<i64>) -> (accepted: bool)
        requires
            old(self).wf(),
        ensures
            final(self).wf(),
            accepted == (old(self).recorder_spec() is Some),
            !accepted ==> *final(self) == *old(self),
            accepted ==> ({
                &&& final(self).recorder_spec() is Some
                &&& final(self).state_spec() == old(self).state_spec()
                &&& final(self).looper_spec() == old(self).looper_spec()
                &&& final(self).pos_spec() == old(self).pos_spec()
                &&& ({
                    let old_rec = old(self).recorder_spec()->Some_0;
                    let new_rec = final(self).recorder_spec()->Some_0;
                    let room = MAX_MATERIAL_FRAMES - old_rec.frames_spec().len();
                    let taken = if samples@.len() <= room {
                        samples@.len() as int
                    } else {
                        room as int
                    };
                    &&& new_rec.frames_spec().len() == old_rec.frames_spec().len() + taken
                    &&& new_rec.events_spec() == old_rec.events_spec()
                    &&& new_rec.behavior_spec() == old_rec.behavior_spec()
                    &&& forall|i: int|
                        0 <= i < old_rec.frames_spec().len() ==> new_rec.frames_spec()[i]
                            == old_rec.frames_spec()[i]
                    &&& forall|i: int|
                        0 <= i < taken ==> new_rec.frames_spec()[old_rec.frames_spec().len() + i]
                            == crate::recorder::clamped_sample(samples@[i])
                })
            }),
    {
        match &mut self.recorder {
            Some(r) => {
                r.write_audio(samples);
                true
            },
            None => false,
        }
    }

    /// Appends incoming MIDI events to the recording in progress. Returns
    /// whether a recording was in progress.
    pub fn write_midi(&mut self, events: &Vec<MidiEvent>) -> (accepted: bool)
        requires
            old(self).wf(),
        ensures
            final(self).wf(),
            accepted == (old(self).recorder_spec() is Some),
            !accepted ==> *final(self) == *old(self),
            accepted ==> ({
                &&& final(self).recorder_spec() is Some
                &&& final(self).state_spec() == old(self).state_spec()
                &&& final(self).looper_spec() == old(self).looper_spec()
                &&& final(self).pos_spec() == old(self).pos_spec()
                &&& ({
                    let old_rec = old(self).recorder_spec()->Some_0;
                    let new_rec = final(self).recorder_spec()->Some_0;
                    &&& new_rec.frames_spec() == old_rec.frames_spec()
                    &&& new_rec.events_spec() == old_rec.events_spec() + events@
                    &&& new_rec.behavior_spec() == old_rec.behavior_spec()
                })
            }),
    {
        match &mut self.recorder {
            Some(r) => {
                r.write_midi(events);
                true
            },
            None => false,
        }
    }
}

impl Clip {
    /// Finalizes the recording in progress. A normal recording that
    /// captured material becomes the clip's new material (starting
    /// playback if the behavior asks for it); a MIDI overdub merges the
    /// captured events into the existing material. Returns the frame count
    /// of the material on success, and an error if no recording was in
    /// progress or a normal recording captured nothing.
    pub fn finish_recording(&mut self) -> (outcome: Result<usize, &'static str>)
        requires
            old(self).wf(),
        ensures
            final(self).wf(),
            final(self).recorder_spec() is None,
            outcome is Err <==> (old(self).recorder_spec() is None || (old(
                self,
            ).recorder_spec() matches Some(r) && r.behavior_spec() matches
                RecordBehavior::Normal { .. } && r.frames_spec().len() == 0)),
            old(self).recorder_spec() is None ==> *final(self) == *old(self),
            ({
                match old(self).recorder_spec() {
                    Some(rec) => match rec.behavior_spec() {
                        RecordBehavior::Normal { play_after } => {
                            if rec.frames_spec().len() > 0 {
                                &&& outcome == Result::<usize, &'static str>::Ok(
                                    rec.frames_spec().len() as usize,
                                )
                                &&& final(self).material() == rec.frames_spec()
                                &&& final(self).looper_spec().supplier_spec().midi()
                                    == rec.events_spec().filter(
                                    |e: MidiEvent| e.frame < rec.frames_spec().len(),
                                )
                                &&& final(self).has_material_spec()
                                &&& final(self).pos_spec() == 0
                                &&& final(self).state_spec() == (if play_after {
                                    ClipPlayState::Playing
                                } else {
                                    ClipPlayState::Stopped
                                })
                            } else {
                                // Nothing captured: the clip is unchanged
                                // but for the dropped recorder.
                                &&& final(self).looper_spec() == old(self).looper_spec()
                                &&& final(self).state_spec() == old(self).state_spec()
                                &&& final(self).pos_spec() == old(self).pos_spec()
                                &&& final(self).has_material_spec() == old(
                                    self,
                                ).has_material_spec()
                            }
                        },
                        RecordBehavior::MidiOverdub => {
                            &&& outcome == Result::<usize, &'static str>::Ok(
                                old(self).material().len() as usize,
                            )
                            &&& final(self).material() == old(self).material()
                            &&& final(self).looper_spec().supplier_spec().midi() == old(
                                self,
                            ).looper_spec().supplier_spec().midi() + rec.events_spec().filter(
                                |e: MidiEvent| e.frame < old(self).material().len(),
                            )
                            &&& final(self).state_spec() == old(self).state_spec()
                            &&& final(self).pos_spec() == old(self).pos_spec()
                        },
                    },
                    None => true,
                }
            }),
    {
        let rec = match self.recorder.take() {
            Some(r) => r,
            None => {
                return Err("no recording in progress");
            },
        };
        match rec.behavior() {
            RecordBehavior::Normal { play_after } => {
                if rec.frame_count() == 0 {
                    return Err("recording captured no material");
                }
                let source = rec.commit();
                let frame_count = source.frame_count();
                let mut looper = Looper::new(source);
                looper.set_loop_behavior(LoopBehavior::from_bool(self.looped));
                looper.set_fades_enabled(self.fades_enabled_of());
                self.looper = looper;
                self.has_material = true;
                self.pos = 0;
                self.state = if play_after {
                    ClipPlayState::Playing
                } else {
                    ClipPlayState::Stopped
                };
                self.play_target = None;
                self.stop_target = None;
                Ok(frame_count)
            },
            RecordBehavior::MidiOverdub => {
                let (_, events) = rec.into_parts();
                self.looper.supplier_mut().merge_midi_events(&events);
                Ok(self.looper.supplier().frame_count())
            },
        }
    }

    fn fades_enabled_of(&self) -> (r: bool)
        ensures
            r == self.looper_spec().fades_enabled_spec(),
    {
        self.looper.fades_enabled()
    }
}

/// The engine's position limit: a clip whose absolute position would pass
/// it stops instead of overflowing the frame space.
pub const POSITION_LIMIT: isize = 0x1000_0000;

impl Clip {
    /// Supplies the next block of audio through the clip's supplier chain
    /// and advances the play position. Only a clip that is playing (or
    /// scheduled to stop, which still plays until its boundary) produces
    /// material; exhausted, non-looping material stops the clip and the
    /// rest of the destination is left for the caller to treat as silence.
    pub fn supply_audio(&mut self, dest: &mut AudioBuffer) -> (r: SupplyResponse)
        requires
            old(self).wf(),
            old(dest)@.len() <= MAX_MATERIAL_FRAMES,
            forall|i: int|
                0 <= i < old(dest)@.len() ==> -MAX_SAMPLE <= #[trigger] old(dest)@[i]
                    <= MAX_SAMPLE,
        ensures
            final(self).wf(),
            final(dest)@.len() == old(dest)@.len(),
            forall|i: int|
                0 <= i < final(dest)@.len() ==> -MAX_SAMPLE <= #[trigger] final(dest)@[i]
                    <= MAX_SAMPLE,
            final(self).looper_spec() == old(self).looper_spec(),
            final(self).volume_spec() == old(self).volume_spec(),
            final(self).looped_spec() == old(self).looped_spec(),
            final(self).recorder_spec() == old(self).recorder_spec(),
            final(self).has_material_spec() == old(self).has_material_spec(),
            final(self).play_target_spec() == old(self).play_target_spec(),
            final(self).stop_target_spec() == old(self).stop_target_spec(),
            ({
                let supplying = old(self).state_spec() == ClipPlayState::Playing || old(
                    self,
                ).state_spec() == ClipPlayState::ScheduledForStop;
                let mat = old(self).material();
                let fc = mat.len() as int;
                let s = old(self).pos_spec() as int;
                let len = old(dest)@.len() as int;
                let relevant = loop_is_relevant(
                    old(self).looper_spec().loop_behavior_spec(),
                    s,
                    fc,
                );
                if !supplying || s > POSITION_LIMIT {
                    // No material from this clip; a clip past the position
                    // limit stops.
                    &&& r.num_frames_written == 0
                    &&& final(dest)@ == old(dest)@
                    &&& final(self).state_spec() == (if supplying {
                        ClipPlayState::Stopped
                    } else {
                        old(self).state_spec()
                    })
                    &&& final(self).pos_spec() == (if supplying {
                        0isize
                    } else {
                        old(self).pos_spec()
                    })
                } else if relevant {
                    // The looper keeps the material going; the position
                    // advances in the absolute cycle-aware frame space.
                    &&& r.num_frames_written == len
                    &&& final(self).state_spec() == old(self).state_spec()
                    &&& final(self).pos_spec() == looper_next_frame(s, len, fc) as isize
                    &&& forall|i: int|
                        0 <= i < len ==> final(dest)@[i] == looper_out_sample(
                            mat,
                            old(self).looper_spec().fades_enabled_spec(),
                            s,
                            old(dest)@,
                            i,
                        )
                } else {
                    // Pass-through: material plays once and runs out.
                    let w = supply_written_count(s, len, fc);
                    &&& r.num_frames_written == w
                    &&& forall|i: int| 0 <= i < w ==> final(dest)@[i] == supplied_sample(mat, s, i)
                    &&& forall|i: int| w <= i < len ==> final(dest)@[i] == old(dest)@[i]
                    &&& if w == len && s + len < fc {
                        &&& final(self).state_spec() == old(self).state_spec()
                        &&& final(self).pos_spec() == (s + len) as isize
                    } else {
                        // Exhausted: the clip stops by itself.
                        &&& final(self).state_spec() == ClipPlayState::Stopped
                        &&& final(self).pos_spec() == 0
                    }
                }
            }),
    {
        let supplying = match self.state {
            ClipPlayState::Playing | ClipPlayState::ScheduledForStop => true,
            _ => false,
        };
        if !supplying {
            return SupplyResponse {
                num_frames_written: 0,
                num_frames_consumed: 0,
                next_inner_frame: None,
            };
        }
        if self.pos > POSITION_LIMIT {
            self.state = ClipPlayState::Stopped;
            self.pos = 0;
            return SupplyResponse {
                num_frames_written: 0,
                num_frames_consumed: 0,
                next_inner_frame: None,
            };
        }
        let request = SupplyAudioRequest { start_frame: self.pos };
        let response = self.looper.supply_audio(&request, dest);
        proof {
            crate::supplier::lemma_source_wf(&self.looper.supplier_spec());
            crate::looper::lemma_looper_next_frame_bound(
                self.pos as int,
                old(dest)@.len() as int,
                self.material().len() as int,
            );
        }
        let full = response.num_frames_written == dest.frame_count();
        match response.next_inner_frame {
            Some(next) if full && next >= 0 => {
                self.pos = next;
            },
            _ => {
                self.state = ClipPlayState::Stopped;
                self.pos = 0;
            },
        }
        response
    }
}

impl Clip {
    /// Supplies MIDI events for the next block through the clip's supplier
    /// chain and advances the play position, like the audio path.
    pub fn supply_midi(&mut self, dest_frame_count: usize, events_out: &mut Vec<MidiEvent>) -> (r:
        SupplyResponse)
        requires
            old(self).wf(),
            dest_frame_count <= MAX_MATERIAL_FRAMES,
        ensures
            final(self).wf(),
            final(self).looper_spec() == old(self).looper_spec(),
            final(self).volume_spec() == old(self).volume_spec(),
            final(self).looped_spec() == old(self).looped_spec(),
            final(self).recorder_spec() == old(self).recorder_spec(),
            final(self).has_material_spec() == old(self).has_material_spec(),
            final(self).play_target_spec() == old(self).play_target_spec(),
            final(self).stop_target_spec() == old(self).stop_target_spec(),
            ({
                let supplying = old(self).state_spec() == ClipPlayState::Playing || old(
                    self,
                ).state_spec() == ClipPlayState::ScheduledForStop;
                let midi = old(self).looper_spec().supplier_spec().midi();
                let fc = old(self).material().len() as int;
                let s = old(self).pos_spec() as int;
                let len = dest_frame_count as int;
                let relevant = loop_is_relevant(
                    old(self).looper_spec().loop_behavior_spec(),
                    s,
                    fc,
                );
                if !supplying || s > POSITION_LIMIT {
                    &&& r.num_frames_written == 0
                    &&& final(events_out)@ == old(events_out)@
                    &&& final(self).state_spec() == (if supplying {
                        ClipPlayState::Stopped
                    } else {
                        old(self).state_spec()
                    })
                    &&& final(self).pos_spec() == (if supplying {
                        0isize
                    } else {
                        old(self).pos_spec()
                    })
                } else if relevant {
                    &&& r.num_frames_written == len
                    &&& final(self).state_spec() == old(self).state_spec()
                    &&& final(self).pos_spec() == crate::looper::unmodulo_spec(
                        crate::looper::looper_midi_inner_next(s, len, fc),
                        s,
                        fc,
                    ) as isize
                    &&& final(events_out)@ == old(events_out)@
                        + crate::looper::looper_midi_events(midi, s, len, fc)
                } else {
                    let w = supply_written_count(s, len, fc);
                    &&& r.num_frames_written == w
                    &&& final(events_out)@ == old(events_out)@ + crate::supplier::midi_window(
                        midi,
                        s,
                        w,
                    )
                    &&& if w == len && s + len < fc {
                        &&& final(self).state_spec() == old(self).state_spec()
                        &&& final(self).pos_spec() == (s + len) as isize
                    } else {
                        &&& final(self).state_spec() == ClipPlayState::Stopped
                        &&& final(self).pos_spec() == 0
                    }
                }
            }),
    {
        let supplying = match self.state {
            ClipPlayState::Playing | ClipPlayState::ScheduledForStop => true,
            _ => false,
        };
        if !supplying {
            return SupplyResponse {
                num_frames_written: 0,
                num_frames_consumed: 0,
                next_inner_frame: None,
            };
        }
        if self.pos > POSITION_LIMIT {
            self.state = ClipPlayState::Stopped;
            self.pos = 0;
            return SupplyResponse {
                num_frames_written: 0,
                num_frames_consumed: 0,
                next_inner_frame: None,
            };
        }
        let request = crate::supplier::SupplyMidiRequest {
            start_frame: self.pos,
            dest_frame_count,
        };
        let response = self.looper.supply_midi(&request, events_out);
        proof {
            crate::supplier::lemma_source_wf(&self.looper.supplier_spec());
            crate::looper::lemma_unmodulo_bound_spec(
                crate::looper::looper_midi_inner_next(
                    self.pos as int,
                    dest_frame_count as int,
                    self.material().len() as int,
                ),
                self.pos as int,
                self.material().len() as int,
            );
        }
        let full = response.num_frames_written == dest_frame_count;
        match response.next_inner_frame {
            Some(next) if full && next >= 0 => {
                self.pos = next;
            },
            _ => {
                self.state = ClipPlayState::Stopped;
                self.pos = 0;
            },
        }
        response
    }
}

/// Options of a play request in the old single-slot engine's surface:
/// start at the next bar boundary, and buffer the source while playing.
#[derive(Clone, Copy, PartialEq, Eq, Debug, Structural)]
pub struct SlotPlayOptions {
    pub next_bar: bool,
    pub buffered: bool,
}

impl Default for SlotPlayOptions {
    /// Immediate, unbuffered.
    fn default() -> (r: Self)
        ensures
            !r.next_bar,
            !r.buffered,
    {
        SlotPlayOptions { next_bar: false, buffered: false }
    }
}

/// The loop behavior that a repeat flag selects.
pub open spec fn spec_loop_behavior_from_bool(repeated: bool) -> LoopBehavior {
    if repeated {
        LoopBehavior::Infinitely
    } else {
        LoopBehavior::UntilEndOfCycle(0usize)
    }
}

} // verus!
