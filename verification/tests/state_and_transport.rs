//! Tests of the clip play-state machine, quantized scheduling, and
//! transport synchronization.

use clip_engine::clip::{
    Clip, ClipPlayArgs, ClipPlayState, ClipStopArgs, ClipStopBehavior, SlotPlayOptions,
};
use clip_engine::recorder::{RecordBehavior, Recorder};
use clip_engine::slot::{
    RelevantPlayStateChange, Slot, SlotProcessTransportChangeArgs, TransportChange,
};
use clip_engine::supplier::{MidiEvent, Source, MAX_SAMPLE};
use clip_engine::timeline::{next_bar_pos, TimelineMoment, TransportState};

fn test_clip(looped: bool) -> Clip {
    let frames: Vec<i64> = (0..1000i64).collect();
    Clip::new(Source::new(frames, Vec::new(), 48000), looped, 1000)
}

fn moment(cursor: isize, bar_length: usize) -> TimelineMoment {
    TimelineMoment::new(cursor, 120_000, true, next_bar_pos(cursor, bar_length))
}

#[test]
fn immediate_play_and_stop() {
    let mut clip = test_clip(true);
    assert_eq!(clip.play_state(), ClipPlayState::Stopped);
    clip.play(ClipPlayArgs { from_bar: None });
    assert_eq!(clip.play_state(), ClipPlayState::Playing);
    clip.stop(ClipStopArgs { stop_behavior: ClipStopBehavior::Immediately });
    assert_eq!(clip.play_state(), ClipPlayState::Stopped);
}

#[test]
fn quantized_play_fires_exactly_at_the_boundary() {
    // Play requested 1.5 bars into a loop with 1000-frame bars: scheduled
    // for bar 2, it must become `Playing` exactly at the first tick whose
    // cursor has reached the boundary, never earlier.
    let mut clip = test_clip(true);
    let m = moment(1500, 1000);
    clip.play(ClipPlayArgs { from_bar: Some(m.next_bar()) });
    assert_eq!(clip.play_state(), ClipPlayState::ScheduledForPlay);
    assert_eq!(clip.tick_state(&moment(1600, 1000)), None);
    assert_eq!(clip.play_state(), ClipPlayState::ScheduledForPlay);
    assert_eq!(clip.tick_state(&moment(1999, 1000)), None);
    assert_eq!(clip.play_state(), ClipPlayState::ScheduledForPlay);
    assert_eq!(clip.tick_state(&moment(2000, 1000)), Some(ClipPlayState::Playing));
    assert_eq!(clip.play_state(), ClipPlayState::Playing);
}

#[test]
fn quantized_stop_fires_at_the_boundary() {
    let mut clip = test_clip(true);
    clip.play(ClipPlayArgs { from_bar: None });
    clip.stop(ClipStopArgs { stop_behavior: ClipStopBehavior::Quantized(3000) });
    assert_eq!(clip.play_state(), ClipPlayState::ScheduledForStop);
    assert_eq!(clip.tick_state(&moment(2500, 1000)), None);
    assert_eq!(clip.play_state(), ClipPlayState::ScheduledForStop);
    assert_eq!(clip.tick_state(&moment(3000, 1000)), Some(ClipPlayState::Stopped));
    assert_eq!(clip.play_state(), ClipPlayState::Stopped);
}

#[test]
fn pause_preserves_position_and_stop_resets_it() {
    let mut clip = test_clip(true);
    clip.play(ClipPlayArgs { from_bar: None });
    clip.seek(500);
    assert_eq!(clip.proportional_pos(), 500);
    clip.pause();
    assert_eq!(clip.play_state(), ClipPlayState::Paused);
    assert_eq!(clip.proportional_pos(), 500);
    clip.stop(ClipStopArgs { stop_behavior: ClipStopBehavior::Immediately });
    assert_eq!(clip.play_state(), ClipPlayState::Stopped);
    assert_eq!(clip.proportional_pos(), 0);
}

#[test]
fn pause_is_a_no_op_on_quiescent_states() {
    let mut clip = test_clip(true);
    clip.pause();
    assert_eq!(clip.play_state(), ClipPlayState::Stopped);
    clip.play(ClipPlayArgs { from_bar: Some(1000) });
    clip.pause();
    assert_eq!(clip.play_state(), ClipPlayState::ScheduledForPlay);
}

#[test]
fn play_from_paused_resumes() {
    let mut clip = test_clip(true);
    clip.play(ClipPlayArgs { from_bar: None });
    clip.pause();
    clip.play(ClipPlayArgs { from_bar: None });
    assert_eq!(clip.play_state(), ClipPlayState::Playing);
}

#[test]
fn new_stop_cancels_pending_play_and_vice_versa() {
    let mut clip = test_clip(true);
    clip.play(ClipPlayArgs { from_bar: Some(2000) });
    assert_eq!(clip.play_state(), ClipPlayState::ScheduledForPlay);
    clip.stop(ClipStopArgs { stop_behavior: ClipStopBehavior::Immediately });
    assert_eq!(clip.play_state(), ClipPlayState::Stopped);
    clip.play(ClipPlayArgs { from_bar: None });
    clip.stop(ClipStopArgs { stop_behavior: ClipStopBehavior::Quantized(2000) });
    assert_eq!(clip.play_state(), ClipPlayState::ScheduledForStop);
    clip.play(ClipPlayArgs { from_bar: None });
    assert_eq!(clip.play_state(), ClipPlayState::Playing);
}

#[test]
fn transport_stop_and_resume_rearms_a_bar_synced_clip() {
    // A playing, bar-synced clip: the transport stops (not the user), the
    // clip stops and remembers why; the transport restarts and the clip
    // is re-armed for the next bar rather than replaying immediately.
    let mut slot = Slot::new();
    slot.fill(test_clip(true));
    slot.play_clip(ClipPlayArgs { from_bar: Some(1000) }).unwrap();
    slot.process(&moment(1000, 1000));
    assert_eq!(slot.play_state(), ClipPlayState::Playing);
    let stop = SlotProcessTransportChangeArgs {
        change: TransportChange::PlayState(RelevantPlayStateChange::StopAfterPlay),
        moment: moment(1500, 1000),
    };
    slot.process_transport_change(&stop);
    assert_eq!(slot.play_state(), ClipPlayState::Stopped);
    let start = SlotProcessTransportChangeArgs {
        change: TransportChange::PlayState(RelevantPlayStateChange::PlayAfterStop),
        moment: moment(3500, 1000),
    };
    slot.process_transport_change(&start);
    assert_eq!(slot.play_state(), ClipPlayState::ScheduledForPlay);
    slot.process(&moment(4000, 1000));
    assert_eq!(slot.play_state(), ClipPlayState::Playing);
}

#[test]
fn user_stop_is_not_rearmed_by_the_transport() {
    let mut slot = Slot::new();
    slot.fill(test_clip(true));
    slot.play_clip(ClipPlayArgs { from_bar: Some(1000) }).unwrap();
    slot.process(&moment(1000, 1000));
    // The user stops the clip; a later transport start leaves it alone.
    slot.stop_clip(ClipStopArgs { stop_behavior: ClipStopBehavior::Immediately }).unwrap();
    let start = SlotProcessTransportChangeArgs {
        change: TransportChange::PlayState(RelevantPlayStateChange::PlayAfterStop),
        moment: moment(3500, 1000),
    };
    slot.process_transport_change(&start);
    assert_eq!(slot.play_state(), ClipPlayState::Stopped);
}

#[test]
fn cursor_jump_reschedules_a_bar_synced_clip() {
    let mut slot = Slot::new();
    slot.fill(test_clip(true));
    slot.play_clip(ClipPlayArgs { from_bar: Some(1000) }).unwrap();
    slot.process(&moment(1000, 1000));
    assert_eq!(slot.play_state(), ClipPlayState::Playing);
    let jump = SlotProcessTransportChangeArgs {
        change: TransportChange::PlayCursorJump,
        moment: moment(7300, 1000),
    };
    slot.process_transport_change(&jump);
    // Still playing, but re-armed to retrigger at the next bar.
    assert_eq!(slot.play_state(), ClipPlayState::Playing);
    slot.process(&moment(8000, 1000));
    assert_eq!(slot.play_state(), ClipPlayState::Playing);
}

#[test]
fn transport_change_classification() {
    let stopped = TransportState { is_playing: false, is_paused: false };
    let playing = TransportState { is_playing: true, is_paused: false };
    let paused = TransportState { is_playing: false, is_paused: true };
    assert_eq!(
        RelevantPlayStateChange::from_play_state_change(stopped, playing),
        Some(RelevantPlayStateChange::PlayAfterStop)
    );
    assert_eq!(
        RelevantPlayStateChange::from_play_state_change(playing, stopped),
        Some(RelevantPlayStateChange::StopAfterPlay)
    );
    assert_eq!(
        RelevantPlayStateChange::from_play_state_change(paused, stopped),
        Some(RelevantPlayStateChange::StopAfterPause)
    );
    assert_eq!(RelevantPlayStateChange::from_play_state_change(playing, paused), None);
    assert_eq!(RelevantPlayStateChange::from_play_state_change(stopped, stopped), None);
}

#[test]
fn empty_slot_commands_report_errors() {
    let mut slot = Slot::new();
    assert!(slot.play_clip(ClipPlayArgs { from_bar: None }).is_err());
    assert!(slot.stop_clip(ClipStopArgs { stop_behavior: ClipStopBehavior::Immediately }).is_err());
    assert!(slot.pause_clip().is_err());
    assert!(slot.seek_clip(500).is_err());
    assert!(slot.set_clip_volume(800).is_err());
    assert!(slot.set_clip_repeated(true).is_err());
}

#[test]
fn next_bar_positions() {
    assert_eq!(next_bar_pos(1500, 1000), 2000);
    assert_eq!(next_bar_pos(2000, 1000), 3000);
    assert_eq!(next_bar_pos(0, 1000), 1000);
}

#[test]
fn recorder_clamps_and_commits() {
    let mut rec = Recorder::new(RecordBehavior::Normal { play_after: false }, 48000);
    rec.write_audio(&vec![5, -7, MAX_SAMPLE + 100, -(MAX_SAMPLE + 100)]);
    rec.write_midi(&vec![MidiEvent { frame: 2, payload: 9 }, MidiEvent { frame: 50, payload: 1 }]);
    assert_eq!(rec.frame_count(), 4);
    let source = rec.commit();
    assert_eq!(source.frame_count(), 4);
    let mut dest = clip_engine::supplier::AudioBuffer::new(4);
    source.supply_audio(
        &clip_engine::supplier::SupplyAudioRequest { start_frame: 0 },
        &mut dest,
    );
    assert_eq!(dest.sample(0), 5);
    assert_eq!(dest.sample(1), -7);
    assert_eq!(dest.sample(2), MAX_SAMPLE);
    assert_eq!(dest.sample(3), -MAX_SAMPLE);
    // The out-of-material event was dropped at commit.
    let mut out = Vec::new();
    source.supply_midi(
        &clip_engine::supplier::SupplyMidiRequest { start_frame: 0, dest_frame_count: 4 },
        &mut out,
    );
    assert_eq!(out, vec![MidiEvent { frame: 2, payload: 9 }]);
}

#[test]
fn slot_play_options_default_is_immediate() {
    let options = SlotPlayOptions::default();
    assert!(!options.next_bar);
    assert!(!options.buffered);
}

#[test]
fn clip_supplies_midi_with_looping_offsets() {
    let source = Source::new(
        (0..100i64).collect(),
        vec![MidiEvent { frame: 95, payload: 7 }],
        48000,
    );
    let mut clip = Clip::new(source, true, 1000);
    clip.play(ClipPlayArgs { from_bar: None });
    let mut out: Vec<MidiEvent> = Vec::new();
    let r = clip.supply_midi(90, &mut out);
    assert_eq!(r.num_frames_written, 90);
    assert_eq!(out, vec![]);
    // The next block covers the loop end: the event near the end of the
    // material appears at its offset from the block start.
    let r = clip.supply_midi(90, &mut out);
    assert_eq!(r.num_frames_written, 90);
    assert_eq!(out, vec![MidiEvent { frame: 5, payload: 7 }]);
}
