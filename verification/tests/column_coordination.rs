//! Tests of the column coordination layer: the bounded command and event
//! queues, the real-time tick, polling, recording, and persistence.

use clip_engine::api;
use clip_engine::clip::{Clip, ClipChangedEvent, ClipPlayState};
use clip_engine::column::{Column, ColumnCommand, ColumnEvent, CHANNEL_CAPACITY};
use clip_engine::recorder::RecordBehavior;
use clip_engine::supplier::{AudioBuffer, Source};
use clip_engine::timeline::{next_bar_pos, TimelineMoment};

fn test_source(frame_count: usize) -> Source {
    let frames: Vec<i64> = (0..frame_count as i64).collect();
    Source::new(frames, Vec::new(), 48000)
}

fn test_clip(frame_count: usize, looped: bool) -> Clip {
    Clip::new(test_source(frame_count), looped, 1000)
}

fn moment(cursor: isize) -> TimelineMoment {
    TimelineMoment::new(cursor, 120_000, true, next_bar_pos(cursor, 1000))
}

#[test]
fn fill_play_and_poll() {
    let mut col = Column::new();
    col.fill_slot(0, test_clip(1000, true)).ok().unwrap();
    col.tick(&moment(0));
    assert_eq!(col.slot_count(), 1);
    assert_eq!(col.slot_play_state(0), Ok(ClipPlayState::Stopped));
    col.play_clip(0, false).ok().unwrap();
    col.tick(&moment(100));
    assert_eq!(col.slot_play_state(0), Ok(ClipPlayState::Playing));
    let changes = col.poll();
    assert!(changes.contains(&(0, ClipChangedEvent::PlayState(ClipPlayState::Playing))));
    assert!(changes.contains(&(0, ClipChangedEvent::ClipPosition(0))));
}

#[test]
fn commands_are_applied_in_send_order() {
    let mut col = Column::new();
    col.fill_slot(0, test_clip(1000, true)).ok().unwrap();
    col.play_clip(0, false).ok().unwrap();
    col.stop_clip(0, false).ok().unwrap();
    col.tick(&moment(0));
    // Play then stop, in order: the clip ends up stopped.
    assert_eq!(col.slot_play_state(0), Ok(ClipPlayState::Stopped));
}

#[test]
fn command_queue_backpressure_is_retryable_and_preserves_order() {
    // Filling the bounded command queue to capacity and then issuing one
    // more command returns a retryable failure and leaves every pending
    // command intact and in order.
    let mut col = Column::new();
    col.fill_slot(0, test_clip(1000, true)).ok().unwrap();
    col.tick(&moment(0));
    let mut accepted = 0u32;
    for v in 1..=(CHANNEL_CAPACITY as u32 + 1) {
        match col.set_clip_volume(0, v % 4000) {
            Ok(()) => accepted += 1,
            Err(cmd) => {
                // The command comes back unchanged.
                match cmd {
                    ColumnCommand::SetClipVolume { index, volume } => {
                        assert_eq!(index, 0);
                        assert_eq!(volume, v % 4000);
                    },
                    _ => panic!("wrong command returned"),
                }
            },
        }
    }
    assert_eq!(accepted, CHANNEL_CAPACITY as u32);
    // Draining applies all pending commands in order: the last accepted
    // volume wins.
    for _ in 0..(CHANNEL_CAPACITY / 100 + 1) {
        col.tick(&moment(0));
    }
    assert_eq!(col.clip_volume(0), Ok(CHANNEL_CAPACITY as u32 % 4000));
    // After draining, sending works again.
    assert!(col.set_clip_volume(0, 123).is_ok());
}

#[test]
fn quantized_play_through_the_column() {
    let mut col = Column::new();
    col.fill_slot(0, test_clip(1000, true)).ok().unwrap();
    col.tick(&moment(0));
    col.play_clip(0, true).ok().unwrap();
    // The command is applied at a tick whose moment reports bar 2000 as
    // the next boundary; the clip waits for it.
    col.tick(&moment(1500));
    assert_eq!(col.slot_play_state(0), Ok(ClipPlayState::ScheduledForPlay));
    col.tick(&moment(1999));
    assert_eq!(col.slot_play_state(0), Ok(ClipPlayState::ScheduledForPlay));
    col.tick(&moment(2000));
    assert_eq!(col.slot_play_state(0), Ok(ClipPlayState::Playing));
}

#[test]
fn commands_against_missing_slots_report_errors() {
    let mut col = Column::new();
    col.play_clip(7, false).ok().unwrap();
    col.tick(&moment(0));
    let mut saw_error = false;
    while let Some(evt) = col.poll_event() {
        if let ColumnEvent::InteractionFailed { slot_index, .. } = evt {
            assert_eq!(slot_index, 7);
            saw_error = true;
        }
    }
    assert!(saw_error);
}

#[test]
fn commands_against_empty_slots_report_errors() {
    let mut col = Column::new();
    col.fill_slot(1, test_clip(1000, true)).ok().unwrap();
    col.tick(&moment(0));
    // Slot 0 exists (created lazily below slot 1) but is empty.
    col.pause_clip(0).ok().unwrap();
    col.tick(&moment(0));
    let mut saw_error = false;
    while let Some(evt) = col.poll_event() {
        if let ColumnEvent::InteractionFailed { slot_index, .. } = evt {
            assert_eq!(slot_index, 0);
            saw_error = true;
        }
    }
    assert!(saw_error);
}

#[test]
fn volume_and_repeat_round_trip() {
    let mut col = Column::new();
    col.fill_slot(0, test_clip(1000, false)).ok().unwrap();
    col.tick(&moment(0));
    col.set_clip_volume(0, 2500).ok().unwrap();
    col.set_clip_repeated(0, true).ok().unwrap();
    col.tick(&moment(0));
    assert_eq!(col.clip_volume(0), Ok(2500));
    assert_eq!(col.clip_looped(0), Ok(true));
    let evt = col.toggle_clip_repeated(0).unwrap();
    assert_eq!(evt, ClipChangedEvent::ClipRepeat(false));
    assert_eq!(col.clip_looped(0), Ok(false));
}

#[test]
fn out_of_range_volume_is_rejected_with_an_event() {
    let mut col = Column::new();
    col.fill_slot(0, test_clip(1000, false)).ok().unwrap();
    col.tick(&moment(0));
    col.set_clip_volume(0, 999_999).ok().unwrap();
    col.tick(&moment(0));
    assert_eq!(col.clip_volume(0), Ok(1000));
    let mut saw_error = false;
    while let Some(evt) = col.poll_event() {
        if matches!(evt, ColumnEvent::InteractionFailed { .. }) {
            saw_error = true;
        }
    }
    assert!(saw_error);
}

#[test]
fn seek_moves_the_reported_position() {
    let mut col = Column::new();
    col.fill_slot(0, test_clip(1000, true)).ok().unwrap();
    col.play_clip(0, false).ok().unwrap();
    col.seek_clip(0, 250).ok().unwrap();
    col.tick(&moment(0));
    assert_eq!(col.proportional_slot_position(0), Ok(250));
}

#[test]
fn recording_captures_material_and_reports_completion() {
    let mut col = Column::new();
    col.record_clip(0, RecordBehavior::Normal { play_after: false }, 48000).ok().unwrap();
    col.tick(&moment(0));
    col.write_clip_audio(0, &vec![7, 8, 9]).unwrap();
    col.write_clip_audio(0, &vec![10]).unwrap();
    col.stop_clip(0, false).ok().unwrap();
    col.tick(&moment(0));
    let mut finished = None;
    while let Some(evt) = col.poll_event() {
        if let ColumnEvent::NormalRecordingFinished { slot_index, frame_count } = evt {
            finished = Some((slot_index, frame_count));
        }
    }
    assert_eq!(finished, Some((0, 4)));
    // The captured material is playable.
    col.play_clip(0, false).ok().unwrap();
    col.tick(&moment(0));
    let mut dest = AudioBuffer::new(4);
    col.supply_slot_audio(0, &mut dest).unwrap();
    assert_eq!(dest.sample(0), 7);
    assert_eq!(dest.sample(3), 10);
}

#[test]
fn aborted_recording_clears_the_slot() {
    let mut col = Column::new();
    col.record_clip(0, RecordBehavior::Normal { play_after: false }, 48000).ok().unwrap();
    col.tick(&moment(0));
    // Stop without having written anything: nothing worth keeping.
    col.stop_clip(0, false).ok().unwrap();
    col.tick(&moment(0));
    assert!(col.clip_volume(0).is_err());
}

#[test]
fn supply_advances_and_loops() {
    let mut col = Column::new();
    col.fill_slot(0, test_clip(1000, true)).ok().unwrap();
    col.play_clip(0, false).ok().unwrap();
    col.tick(&moment(0));
    let mut dest = AudioBuffer::new(700);
    let r = col.supply_slot_audio(0, &mut dest).unwrap();
    assert_eq!(r.num_frames_written, 700);
    assert_eq!(dest.sample(0), 0);
    let mut dest = AudioBuffer::new(700);
    col.supply_slot_audio(0, &mut dest).unwrap();
    // The second block spliced across the loop end.
    assert_eq!(dest.sample(299), 999);
    assert_eq!(dest.sample(300), 0);
}

#[test]
fn non_looped_clip_stops_at_material_end() {
    let mut col = Column::new();
    col.fill_slot(0, test_clip(100, false)).ok().unwrap();
    col.play_clip(0, false).ok().unwrap();
    col.tick(&moment(0));
    let mut dest = AudioBuffer::new(80);
    col.supply_slot_audio(0, &mut dest).unwrap();
    assert_eq!(col.slot_play_state(0), Ok(ClipPlayState::Playing));
    let mut dest = AudioBuffer::new(80);
    let r = col.supply_slot_audio(0, &mut dest).unwrap();
    assert_eq!(r.num_frames_written, 20);
    assert_eq!(col.slot_play_state(0), Ok(ClipPlayState::Stopped));
}

fn test_api_clip(path: &str, looped: bool, volume: u32) -> api::Clip {
    api::Clip {
        source: api::Source::File(api::FileSource { path: path.to_string() }),
        time_base: api::ClipTimeBase::Time,
        start_timing: None,
        stop_timing: None,
        looped,
        volume,
        color: api::ClipColor::PlayTrackColor,
        section: api::Section { start_pos: api::Seconds(0), length: None },
        audio_settings: api::ClipAudioSettings {
            cache_behavior: api::AudioCacheBehavior::DirectFromDisk,
            apply_source_fades: true,
            time_stretch_mode: None,
        },
        midi_settings: api::ClipMidiSettings {
            source_reset_settings: default_reset_range(),
            section_reset_settings: default_reset_range(),
            loop_reset_settings: default_reset_range(),
            interaction_reset_settings: default_reset_range(),
        },
    }
}

fn default_reset_range() -> api::MidiResetMessageRange {
    let m = api::MidiResetMessages { all_notes_off: false, all_sounds_off: false, sustain_off: false };
    api::MidiResetMessageRange { start: m, end: m }
}

#[test]
fn load_and_save_round_trip() {
    let mut col = Column::new();
    let api_column = api::Column {
        clip_play_settings: api::ColumnClipPlaySettings {
            track: Some(api::TrackId("track-a".to_string())),
            start_timing: Some(api::ClipPlayStartTiming::Immediately),
            stop_timing: None,
            audio_settings: api::ColumnClipPlayAudioSettings { time_stretch_mode: None },
        },
        clip_record_settings: api::ColumnClipRecordSettings {
            track: None,
            origin: api::TrackRecordOrigin::TrackInput,
        },
        slots: vec![api::Slot { row: 2, clip: Some(test_api_clip("a.wav", true, 900)) }],
    };
    col.load(api_column, vec![Some(test_source(500))]).unwrap();
    assert_eq!(col.slot_count(), 3);
    assert_eq!(col.clip_looped(2), Ok(true));
    assert_eq!(col.clip_volume(2), Ok(900));
    // Live changes flow back into the persisted form.
    col.toggle_clip_repeated(2).unwrap();
    let saved = col.save();
    assert_eq!(saved.slots.len(), 1);
    assert_eq!(saved.slots[0].row, 2);
    let saved_clip = saved.slots[0].clip.as_ref().unwrap();
    assert!(!saved_clip.looped);
    assert_eq!(saved_clip.volume, 900);
    assert_eq!(
        saved_clip.source,
        api::Source::File(api::FileSource { path: "a.wav".to_string() })
    );
    assert_eq!(
        saved.clip_play_settings.track,
        Some(api::TrackId("track-a".to_string()))
    );
    assert_eq!(
        saved.clip_play_settings.start_timing,
        Some(api::ClipPlayStartTiming::Immediately)
    );
}

#[test]
fn unresolved_material_is_skipped_without_losing_the_preset() {
    let mut col = Column::new();
    let api_column = api::Column {
        clip_play_settings: api::ColumnClipPlaySettings {
            track: None,
            start_timing: None,
            stop_timing: None,
            audio_settings: api::ColumnClipPlayAudioSettings { time_stretch_mode: None },
        },
        clip_record_settings: api::ColumnClipRecordSettings {
            track: None,
            origin: api::TrackRecordOrigin::TrackInput,
        },
        slots: vec![api::Slot { row: 0, clip: Some(test_api_clip("missing.wav", false, 1000)) }],
    };
    col.load(api_column, vec![None]).unwrap();
    // The slot stays empty, but loading reported no error.
    assert!(col.clip_volume(0).is_err() || col.slot_count() == 0);
}

#[test]
fn midi_overdub_merges_events_into_the_clip() {
    let mut col = Column::new();
    let source = Source::new(
        (0..100i64).collect(),
        vec![clip_engine::supplier::MidiEvent { frame: 10, payload: 1 }],
        48000,
    );
    col.fill_slot(0, Clip::new(source, true, 1000)).ok().unwrap();
    col.tick(&moment(0));
    col.record_clip(0, RecordBehavior::MidiOverdub, 48000).ok().unwrap();
    col.tick(&moment(0));
    col.write_clip_midi(
        0,
        &vec![
            clip_engine::supplier::MidiEvent { frame: 20, payload: 2 },
            clip_engine::supplier::MidiEvent { frame: 500, payload: 3 },
        ],
    )
    .unwrap();
    col.stop_clip(0, false).ok().unwrap();
    col.tick(&moment(0));
    let mut finished = None;
    while let Some(evt) = col.poll_event() {
        if let ColumnEvent::NormalRecordingFinished { frame_count, .. } = evt {
            finished = Some(frame_count);
        }
    }
    // The overdub reports the unchanged material length.
    assert_eq!(finished, Some(100));
}

#[test]
fn midi_overdub_on_an_empty_slot_fails() {
    let mut col = Column::new();
    col.fill_slot(1, test_clip(100, true)).ok().unwrap();
    col.tick(&moment(0));
    col.record_clip(0, RecordBehavior::MidiOverdub, 48000).ok().unwrap();
    col.tick(&moment(0));
    let mut saw_error = false;
    while let Some(evt) = col.poll_event() {
        if matches!(evt, ColumnEvent::InteractionFailed { slot_index: 0, .. }) {
            saw_error = true;
        }
    }
    assert!(saw_error);
}

#[test]
fn fill_beyond_the_slot_range_reports_an_error() {
    let mut col = Column::new();
    col.fill_slot(0x1_0000, test_clip(100, false)).ok().unwrap();
    col.tick(&moment(0));
    assert_eq!(col.slot_count(), 0);
    let mut saw_error = false;
    while let Some(evt) = col.poll_event() {
        if matches!(evt, ColumnEvent::InteractionFailed { slot_index: 0x1_0000, .. }) {
            saw_error = true;
        }
    }
    assert!(saw_error);
}

#[test]
fn out_of_range_seek_is_rejected_with_an_event() {
    let mut col = Column::new();
    col.fill_slot(0, test_clip(1000, true)).ok().unwrap();
    col.seek_clip(0, 1001).ok().unwrap();
    col.tick(&moment(0));
    assert_eq!(col.proportional_slot_position(0), Ok(0));
    let mut saw_error = false;
    while let Some(evt) = col.poll_event() {
        if matches!(evt, ColumnEvent::InteractionFailed { .. }) {
            saw_error = true;
        }
    }
    assert!(saw_error);
}
