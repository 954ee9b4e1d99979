//! Tests of the supplier pipeline: source supply, the looper's splice,
//! un-modulo translation, fades, and MIDI windows.

use clip_engine::looper::{LoopBehavior, Looper, Repetition};
use clip_engine::supplier::{
    AudioBuffer, MidiEvent, Source, SupplyAudioRequest, SupplyMidiRequest,
};
use clip_engine::FADE_LENGTH;

fn ramp_source(frame_count: usize) -> Source {
    let frames: Vec<i64> = (0..frame_count as i64).collect();
    Source::new(frames, Vec::new(), 48000)
}

fn const_source(frame_count: usize, value: i64) -> Source {
    let frames: Vec<i64> = vec![value; frame_count];
    Source::new(frames, Vec::new(), 48000)
}

fn supply(looper: &Looper, start_frame: isize, len: usize) -> (AudioBuffer, clip_engine::supplier::SupplyResponse) {
    let mut dest = AudioBuffer::new(len);
    let r = looper.supply_audio(&SupplyAudioRequest { start_frame }, &mut dest);
    (dest, r)
}

#[test]
fn source_supplies_material_and_reports_next_frame() {
    let source = ramp_source(100);
    let mut dest = AudioBuffer::new(30);
    let r = source.supply_audio(&SupplyAudioRequest { start_frame: 10 }, &mut dest);
    assert_eq!(r.num_frames_written, 30);
    assert_eq!(r.num_frames_consumed, 30);
    assert_eq!(r.next_inner_frame, Some(40));
    for i in 0..30 {
        assert_eq!(dest.sample(i), (10 + i) as i64);
    }
}

#[test]
fn source_pads_negative_start_with_silence() {
    let source = ramp_source(100);
    let mut dest = AudioBuffer::new(10);
    let r = source.supply_audio(&SupplyAudioRequest { start_frame: -5 }, &mut dest);
    assert_eq!(r.num_frames_written, 10);
    assert_eq!(r.next_inner_frame, Some(5));
    for i in 0..5 {
        assert_eq!(dest.sample(i), 0);
    }
    for i in 5..10 {
        assert_eq!(dest.sample(i), (i - 5) as i64);
    }
}

#[test]
fn source_reports_exhaustion() {
    let source = ramp_source(100);
    let mut dest = AudioBuffer::new(30);
    let r = source.supply_audio(&SupplyAudioRequest { start_frame: 80 }, &mut dest);
    assert_eq!(r.num_frames_written, 20);
    assert_eq!(r.num_frames_consumed, 20);
    assert_eq!(r.next_inner_frame, None);
    for i in 0..20 {
        assert_eq!(dest.sample(i), (80 + i) as i64);
    }
}

#[test]
fn basic_loop_splice() {
    // A 1000-frame source, looping endlessly, requested in blocks of 700.
    let mut looper = Looper::new(ramp_source(1000));
    looper.set_loop_behavior(LoopBehavior::Infinitely);
    let (dest, r) = supply(&looper, 0, 700);
    assert_eq!(r.num_frames_written, 700);
    assert_eq!(r.num_frames_consumed, 700);
    assert_eq!(r.next_inner_frame, Some(700));
    for i in 0..700 {
        assert_eq!(dest.sample(i), i as i64);
    }
    // The second block crosses the loop end: 300 frames from the tail,
    // then 400 from the head. The next frame is reported in the absolute
    // cycle-aware frame space: one full cycle plus inner frame 400.
    let (dest, r) = supply(&looper, 700, 700);
    assert_eq!(r.num_frames_written, 700);
    assert_eq!(r.num_frames_consumed, 700);
    assert_eq!(r.next_inner_frame, Some(1400));
    for i in 0..300 {
        assert_eq!(dest.sample(i), (700 + i) as i64);
    }
    for i in 300..700 {
        assert_eq!(dest.sample(i), (i - 300) as i64);
    }
}

#[test]
fn loop_continuity_across_chunkings() {
    // Consecutive blocks of arbitrary sizes concatenate to the same
    // samples as one block of the total length.
    let mut looper = Looper::new(ramp_source(1000));
    looper.set_loop_behavior(LoopBehavior::Infinitely);
    let mut chunked: Vec<i64> = Vec::new();
    let mut start: isize = 0;
    for len in [300usize, 500, 400] {
        let (dest, r) = supply(&looper, start, len);
        assert_eq!(r.num_frames_written, len);
        for i in 0..len {
            chunked.push(dest.sample(i));
        }
        start = r.next_inner_frame.unwrap();
    }
    let (whole, _) = supply(&looper, 0, 1200);
    for i in 0..1200 {
        assert_eq!(chunked[i], whole.sample(i), "mismatch at frame {i}");
    }
}

#[test]
fn unmodulo_position_is_monotonic() {
    let mut looper = Looper::new(ramp_source(250));
    looper.set_loop_behavior(LoopBehavior::Infinitely);
    let mut pos: isize = 0;
    for len in [100usize, 100, 100, 249, 1, 250] {
        let (_, r) = supply(&looper, pos, len);
        let next = r.next_inner_frame.unwrap();
        assert!(next >= pos, "position fell back: {next} < {pos}");
        pos = next;
    }
}

#[test]
fn looping_stops_after_permitted_cycle() {
    // UntilEndOfCycle(0) means not looping: the material runs out.
    let looper = Looper::new(ramp_source(100));
    let (_, r) = supply(&looper, 80, 50);
    assert_eq!(r.num_frames_written, 20);
    assert_eq!(r.next_inner_frame, None);
    // A start frame beyond the permitted cycle passes through too.
    let mut looper = Looper::new(ramp_source(100));
    looper.set_loop_behavior(LoopBehavior::UntilEndOfCycle(1));
    let (_, r) = supply(&looper, 150, 30);
    assert_eq!(r.num_frames_written, 30);
    let (_, r) = supply(&looper, 250, 30);
    assert_eq!(r.num_frames_written, 0);
}

#[test]
fn reset_converts_one_shot_repeat_into_looping() {
    let mut looper = Looper::new(ramp_source(100));
    looper.set_loop_behavior(LoopBehavior::UntilEndOfCycle(3));
    looper.reset();
    let (_, r) = supply(&looper, 450, 30);
    assert_eq!(r.num_frames_written, 30);
    // A looper that is not looping stays that way on reset.
    let mut looper = Looper::new(ramp_source(100));
    looper.reset();
    let (_, r) = supply(&looper, 100, 30);
    assert_eq!(r.num_frames_written, 0);
}

#[test]
fn loop_behavior_constructors() {
    assert!(matches!(LoopBehavior::from_bool(true), LoopBehavior::Infinitely));
    assert!(matches!(LoopBehavior::from_bool(false), LoopBehavior::UntilEndOfCycle(0)));
    assert!(matches!(
        LoopBehavior::from_repetition(Repetition::Infinitely),
        LoopBehavior::Infinitely
    ));
    assert!(matches!(
        LoopBehavior::from_repetition(Repetition::Once),
        LoopBehavior::UntilEndOfCycle(0)
    ));
}

#[test]
fn get_cycle_at_frame_divides_by_material_length() {
    let looper = Looper::new(ramp_source(100));
    assert_eq!(looper.get_cycle_at_frame(0), 0);
    assert_eq!(looper.get_cycle_at_frame(99), 0);
    assert_eq!(looper.get_cycle_at_frame(100), 1);
    assert_eq!(looper.get_cycle_at_frame(250), 2);
}

#[test]
fn fade_gains_are_symmetric_at_the_splice() {
    // Fade symmetry: the gain at the fade-out midpoint of a cycle equals
    // the gain at the fade-in midpoint of the next cycle; both are half.
    let frame_count = 960;
    let value = 960_000i64;
    let mut looper = Looper::new(const_source(frame_count, value));
    looper.set_loop_behavior(LoopBehavior::Infinitely);
    looper.set_fades_enabled(true);
    let half = (FADE_LENGTH / 2) as isize;
    // One block covering the fade-out midpoint, the splice and the
    // fade-in midpoint of the next cycle.
    let start = frame_count as isize - half;
    let (dest, _) = supply(&looper, start, frame_count);
    // Fade-out midpoint, frame 720: half the sample value.
    assert_eq!(dest.sample(0), value / 2);
    // Exactly at the splice the fade-in starts from zero.
    assert_eq!(dest.sample(half as usize), 0);
    // Fade-in midpoint of the next cycle, frame 1200: half again.
    assert_eq!(dest.sample((2 * half) as usize), value / 2);
    // Away from the splice the gain is unity.
    assert_eq!(dest.sample(720), value);
}

#[test]
fn midi_splice_shifts_wrapped_event_offsets() {
    let events = vec![
        MidiEvent { frame: 5, payload: 11 },
        MidiEvent { frame: 95, payload: 22 },
    ];
    let source = Source::new((0..100i64).collect(), events, 48000);
    let mut looper = Looper::new(source);
    looper.set_loop_behavior(LoopBehavior::Infinitely);
    let mut out: Vec<MidiEvent> = Vec::new();
    let r = looper.supply_midi(
        &SupplyMidiRequest { start_frame: 90, dest_frame_count: 20 },
        &mut out,
    );
    assert_eq!(r.num_frames_written, 20);
    // The tail event lands at its offset from the window start; the event
    // from the head of the next cycle continues right after the splice.
    assert_eq!(out, vec![
        MidiEvent { frame: 5, payload: 22 },
        MidiEvent { frame: 15, payload: 11 },
    ]);
}

#[test]
fn midi_supply_without_wrap() {
    let events = vec![
        MidiEvent { frame: 5, payload: 11 },
        MidiEvent { frame: 50, payload: 22 },
    ];
    let source = Source::new((0..100i64).collect(), events, 48000);
    let mut out: Vec<MidiEvent> = Vec::new();
    let r = source.supply_midi(
        &SupplyMidiRequest { start_frame: 0, dest_frame_count: 40 },
        &mut out,
    );
    assert_eq!(r.num_frames_written, 40);
    assert_eq!(r.next_inner_frame, Some(40));
    assert_eq!(out, vec![MidiEvent { frame: 5, payload: 11 }]);
}
