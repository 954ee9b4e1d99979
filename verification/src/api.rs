//! The preset data model: the plain values a column matrix is saved as and
//! loaded from.
//!
//! Fields are optional only where they have a natural default or override
//! an inherited value. Times are carried as integers: tempo in thousandths
//! of a beat per minute, durations in milliseconds.

use vstd::prelude::*;

verus! {

/// A tempo, in thousandths of a beat per minute.
#[derive(Clone, Copy, PartialEq, Eq, Debug, Structural)]
pub struct Bpm(pub u32);

/// A duration, in milliseconds.
#[derive(Clone, Copy, PartialEq, Eq, Debug, Structural)]
pub struct Seconds(pub u64);

/// An inclusive tempo range.
#[derive(Clone, Copy, PartialEq, Eq, Debug, Structural)]
pub struct TempoRange {
    pub min: Bpm,
    pub max: Bpm,
}

/// A complete clip matrix.
#[derive(Clone, Debug, PartialEq)]
pub struct Matrix {
    /// All columns from left to right.
    pub columns: Vec<Column>,
    /// All rows from top to bottom.
    pub rows: Vec<Row>,
    pub clip_play_settings: MatrixClipPlaySettings,
    pub clip_record_settings: MatrixClipRecordSettings,
    pub common_tempo_range: TempoRange,
}

/// Matrix-global settings related to playing clips.
#[derive(Clone, Copy, Debug, PartialEq)]
pub struct MatrixClipPlaySettings {
    pub start_timing: ClipPlayStartTiming,
    pub stop_timing: ClipPlayStopTiming,
    pub audio_settings: MatrixClipPlayAudioSettings,
}

#[derive(Clone, Copy, Debug, PartialEq)]
pub struct MatrixClipPlayAudioSettings {
    pub time_stretch_mode: AudioTimeStretchMode,
}

/// Matrix-global settings related to recording clips.
#[derive(Clone, Copy, Debug, PartialEq)]
pub struct MatrixClipRecordSettings {
    pub start_timing: ClipRecordStartTiming,
    pub stop_timing: ClipRecordStopTiming,
    pub duration: RecordLength,
    pub play_start_timing: ClipSettingOverrideAfterRecording<ClipPlayStartTiming>,
    pub play_stop_timing: ClipSettingOverrideAfterRecording<ClipPlayStopTiming>,
    pub time_base: ClipRecordTimeBase,
    /// If `true`, starts playing the clip right after recording.
    pub play_after: bool,
    /// If `true`, sets the global tempo to the tempo of this clip right
    /// after recording.
    pub lead_tempo: bool,
    pub midi_settings: MatrixClipRecordMidiSettings,
    pub audio_settings: MatrixClipRecordAudioSettings,
}

#[derive(Clone, Copy, Debug, PartialEq)]
pub struct MatrixClipRecordMidiSettings {
    pub record_mode: MidiClipRecordMode,
    /// If `true`, attempts to detect the actual start of the recorded MIDI
    /// material and derives the downbeat position from that.
    pub detect_downbeat: bool,
    /// Makes the global record button work for MIDI by allowing global
    /// input detection.
    pub detect_input: bool,
    /// Applies quantization while recording using the current quantization
    /// settings.
    pub auto_quantize: bool,
}

#[derive(Clone, Copy, Debug, PartialEq)]
pub struct MatrixClipRecordAudioSettings {
    /// If `true`, attempts to detect the actual start of the recorded
    /// audio material and derives the downbeat position from that.
    pub detect_downbeat: bool,
    /// Makes the global record button work for audio by allowing global
    /// input detection.
    pub detect_input: bool,
}

#[derive(Clone, Copy, Debug, PartialEq)]
pub enum RecordLength {
    /// Records open-ended until the user decides to stop.
    OpenEnd,
    /// Records exactly as much material as defined by the given
    /// quantization.
    Quantized(EvenQuantization),
}

#[derive(Clone, Copy, Debug, PartialEq)]
pub enum ClipRecordTimeBase {
    /// The recorded clip gets a time time base.
    Time,
    /// The recorded clip gets a beat time base.
    Beat,
    /// Derives the time base of the resulting clip from the clip
    /// start/stop timing.
    DeriveFromRecordTiming,
}

#[derive(Clone, Copy, Debug, PartialEq)]
pub enum ClipRecordStartTiming {
    /// Uses the global clip play start timing.
    LikeClipPlayStartTiming,
    /// Starts recording immediately.
    Immediately,
    /// Starts recording according to the given quantization.
    Quantized(EvenQuantization),
}

#[derive(Clone, Copy, Debug, PartialEq)]
pub enum ClipRecordStopTiming {
    /// Uses the record start timing.
    LikeClipRecordStartTiming,
    /// Stops recording immediately.
    Immediately,
    /// Stops recording according to the given quantization.
    Quantized(EvenQuantization),
}

#[derive(Clone, Copy, Debug, PartialEq)]
pub enum MidiClipRecordMode {
    /// Creates an empty clip and records MIDI material in it.
    Normal,
    /// Records more material onto an existing clip, leaving existing
    /// material in place.
    Overdub,
    /// Records more material onto an existing clip, overwriting existing
    /// material.
    Replace,
}

#[derive(Clone, Copy, Debug, PartialEq)]
pub enum ClipPlayStartTiming {
    /// Starts playing immediately.
    Immediately,
    /// Starts playing according to the given quantization.
    Quantized(EvenQuantization),
}

#[derive(Clone, Copy, Debug, PartialEq)]
pub enum ClipPlayStopTiming {
    /// Uses the play start timing.
    LikeClipStartTiming,
    /// Stops playing immediately.
    Immediately,
    /// Stops playing according to the given quantization.
    Quantized(EvenQuantization),
    /// Keeps playing until the end of the clip.
    UntilEndOfClip,
}

#[derive(Clone, Copy, Debug, PartialEq)]
pub enum ClipSettingOverrideAfterRecording<T> {
    /// Doesn't apply any override.
    Inherit,
    /// Overrides the setting with the given value.
    Override(Override<T>),
    /// Overrides the setting with a value derived from the record timing.
    OverrideFromRecordTiming,
}

#[derive(Clone, Copy, Debug, PartialEq)]
pub struct Override<T> {
    pub value: T,
}

/// An even quantization: even in the sense that it is not swing or dotted.
#[derive(Clone, Copy, PartialEq, Eq, Debug, Structural)]
pub struct EvenQuantization {
    /// The number of bars. Must not be zero.
    pub numerator: u32,
    /// Defines the fraction of a bar. Must not be zero. If the numerator
    /// is greater than one, this must be one.
    pub denominator: u32,
}

impl EvenQuantization {
    /// The documented invariant of an even quantization.
    pub open spec fn wf(&self) -> bool {
        &&& self.numerator > 0
        &&& self.denominator > 0
        &&& self.numerator > 1 ==> self.denominator == 1
    }
}

/// One column of the matrix, as persisted: its settings plus its filled
/// slots. Absent slots are omitted, not stored as empty placeholders.
#[derive(Clone, Debug, PartialEq)]
pub struct Column {
    pub clip_play_settings: ColumnClipPlaySettings,
    pub clip_record_settings: ColumnClipRecordSettings,
    /// Slots in this column. Only filled slots need to be mentioned here.
    pub slots: Vec<Slot>,
}

#[derive(Clone, Debug, PartialEq)]
pub struct ColumnClipPlaySettings {
    /// The playback track used for clips in this column. A column may be
    /// in a track-less state (for example after a track deletion) and must
    /// still be saveable, so this stays optional.
    pub track: Option<TrackId>,
    /// Start timing override; `None` means the matrix-global start timing.
    pub start_timing: Option<ClipPlayStartTiming>,
    /// Stop timing override; `None` means the matrix-global stop timing.
    pub stop_timing: Option<ClipPlayStopTiming>,
    pub audio_settings: ColumnClipPlayAudioSettings,
}

#[derive(Clone, Debug, PartialEq)]
pub struct ColumnClipRecordSettings {
    /// By default recording happens on the play track, but this allows
    /// overriding that.
    pub track: Option<TrackId>,
    pub origin: TrackRecordOrigin,
}

#[derive(Clone, Copy, Debug, PartialEq)]
pub struct ColumnClipPlayAudioSettings {
    /// Overrides the matrix-global audio time stretch mode for clips in
    /// this column.
    pub time_stretch_mode: Option<AudioTimeStretchMode>,
}

#[derive(Clone, Debug, PartialEq)]
pub struct Row {
    pub scene: Scene,
}

#[derive(Clone, Debug, PartialEq)]
pub struct Scene {
    pub name: Option<String>,
    /// An optional tempo associated with this row.
    pub tempo: Option<Bpm>,
    /// An optional time signature associated with this row.
    pub time_signature: Option<TimeSignature>,
}

#[derive(Clone, Copy, Debug, PartialEq)]
pub enum AudioTimeStretchMode {
    /// Stretches or squeezes the material, changing the pitch with it.
    /// Comparatively fast.
    VariSpeed(VariSpeedMode),
    /// Applies a real time-stretch algorithm which keeps the pitch.
    /// Comparatively slow.
    KeepingPitch(TimeStretchMode),
}

#[derive(Clone, Copy, Debug, PartialEq)]
pub struct VariSpeedMode {
    pub mode: VirtualVariSpeedMode,
}

#[derive(Clone, Copy, Debug, PartialEq)]
pub enum VirtualVariSpeedMode {
    /// Uses the resample mode set as the project default.
    ProjectDefault,
    /// Uses a specific resample mode.
    ReaperMode(ReaperResampleMode),
}

#[derive(Clone, Copy, PartialEq, Eq, Debug, Structural)]
pub struct ReaperResampleMode {
    pub mode: u32,
}

#[derive(Clone, Copy, Debug, PartialEq)]
pub struct TimeStretchMode {
    pub mode: VirtualTimeStretchMode,
}

#[derive(Clone, Copy, Debug, PartialEq)]
pub enum VirtualTimeStretchMode {
    /// Uses the pitch shift mode set as the project default.
    ProjectDefault,
    /// Uses a specific pitch shift mode.
    ReaperMode(ReaperPitchShiftMode),
}

#[derive(Clone, Copy, PartialEq, Eq, Debug, Structural)]
pub struct ReaperPitchShiftMode {
    pub mode: u32,
    pub sub_mode: u32,
}

#[derive(Clone, Copy, Debug, PartialEq)]
pub enum TrackRecordOrigin {
    /// Records using the hardware input set for the track.
    TrackInput,
    /// Captures audio from the output of the track.
    TrackAudioOutput,
}

/// One persisted slot: its row and the clip living in it.
#[derive(Clone, Debug, PartialEq)]
pub struct Slot {
    /// Slot index within the column (the row), starting at zero.
    pub row: usize,
    /// Clip which currently lives in this slot.
    pub clip: Option<Clip>,
}

/// One persisted clip.
#[derive(Clone, Debug, PartialEq)]
pub struct Clip {
    /// Source of the audio or MIDI material of this clip.
    pub source: Source,
    /// Time base of the material provided by that source.
    pub time_base: ClipTimeBase,
    /// Start timing override; `None` means the column start timing.
    pub start_timing: Option<ClipPlayStartTiming>,
    /// Stop timing override; `None` means the column stop timing.
    pub stop_timing: Option<ClipPlayStopTiming>,
    /// Whether the clip is played repeatedly or as a single shot.
    pub looped: bool,
    /// The clip volume, in thousandths (1000 is unity gain).
    pub volume: u32,
    /// Color of the clip.
    pub color: ClipColor,
    /// Defines which portion of the original source is played.
    pub section: Section,
    pub audio_settings: ClipAudioSettings,
    pub midi_settings: ClipMidiSettings,
}

#[derive(Clone, Copy, Debug, PartialEq)]
pub struct ClipAudioSettings {
    /// Whether to cache audio in memory.
    pub cache_behavior: AudioCacheBehavior,
    /// Whether to apply automatic fades to fix non-optimized source
    /// material. Fades that are not about fixing the source (section
    /// fades, interaction fades) are applied regardless.
    pub apply_source_fades: bool,
    /// How to adjust audio material to tempo changes; `None` means the
    /// column time stretch mode.
    pub time_stretch_mode: Option<AudioTimeStretchMode>,
}

#[derive(Clone, Copy, Debug, PartialEq)]
pub struct ClipMidiSettings {
    /// For fixing the source itself.
    pub source_reset_settings: MidiResetMessageRange,
    /// For fine-tuning the section.
    pub section_reset_settings: MidiResetMessageRange,
    /// For fine-tuning the complete loop.
    pub loop_reset_settings: MidiResetMessageRange,
    /// For fine-tuning instant start and stop of a MIDI clip in the middle
    /// of a source or section.
    pub interaction_reset_settings: MidiResetMessageRange,
}

#[derive(Clone, Copy, PartialEq, Eq, Debug, Structural)]
pub struct MidiResetMessageRange {
    /// Which MIDI reset messages to apply at the beginning.
    pub start: MidiResetMessages,
    /// Which MIDI reset messages to apply at the end.
    pub end: MidiResetMessages,
}

#[derive(Clone, Copy, PartialEq, Eq, Debug, Structural)]
pub struct MidiResetMessages {
    pub all_notes_off: bool,
    pub all_sounds_off: bool,
    pub sustain_off: bool,
}

/// Which portion of the original source is played.
#[derive(Clone, Copy, PartialEq, Eq, Debug, Structural)]
pub struct Section {
    /// Position in the source from which to start. If greater than zero, a
    /// fade-in avoids clicks.
    pub start_pos: Seconds,
    /// Length of the material to be played from `start_pos`. `None` means
    /// until the source end; it may also exceed the source end.
    pub length: Option<Seconds>,
}

#[derive(Clone, Copy, Debug, PartialEq)]
pub enum AudioCacheBehavior {
    /// Loads directly from the disk.
    DirectFromDisk,
    /// Loads the complete audio data into memory.
    CacheInMemory,
}

#[derive(Clone, Copy, Debug, PartialEq)]
pub enum ClipColor {
    /// Inherits the color of the column's play track.
    PlayTrackColor,
    /// A specific custom color.
    CustomColor(CustomClipColor),
    /// A certain color from a palette.
    PaletteColor(PaletteClipColor),
}

#[derive(Clone, Copy, PartialEq, Eq, Debug, Structural)]
pub struct CustomClipColor {
    pub value: u32,
}

#[derive(Clone, Copy, PartialEq, Eq, Debug, Structural)]
pub struct PaletteClipColor {
    pub index: u32,
}

#[derive(Clone, Debug, PartialEq)]
pub enum Source {
    /// Takes content from a media file on the file system (audio or MIDI).
    File(FileSource),
    /// Embedded MIDI data.
    MidiChunk(MidiChunkSource),
}

#[derive(Clone, Debug, PartialEq)]
pub struct FileSource {
    /// Path to the media file. A relative path is interpreted as relative
    /// to the project directory.
    pub path: String,
}

#[derive(Clone, Debug, PartialEq)]
pub struct MidiChunkSource {
    /// MIDI data in the host's in-project MIDI format.
    pub chunk: String,
}

/// Decides if the clip is adjusted to the current tempo.
#[derive(Clone, Copy, Debug, PartialEq)]
pub enum ClipTimeBase {
    /// Material which does not need to be adjusted to the current tempo.
    Time,
    /// Material which needs to be adjusted to the current tempo.
    Beat(BeatTimeBase),
}

#[derive(Clone, Copy, Debug, PartialEq)]
pub struct BeatTimeBase {
    /// The clip's native tempo; must be set for audio, ignored for MIDI.
    pub audio_bpm: Option<Bpm>,
    /// The time signature of this clip.
    pub time_signature: TimeSignature,
    /// Which position, in thousandths of a beat, is the downbeat.
    pub downbeat: u32,
}

#[derive(Clone, Copy, PartialEq, Eq, Debug, Structural)]
pub struct TimeSignature {
    pub numerator: u32,
    pub denominator: u32,
}

/// The identifier of a host track.
#[derive(Clone, Debug, PartialEq)]
pub struct TrackId(pub String);

/// A color as red, green and blue parts.
#[derive(Clone, Copy, PartialEq, Eq, Debug, Structural)]
pub struct RgbColor(pub u8, pub u8, pub u8);

impl TrackId {
    /// A deep copy; derived clones say nothing to the verifier, so the
    /// copy is spelled out.
    pub fn duplicate(&self) -> (r: TrackId)
        ensures
            r == *self,
    {
        TrackId(self.0.clone())
    }
}

impl FileSource {
    pub fn duplicate(&self) -> (r: FileSource)
        ensures
            r == *self,
    {
        FileSource { path: self.path.clone() }
    }
}

impl MidiChunkSource {
    pub fn duplicate(&self) -> (r: MidiChunkSource)
        ensures
            r == *self,
    {
        MidiChunkSource { chunk: self.chunk.clone() }
    }
}

impl Source {
    pub fn duplicate(&self) -> (r: Source)
        ensures
            r == *self,
    {
        match self {
            Source::File(f) => Source::File(f.duplicate()),
            Source::MidiChunk(c) => Source::MidiChunk(c.duplicate()),
        }
    }
}

impl Clip {
    pub fn duplicate(&self) -> (r: Clip)
        ensures
            r == *self,
    {
        Clip {
            source: self.source.duplicate(),
            time_base: self.time_base,
            start_timing: self.start_timing,
            stop_timing: self.stop_timing,
            looped: self.looped,
            volume: self.volume,
            color: self.color,
            section: self.section,
            audio_settings: self.audio_settings,
            midi_settings: self.midi_settings,
        }
    }
}

impl ColumnClipRecordSettings {
    pub fn duplicate(&self) -> (r: ColumnClipRecordSettings)
        ensures
            r == *self,
    {
        ColumnClipRecordSettings {
            track: match &self.track {
                Some(t) => Some(t.duplicate()),
                None => None,
            },
            origin: self.origin,
        }
    }
}

} // verus!
