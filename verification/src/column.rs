//! The column: an ordered collection of slots that share one output
//! destination, with the cross-thread command/event channel pair and the
//! per-callback real-time tick.
//!
//! The controller context enqueues commands on a bounded queue and polls
//! events from a bounded queue; the real-time tick drains a bounded batch
//! of commands, applies them to the addressed slots, resolves scheduled
//! transitions, and reports state changes as events. Neither side ever
//! blocks: a full command queue is a retryable failure, and a full event
//! queue drops only position updates while play-state and recording
//! events are retried on the next tick.

use vstd::prelude::*;

use crate::api;
use crate::clip::{
    Clip, ClipChangedEvent, ClipPlayArgs, ClipPlayState, ClipStopArgs, ClipStopBehavior,
    MAX_VOLUME,
};
use crate::recorder::RecordBehavior;
use crate::slot::{spec_slot_save, Slot, SlotProcessTransportChangeArgs};
use crate::supplier::{
    AudioBuffer, MidiEvent, Source, MAX_MATERIAL_FRAMES, MAX_SAMPLE, MAX_START_FRAME,
};
use crate::timeline::TimelineMoment;

verus! {

/// The most slots a column can hold.
pub const MAX_SLOTS: usize = 0x1_0000;

/// How many commands one tick applies at most.
pub const COMMAND_BATCH_SIZE: usize = 100;

/// The capacity of the command queue and of the event queue.
pub const CHANNEL_CAPACITY: usize = 500;

/// A command from the controller context to the real-time context.
pub enum ColumnCommand {
    FillSlot { index: usize, clip: Clip },
    PlayClip { index: usize, quantized: bool },
    StopClip { index: usize, quantized: bool },
    PauseClip { index: usize },
    SeekClip { index: usize, proportional_pos: u32 },
    SetClipVolume { index: usize, volume: u32 },
    SetClipLooped { index: usize, looped: bool },
    StartRecording { index: usize, behavior: RecordBehavior, frame_rate: u32 },
    ProcessTransportChange { args: SlotProcessTransportChangeArgs },
}

/// An event from the real-time context to the controller context.
#[derive(Clone, Copy, PartialEq, Eq, Debug)]
pub enum ColumnEvent {
    ClipPlayStateChanged { slot_index: usize, play_state: ClipPlayState },
    ClipPositionChanged { slot_index: usize, proportional_pos: u32 },
    NormalRecordingFinished { slot_index: usize, frame_count: usize },
    InteractionFailed { slot_index: usize, message: &'static str },
}

impl ColumnEvent {
    /// Position updates are advisory and superseded every tick, so they
    /// may be dropped under backpressure; every other event must reach the
    /// controller.
    pub open spec fn is_droppable_spec(self) -> bool {
        self matches ColumnEvent::ClipPositionChanged { .. }
    }

    pub fn is_droppable(&self) -> (r: bool)
        ensures
            r == self.is_droppable_spec(),
    {
        match self {
            ColumnEvent::ClipPositionChanged { .. } => true,
            _ => false,
        }
    }
}

/// The bounded FIFO command channel. Both endpoints are held together:
/// the channel's state lives in the endpoint pair, so contracts speak of
/// the pair as one queue. The controller side sends, the real-time side
/// receives; a clone of the pair's halves for real cross-thread use is
/// made outside the verified engine.
#[verifier::external_body]
pub struct CommandQueue {
    tx: crossbeam_channel::Sender<ColumnCommand>,
    rx: crossbeam_channel::Receiver<ColumnCommand>,
}

/// What the command queue holds, oldest first.
pub uninterp spec fn command_queue_contents(q: CommandQueue) -> Seq<ColumnCommand>;

/// The capacity the command queue was created with.
pub uninterp spec fn command_queue_cap(q: CommandQueue) -> nat;

/// Relies on crossbeam_channel::bounded: creates an empty channel that
/// holds at most `cap` messages.
#[verifier::external_body]
fn command_queue_new(cap: usize) -> (q: CommandQueue)
    requires
        cap > 0,
    ensures
        command_queue_contents(q) == Seq::<ColumnCommand>::empty(),
        command_queue_cap(q) == cap as nat,
{
    let (tx, rx) = crossbeam_channel::bounded(cap);
    CommandQueue { tx, rx }
}

/// Relies on crossbeam_channel::Sender::try_send: on a channel with room
/// it appends the message; on a full channel it returns the message back
/// and changes nothing, without blocking.
#[verifier::external_body]
fn command_queue_try_send(q: &mut CommandQueue, cmd: ColumnCommand) -> (r: Result<
    (),
    ColumnCommand,
>)
    ensures
        command_queue_cap(*final(q)) == command_queue_cap(*old(q)),
        if command_queue_contents(*old(q)).len() < command_queue_cap(*old(q)) {
            &&& r is Ok
            &&& command_queue_contents(*final(q)) == command_queue_contents(*old(q)).push(cmd)
        } else {
            &&& r matches Err(c) && c == cmd
            &&& command_queue_contents(*final(q)) == command_queue_contents(*old(q))
        },
{
    match q.tx.try_send(cmd) {
        Ok(()) => Ok(()),
        Err(e) => Err(e.into_inner()),
    }
}

/// Relies on crossbeam_channel::Receiver::try_recv: pops the oldest
/// message, or reports an empty channel, without blocking. With the
/// sender held in the same pair the channel is never disconnected while
/// messages remain.
#[verifier::external_body]
fn command_queue_try_recv(q: &mut CommandQueue) -> (r: Option<ColumnCommand>)
    ensures
        command_queue_cap(*final(q)) == command_queue_cap(*old(q)),
        if command_queue_contents(*old(q)).len() > 0 {
            &&& r matches Some(c) && c == command_queue_contents(*old(q))[0]
            &&& command_queue_contents(*final(q)) == command_queue_contents(
                *old(q),
            ).drop_first()
        } else {
            &&& r is None
            &&& command_queue_contents(*final(q)) == command_queue_contents(*old(q))
        },
{
    q.rx.try_recv().ok()
}

/// The bounded FIFO event channel, the mirror image of the command queue.
#[verifier::external_body]
pub struct EventQueue {
    tx: crossbeam_channel::Sender<ColumnEvent>,
    rx: crossbeam_channel::Receiver<ColumnEvent>,
}

/// What the event queue holds, oldest first.
pub uninterp spec fn event_queue_contents(q: EventQueue) -> Seq<ColumnEvent>;

/// The capacity the event queue was created with.
pub uninterp spec fn event_queue_cap(q: EventQueue) -> nat;

/// Relies on crossbeam_channel::bounded: creates an empty channel that
/// holds at most `cap` messages.
#[verifier::external_body]
fn event_queue_new(cap: usize) -> (q: EventQueue)
    requires
        cap > 0,
    ensures
        event_queue_contents(q) == Seq::<ColumnEvent>::empty(),
        event_queue_cap(q) == cap as nat,
{
    let (tx, rx) = crossbeam_channel::bounded(cap);
    EventQueue { tx, rx }
}

/// Relies on crossbeam_channel::Sender::try_send: on a channel with room
/// it appends the message; on a full channel it returns the message back
/// and changes nothing, without blocking.
#[verifier::external_body]
fn event_queue_try_send(q: &mut EventQueue, evt: ColumnEvent) -> (r: Result<(), ColumnEvent>)
    ensures
        event_queue_cap(*final(q)) == event_queue_cap(*old(q)),
        if event_queue_contents(*old(q)).len() < event_queue_cap(*old(q)) {
            &&& r is Ok
            &&& event_queue_contents(*final(q)) == event_queue_contents(*old(q)).push(evt)
        } else {
            &&& r matches Err(e) && e == evt
            &&& event_queue_contents(*final(q)) == event_queue_contents(*old(q))
        },
{
    match q.tx.try_send(evt) {
        Ok(()) => Ok(()),
        Err(e) => Err(e.into_inner()),
    }
}

/// Relies on crossbeam_channel::Receiver::try_recv: pops the oldest
/// message, or reports an empty channel, without blocking.
#[verifier::external_body]
fn event_queue_try_recv(q: &mut EventQueue) -> (r: Option<ColumnEvent>)
    ensures
        event_queue_cap(*final(q)) == event_queue_cap(*old(q)),
        if event_queue_contents(*old(q)).len() > 0 {
            &&& r matches Some(e) && e == event_queue_contents(*old(q))[0]
            &&& event_queue_contents(*final(q)) == event_queue_contents(*old(q)).drop_first()
        } else {
            &&& r is None
            &&& event_queue_contents(*final(q)) == event_queue_contents(*old(q))
        },
{
    q.rx.try_recv().ok()
}

/// Relies on crossbeam_channel::Receiver::len: the number of messages in
/// the channel.
#[verifier::external_body]
fn event_queue_len(q: &EventQueue) -> (n: usize)
    ensures
        n == event_queue_contents(*q).len(),
{
    q.rx.len()
}

/// Column-level settings that new clips inherit.
#[derive(Clone, Debug, PartialEq)]
pub struct ColumnSettings {
    pub clip_record_settings: api::ColumnClipRecordSettings,
    pub play_start_timing: Option<api::ClipPlayStartTiming>,
    pub play_stop_timing: Option<api::ClipPlayStopTiming>,
    pub audio_settings: api::ColumnClipPlayAudioSettings,
    pub track: Option<api::TrackId>,
}

impl ColumnSettings {
    /// Settings with nothing overridden.
    pub fn new() -> (s: ColumnSettings)
        ensures
            s.play_start_timing is None,
            s.play_stop_timing is None,
            s.track is None,
    {
        ColumnSettings {
            clip_record_settings: api::ColumnClipRecordSettings {
                track: None,
                origin: api::TrackRecordOrigin::TrackInput,
            },
            play_start_timing: None,
            play_stop_timing: None,
            audio_settings: api::ColumnClipPlayAudioSettings { time_stretch_mode: None },
            track: None,
        }
    }
}

/// An ordered collection of slots sharing one output destination, with
/// its command and event queues.
pub struct Column {
    settings: ColumnSettings,
    slots: Vec<Slot>,
    command_queue: CommandQueue,
    event_queue: EventQueue,
    pending_events: Vec<ColumnEvent>,
}

impl Column {
    pub closed spec fn settings_spec(&self) -> ColumnSettings {
        self.settings
    }

    pub closed spec fn slots_spec(&self) -> Seq<Slot> {
        self.slots@
    }

    pub closed spec fn commands_spec(&self) -> Seq<ColumnCommand> {
        command_queue_contents(self.command_queue)
    }

    pub closed spec fn events_spec(&self) -> Seq<ColumnEvent> {
        event_queue_contents(self.event_queue)
    }

    pub closed spec fn pending_events_spec(&self) -> Seq<ColumnEvent> {
        self.pending_events@
    }

    pub closed spec fn command_cap_spec(&self) -> nat {
        command_queue_cap(self.command_queue)
    }

    pub closed spec fn event_cap_spec(&self) -> nat {
        event_queue_cap(self.event_queue)
    }

    pub closed spec fn wf(&self) -> bool {
        &&& self.slots@.len() <= MAX_SLOTS
        &&& forall|i: int| 0 <= i < self.slots@.len() ==> (#[trigger] self.slots@[i]).wf()
        &&& command_queue_cap(self.command_queue) == CHANNEL_CAPACITY
        &&& event_queue_cap(self.event_queue) == CHANNEL_CAPACITY
        &&& command_queue_contents(self.command_queue).len() <= CHANNEL_CAPACITY
        &&& event_queue_contents(self.event_queue).len() <= CHANNEL_CAPACITY
    }

    /// A fresh column: no slots, empty queues.
    pub fn new() -> (c: Column)
        ensures
            c.wf(),
            c.slots_spec().len() == 0,
            c.commands_spec().len() == 0,
            c.events_spec().len() == 0,
            c.pending_events_spec().len() == 0,
            c.command_cap_spec() == CHANNEL_CAPACITY,
            c.event_cap_spec() == CHANNEL_CAPACITY,
    {
        Column {
            settings: ColumnSettings::new(),
            slots: Vec::new(),
            command_queue: command_queue_new(CHANNEL_CAPACITY),
            event_queue: event_queue_new(CHANNEL_CAPACITY),
            pending_events: Vec::new(),
        }
    }

    /// The actual number of slots in this column.
    pub fn slot_count(&self) -> (n: usize)
        ensures
            n == self.slots_spec().len(),
    {
        self.slots.len()
    }

    /// Enqueues a command for the next real-time tick. A full queue is a
    /// retryable failure: the command comes back unchanged and every
    /// pending command stays intact and in order.
    pub fn send_command(&mut self, cmd: ColumnCommand) -> (r: Result<(), ColumnCommand>)
        requires
            old(self).wf(),
        ensures
            final(self).wf(),
            final(self).slots_spec() == old(self).slots_spec(),
            final(self).events_spec() == old(self).events_spec(),
            final(self).pending_events_spec() == old(self).pending_events_spec(),
            final(self).settings_spec() == old(self).settings_spec(),
            if old(self).commands_spec().len() < old(self).command_cap_spec() {
                &&& r is Ok
                &&& final(self).commands_spec() == old(self).commands_spec().push(cmd)
            } else {
                &&& r matches Err(c) && c == cmd
                &&& final(self).commands_spec() == old(self).commands_spec()
            },
    {
        command_queue_try_send(&mut self.command_queue, cmd)
    }

    /// Polls one event from the event queue, oldest first.
    pub fn poll_event(&mut self) -> (r: Option<ColumnEvent>)
        requires
            old(self).wf(),
        ensures
            final(self).wf(),
            final(self).slots_spec() == old(self).slots_spec(),
            final(self).commands_spec() == old(self).commands_spec(),
            final(self).pending_events_spec() == old(self).pending_events_spec(),
            final(self).settings_spec() == old(self).settings_spec(),
            if old(self).events_spec().len() > 0 {
                &&& r matches Some(e) && e == old(self).events_spec()[0]
                &&& final(self).events_spec() == old(self).events_spec().drop_first()
            } else {
                &&& r is None
                &&& final(self).events_spec() == old(self).events_spec()
            },
    {
        event_queue_try_recv(&mut self.event_queue)
    }
}

impl Column {
    /// Hands one event toward the controller: appended when the event
    /// queue has room; a full queue drops a position update (it is
    /// superseded next tick) and retains any other event for retry on the
    /// next tick.
    fn push_event(&mut self, evt: ColumnEvent)
        requires
            old(self).wf(),
        ensures
            final(self).wf(),
            final(self).slots_spec() == old(self).slots_spec(),
            final(self).commands_spec() == old(self).commands_spec(),
            final(self).settings_spec() == old(self).settings_spec(),
            ({
                let offered = event_push_policy(
                    old(self).events_spec(),
                    old(self).pending_events_spec(),
                    old(self).event_cap_spec(),
                    evt,
                );
                &&& final(self).events_spec() == offered.0
                &&& final(self).pending_events_spec() == offered.1
            }),
    {
        match event_queue_try_send(&mut self.event_queue, evt) {
            Ok(()) => {},
            Err(evt) => {
                if !evt.is_droppable() {
                    self.pending_events.push(evt);
                }
            },
        }
    }

    /// Retries events that an earlier full event queue kept back, in
    /// order, until the queue is full again.
    fn flush_pending_events(&mut self)
        requires
            old(self).wf(),
        ensures
            final(self).wf(),
            final(self).slots_spec() == old(self).slots_spec(),
            final(self).commands_spec() == old(self).commands_spec(),
            final(self).settings_spec() == old(self).settings_spec(),
            ({
                let moved = final(self).events_spec().len() - old(self).events_spec().len();
                let pend = old(self).pending_events_spec();
                &&& 0 <= moved <= pend.len()
                &&& final(self).events_spec() == old(self).events_spec() + pend.take(moved)
                &&& final(self).pending_events_spec() == pend.skip(moved)
                &&& (final(self).pending_events_spec().len() > 0 ==> final(self).events_spec().len()
                    == final(self).event_cap_spec())
            }),
    {
        let ghost orig_events = self.events_spec();
        let ghost orig_pending = self.pending_events_spec();
        let mut moved: usize = 0;
        loop
            invariant
                self.wf(),
                moved <= orig_pending.len(),
                self.slots_spec() == old(self).slots_spec(),
                self.commands_spec() == old(self).commands_spec(),
                self.settings_spec() == old(self).settings_spec(),
                orig_events == old(self).events_spec(),
                orig_pending == old(self).pending_events_spec(),
                self.events_spec() == orig_events + orig_pending.take(moved as int),
                self.pending_events_spec() == orig_pending.skip(moved as int),
            ensures
                self.events_spec() == orig_events + orig_pending.take(moved as int),
                self.pending_events_spec() == orig_pending.skip(moved as int),
                moved <= orig_pending.len(),
                self.pending_events_spec().len() > 0 ==> self.events_spec().len()
                    == self.event_cap_spec(),
                self.slots_spec() == old(self).slots_spec(),
                self.commands_spec() == old(self).commands_spec(),
                self.settings_spec() == old(self).settings_spec(),
                self.wf(),
            decreases orig_pending.len() - moved,
        {
            if self.pending_events.len() == 0 {
                break ;
            }
            if event_queue_len(&self.event_queue) >= CHANNEL_CAPACITY {
                break ;
            }
            let evt = self.pending_events.remove(0);
            let r = event_queue_try_send(&mut self.event_queue, evt);
            proof {
                assert(r is Ok);
                assert(orig_pending.skip(moved as int).drop_first() =~= orig_pending.skip(
                    moved as int + 1,
                ));
                assert(orig_events + orig_pending.take(moved as int + 1) =~= (orig_events
                    + orig_pending.take(moved as int)).push(orig_pending[moved as int]));
            }
            moved += 1;
        }
        proof {
            assert(final(self).events_spec().len() - old(self).events_spec().len() == moved
                as int);
        }
    }
}

/// Where the event stream ends up after offering one event to a bounded
/// queue: appended when there is room; a full queue drops a droppable
/// event and retains any other for retry.
pub open spec fn event_push_policy(
    events: Seq<ColumnEvent>,
    pending: Seq<ColumnEvent>,
    cap: nat,
    evt: ColumnEvent,
) -> (Seq<ColumnEvent>, Seq<ColumnEvent>) {
    if events.len() < cap {
        (events.push(evt), pending)
    } else if evt.is_droppable_spec() {
        (events, pending)
    } else {
        (events, pending.push(evt))
    }
}

/// How one command transforms the slots: every slot but the addressed one
/// is untouched (a transport change addresses them all), and the addressed
/// slot moves as the command says. Commands with out-of-range or
/// ill-formed arguments change no real-time state.
pub open spec fn spec_command_applied(
    slots0: Seq<Slot>,
    cmd: ColumnCommand,
    moment: TimelineMoment,
    slots1: Seq<Slot>,
) -> bool {
    &&& slots1.len() >= slots0.len()
    &&& match cmd {
        ColumnCommand::ProcessTransportChange { args } => {
            &&& slots1.len() == slots0.len()
            &&& (0 <= args.moment.next_bar_pos <= MAX_START_FRAME) ==> forall|j: int|
                0 <= j < slots0.len() ==> crate::slot::spec_slot_transport_processed(
                    slots0[j],
                    slots1[j],
                    args,
                )
            &&& !(0 <= args.moment.next_bar_pos <= MAX_START_FRAME) ==> slots1 == slots0
        },
        ColumnCommand::FillSlot { index, clip } => {
            &&& forall|j: int| 0 <= j < slots0.len() && j != index ==> slots1[j] == slots0[j]
            &&& (index < MAX_SLOTS && clip.wf()) ==> {
                &&& slots1.len() >= index + 1
                &&& slots1[index as int].clip_spec() == Some(clip)
            }
            &&& !(index < MAX_SLOTS && clip.wf()) ==> slots1 == slots0
        },
        ColumnCommand::StartRecording { index, behavior, frame_rate } => {
            &&& forall|j: int| 0 <= j < slots0.len() && j != index ==> slots1[j] == slots0[j]
            &&& (index < MAX_SLOTS && (slots0.len() > index && slots0[index as int].clip_spec()
                is Some || behavior matches crate::recorder::RecordBehavior::Normal { .. })) ==> {
                &&& slots1.len() >= index + 1
                &&& slots1[index as int].clip_spec() matches Some(c2)
                &&& c2.recorder_spec() matches Some(rec) && rec.behavior_spec() == behavior
                    && rec.frames_spec().len() == 0 && rec.events_spec().len() == 0
                    && rec.frame_rate_spec() == frame_rate
            }
        },
        ColumnCommand::PlayClip { index, quantized } => {
            &&& slots1.len() == slots0.len()
            &&& forall|j: int| 0 <= j < slots0.len() && j != index ==> slots1[j] == slots0[j]
            &&& (index < slots0.len() && slots0[index as int].clip_spec() is Some) ==> {
                let c = slots0[index as int].clip_spec()->Some_0;
                let c2 = slots1[index as int].clip_spec()->Some_0;
                &&& slots1[index as int].clip_spec() is Some
                &&& c2.state_spec() == crate::clip::clip_next_state(
                    c.state_spec(),
                    crate::clip::ClipCommand::Play { quantized },
                )
                &&& c2.play_target_spec() == (if quantized {
                    Some(moment.next_bar_pos)
                } else {
                    Option::<isize>::None
                })
                &&& c2.pos_spec() == (if quantized {
                    c.pos_spec()
                } else {
                    0isize
                })
                &&& c2.looper_spec() == c.looper_spec()
                &&& slots1[index as int].last_play_spec() == Some(
                    crate::slot::LastPlay { was_synced_to_bar: quantized },
                )
            }
            &&& (index < slots0.len() && slots0[index as int].clip_spec() is None) ==> slots1[
                index as int
            ].clip_spec() is None
            &&& index >= slots0.len() ==> slots1 == slots0
        },
        ColumnCommand::StopClip { index, quantized } => {
            &&& slots1.len() == slots0.len()
            &&& forall|j: int| 0 <= j < slots0.len() && j != index ==> slots1[j] == slots0[j]
            &&& (index < slots0.len() && slots0[index as int].clip_spec() is Some
                && (slots0[index as int].clip_spec()->Some_0).recorder_spec() is None
                && (slots0[index as int].clip_spec()->Some_0).has_material_spec()) ==> {
                let c = slots0[index as int].clip_spec()->Some_0;
                let c2 = slots1[index as int].clip_spec()->Some_0;
                &&& slots1[index as int].clip_spec() is Some
                &&& c2.state_spec() == crate::clip::clip_next_state(
                    c.state_spec(),
                    crate::clip::ClipCommand::Stop {
                        quantized: quantized && c.state_spec().is_advancing_spec(),
                    },
                )
                &&& c2.looper_spec() == c.looper_spec()
                &&& !slots1[index as int].stop_by_transport_spec()
            }
            &&& index >= slots0.len() ==> slots1 == slots0
        },
        ColumnCommand::PauseClip { index } => {
            &&& slots1.len() == slots0.len()
            &&& forall|j: int| 0 <= j < slots0.len() && j != index ==> slots1[j] == slots0[j]
            &&& (index < slots0.len() && slots0[index as int].clip_spec() is Some) ==> {
                let c = slots0[index as int].clip_spec()->Some_0;
                let c2 = slots1[index as int].clip_spec()->Some_0;
                &&& slots1[index as int].clip_spec() is Some
                &&& c2.state_spec() == crate::clip::clip_next_state(
                    c.state_spec(),
                    crate::clip::ClipCommand::Pause,
                )
                &&& c2.pos_spec() == c.pos_spec()
                &&& c2.looper_spec() == c.looper_spec()
            }
            &&& index >= slots0.len() ==> slots1 == slots0
        },
        ColumnCommand::SeekClip { index, proportional_pos } => {
            &&& slots1.len() == slots0.len()
            &&& forall|j: int| 0 <= j < slots0.len() && j != index ==> slots1[j] == slots0[j]
            &&& (index < slots0.len() && proportional_pos <= 1000 && slots0[
                index as int
            ].clip_spec() is Some) ==> {
                let c = slots0[index as int].clip_spec()->Some_0;
                let c2 = slots1[index as int].clip_spec()->Some_0;
                &&& slots1[index as int].clip_spec() is Some
                &&& c2.state_spec() == c.state_spec()
                &&& c2.pos_spec() == proportional_pos as int * c.material().len() as int / 1000
                &&& c2.looper_spec() == c.looper_spec()
            }
            &&& !(index < slots0.len() && proportional_pos <= 1000) ==> slots1 == slots0
        },
        ColumnCommand::SetClipVolume { index, volume } => {
            &&& slots1.len() == slots0.len()
            &&& forall|j: int| 0 <= j < slots0.len() && j != index ==> slots1[j] == slots0[j]
            &&& (index < slots0.len() && volume <= MAX_VOLUME && slots0[index as int].clip_spec()
                is Some) ==> {
                let c = slots0[index as int].clip_spec()->Some_0;
                let c2 = slots1[index as int].clip_spec()->Some_0;
                &&& slots1[index as int].clip_spec() is Some
                &&& c2.volume_spec() == volume
                &&& c2.state_spec() == c.state_spec()
                &&& c2.looper_spec() == c.looper_spec()
            }
            &&& !(index < slots0.len() && volume <= MAX_VOLUME) ==> slots1 == slots0
        },
        ColumnCommand::SetClipLooped { index, looped } => {
            &&& slots1.len() == slots0.len()
            &&& forall|j: int| 0 <= j < slots0.len() && j != index ==> slots1[j] == slots0[j]
            &&& (index < slots0.len() && slots0[index as int].clip_spec() is Some) ==> {
                let c = slots0[index as int].clip_spec()->Some_0;
                let c2 = slots1[index as int].clip_spec()->Some_0;
                &&& slots1[index as int].clip_spec() is Some
                &&& c2.looped_spec() == looped
                &&& c2.state_spec() == c.state_spec()
                &&& c2.pos_spec() == c.pos_spec()
            }
            &&& index >= slots0.len() ==> slots1 == slots0
        },
    }
}

/// The commands one tick drains: the whole queue, up to the batch size.
pub open spec fn drained_batch(cmds: Seq<ColumnCommand>) -> Seq<ColumnCommand> {
    if cmds.len() <= COMMAND_BATCH_SIZE {
        cmds
    } else {
        cmds.take(COMMAND_BATCH_SIZE as int)
    }
}

/// A batch of commands applied in order: the empty batch changes nothing,
/// and each further command transforms the slots the previous ones left.
pub open spec fn spec_batch_applied(
    slots0: Seq<Slot>,
    cmds: Seq<ColumnCommand>,
    moment: TimelineMoment,
    slots1: Seq<Slot>,
) -> bool
    decreases cmds.len(),
{
    if cmds.len() == 0 {
        slots1 == slots0
    } else {
        exists|mid: Seq<Slot>|
            {
                &&& #[trigger] spec_command_applied(slots0, cmds[0], moment, mid)
                &&& spec_batch_applied(mid, cmds.drop_first(), moment, slots1)
            }
    }
}

/// Appending one more applied command to an applied batch keeps the batch
/// relation.
proof fn lemma_batch_applied_snoc(
    slots0: Seq<Slot>,
    cmds: Seq<ColumnCommand>,
    moment: TimelineMoment,
    mid: Seq<Slot>,
    cmd: ColumnCommand,
    slots2: Seq<Slot>,
)
    requires
        spec_batch_applied(slots0, cmds, moment, mid),
        spec_command_applied(mid, cmd, moment, slots2),
    ensures
        spec_batch_applied(slots0, cmds.push(cmd), moment, slots2),
    decreases cmds.len(),
{
    if cmds.len() == 0 {
        assert(mid == slots0);
        assert(cmds.push(cmd)[0] == cmd);
        assert(cmds.push(cmd).drop_first() =~= Seq::<ColumnCommand>::empty());
        assert(spec_command_applied(slots0, cmds.push(cmd)[0], moment, slots2));
        assert(spec_batch_applied(slots2, cmds.push(cmd).drop_first(), moment, slots2));
    } else {
        let mid1 = choose|m: Seq<Slot>|
            {
                &&& #[trigger] spec_command_applied(slots0, cmds[0], moment, m)
                &&& spec_batch_applied(m, cmds.drop_first(), moment, mid)
            };
        lemma_batch_applied_snoc(mid1, cmds.drop_first(), moment, mid, cmd, slots2);
        assert(cmds.push(cmd)[0] == cmds[0]);
        assert(cmds.push(cmd).drop_first() =~= cmds.drop_first().push(cmd));
        assert(spec_command_applied(slots0, cmds.push(cmd)[0], moment, mid1));
        assert(spec_batch_applied(mid1, cmds.push(cmd).drop_first(), moment, slots2));
    }
}

impl Column {
    /// Applies one drained command to the addressed slot. A command
    /// against an empty or out-of-range slot, or with an out-of-range
    /// value, reports an `InteractionFailed` event and changes no
    /// real-time state. A stop that finds a recording in progress
    /// finalizes it first and reports the recording's completion.
    #[verifier::rlimit(100)]
    #[verifier::spinoff_prover]
    fn apply_command(&mut self, cmd: ColumnCommand, moment: &TimelineMoment)
        requires
            old(self).wf(),
            0 <= moment.next_bar_pos <= MAX_START_FRAME,
        ensures
            final(self).wf(),
            final(self).commands_spec() == old(self).commands_spec(),
            final(self).settings_spec() == old(self).settings_spec(),
            final(self).slots_spec().len() >= old(self).slots_spec().len(),
            // Events are only ever appended; none already queued is lost.
            old(self).events_spec().is_prefix_of(final(self).events_spec()),
            // What the command does: every other slot untouched, the
            // addressed slot moved as the command says.
            spec_command_applied(
                old(self).slots_spec(),
                cmd,
                *moment,
                final(self).slots_spec(),
            ),
    {
        match cmd {
            ColumnCommand::FillSlot { index, clip } => {
                if index >= MAX_SLOTS {
                    self.push_event(
                        ColumnEvent::InteractionFailed {
                            slot_index: index,
                            message: SLOT_INDEX_OUT_OF_RANGE,
                        },
                    );
                    return ;
                }
                if !clip_within_limits(&clip) {
                    self.push_event(
                        ColumnEvent::InteractionFailed {
                            slot_index: index,
                            message: CLIP_MATERIAL_UNUSABLE,
                        },
                    );
                    return ;
                }
                self.upsize_if_necessary(index + 1);
                let slot = &mut self.slots[index];
                slot.fill(clip);
            },
            ColumnCommand::PlayClip { index, quantized } => {
                if index >= self.slots.len() {
                    self.push_event(
                        ColumnEvent::InteractionFailed {
                            slot_index: index,
                            message: SLOT_DOESNT_EXIST,
                        },
                    );
                    return ;
                }
                let from_bar = if quantized {
                    Some(moment.next_bar())
                } else {
                    None
                };
                let slot = &mut self.slots[index];
                let r = slot.play_clip(ClipPlayArgs { from_bar });
                if let Err(message) = r {
                    self.push_event(ColumnEvent::InteractionFailed { slot_index: index, message });
                }
            },
            ColumnCommand::StopClip { index, quantized } => {
                if index >= self.slots.len() {
                    self.push_event(
                        ColumnEvent::InteractionFailed {
                            slot_index: index,
                            message: SLOT_DOESNT_EXIST,
                        },
                    );
                    return ;
                }
                let slot = &mut self.slots[index];
                let finished = if slot.is_filled() {
                    match slot.finish_recording() {
                        Ok(frame_count) => Some(frame_count),
                        Err(_) => None,
                    }
                } else {
                    None
                };
                let stop_behavior = if quantized {
                    ClipStopBehavior::Quantized(moment.next_bar())
                } else {
                    ClipStopBehavior::Immediately
                };
                let r = self.slots[index].stop_clip(ClipStopArgs { stop_behavior });
                match finished {
                    Some(frame_count) => {
                        self.push_event(
                            ColumnEvent::NormalRecordingFinished { slot_index: index, frame_count },
                        );
                    },
                    None => {},
                }
                if let Err(message) = r {
                    self.push_event(ColumnEvent::InteractionFailed { slot_index: index, message });
                }
            },
            ColumnCommand::PauseClip { index } => {
                if index >= self.slots.len() {
                    self.push_event(
                        ColumnEvent::InteractionFailed {
                            slot_index: index,
                            message: SLOT_DOESNT_EXIST,
                        },
                    );
                    return ;
                }
                let slot = &mut self.slots[index];
                let r = slot.pause_clip();
                if let Err(message) = r {
                    self.push_event(ColumnEvent::InteractionFailed { slot_index: index, message });
                }
            },
            ColumnCommand::SeekClip { index, proportional_pos } => {
                if index >= self.slots.len() {
                    self.push_event(
                        ColumnEvent::InteractionFailed {
                            slot_index: index,
                            message: SLOT_DOESNT_EXIST,
                        },
                    );
                    return ;
                }
                if proportional_pos > 1000 {
                    self.push_event(
                        ColumnEvent::InteractionFailed {
                            slot_index: index,
                            message: POSITION_OUT_OF_RANGE,
                        },
                    );
                    return ;
                }
                let slot = &mut self.slots[index];
                let r = slot.seek_clip(proportional_pos);
                if let Err(message) = r {
                    self.push_event(ColumnEvent::InteractionFailed { slot_index: index, message });
                }
            },
            ColumnCommand::SetClipVolume { index, volume } => {
                if index >= self.slots.len() {
                    self.push_event(
                        ColumnEvent::InteractionFailed {
                            slot_index: index,
                            message: SLOT_DOESNT_EXIST,
                        },
                    );
                    return ;
                }
                if volume > MAX_VOLUME {
                    self.push_event(
                        ColumnEvent::InteractionFailed {
                            slot_index: index,
                            message: VOLUME_OUT_OF_RANGE,
                        },
                    );
                    return ;
                }
                let slot = &mut self.slots[index];
                let r = slot.set_clip_volume(volume);
                if let Err(message) = r {
                    self.push_event(ColumnEvent::InteractionFailed { slot_index: index, message });
                }
            },
            ColumnCommand::SetClipLooped { index, looped } => {
                if index >= self.slots.len() {
                    self.push_event(
                        ColumnEvent::InteractionFailed {
                            slot_index: index,
                            message: SLOT_DOESNT_EXIST,
                        },
                    );
                    return ;
                }
                let slot = &mut self.slots[index];
                let r = slot.set_clip_repeated(looped);
                if let Err(message) = r {
                    self.push_event(ColumnEvent::InteractionFailed { slot_index: index, message });
                }
            },
            ColumnCommand::StartRecording { index, behavior, frame_rate } => {
                if index >= MAX_SLOTS {
                    self.push_event(
                        ColumnEvent::InteractionFailed {
                            slot_index: index,
                            message: SLOT_INDEX_OUT_OF_RANGE,
                        },
                    );
                    return ;
                }
                self.upsize_if_necessary(index + 1);
                let slot = &mut self.slots[index];
                let r = slot.record_clip(behavior, frame_rate);
                if let Err(message) = r {
                    self.push_event(ColumnEvent::InteractionFailed { slot_index: index, message });
                }
            },
            ColumnCommand::ProcessTransportChange { args } => {
                if !(0 <= args.moment.next_bar_pos && args.moment.next_bar_pos
                    <= MAX_START_FRAME) {
                    return ;
                }
                let ghost slots0 = self.slots_spec();
                let mut i: usize = 0;
                let n = self.slots.len();
                while i < n
                    invariant
                        i <= n,
                        n == self.slots_spec().len(),
                        slots0.len() == n,
                        self.wf(),
                        0 <= args.moment.next_bar_pos <= MAX_START_FRAME,
                        self.commands_spec() == old(self).commands_spec(),
                        self.settings_spec() == old(self).settings_spec(),
                        self.events_spec() == old(self).events_spec(),
                        self.pending_events_spec() == old(self).pending_events_spec(),
                        slots0 == old(self).slots_spec(),
                        forall|j: int|
                            0 <= j < i ==> crate::slot::spec_slot_transport_processed(
                                slots0[j],
                                self.slots_spec()[j],
                                args,
                            ),
                        forall|j: int| i <= j < n ==> self.slots_spec()[j] == slots0[j],
                    decreases n - i,
                {
                    let slot = &mut self.slots[i];
                    slot.process_transport_change(&args);
                    i += 1;
                }
            },
        }
    }

    /// Creates empty slots up to the wanted row count.
    fn upsize_if_necessary(&mut self, row_count: usize)
        requires
            old(self).wf(),
            row_count <= MAX_SLOTS,
        ensures
            final(self).wf(),
            final(self).commands_spec() == old(self).commands_spec(),
            final(self).events_spec() == old(self).events_spec(),
            final(self).pending_events_spec() == old(self).pending_events_spec(),
            final(self).settings_spec() == old(self).settings_spec(),
            final(self).slots_spec().len() == (if old(self).slots_spec().len() >= row_count {
                old(self).slots_spec().len() as int
            } else {
                row_count as int
            }),
            forall|i: int|
                0 <= i < old(self).slots_spec().len() ==> final(self).slots_spec()[i] == old(
                    self,
                ).slots_spec()[i],
            forall|i: int|
                old(self).slots_spec().len() <= i < final(self).slots_spec().len()
                    ==> (#[trigger] final(self).slots_spec()[i]).clip_spec() is None,
    {
        while self.slots.len() < row_count
            invariant
                self.wf(),
                row_count <= MAX_SLOTS,
                self.commands_spec() == old(self).commands_spec(),
                self.events_spec() == old(self).events_spec(),
                self.pending_events_spec() == old(self).pending_events_spec(),
                self.settings_spec() == old(self).settings_spec(),
                old(self).slots_spec().len() <= self.slots_spec().len(),
                self.slots_spec().len() <= row_count || self.slots_spec().len() == old(
                    self,
                ).slots_spec().len(),
                forall|i: int|
                    0 <= i < old(self).slots_spec().len() ==> self.slots_spec()[i] == old(
                        self,
                    ).slots_spec()[i],
                forall|i: int|
                    old(self).slots_spec().len() <= i < self.slots_spec().len()
                        ==> (#[trigger] self.slots_spec()[i]).clip_spec() is None,
            decreases row_count - self.slots.len(),
        {
            self.slots.push(Slot::new());
        }
    }
}

/// Whether a clip's material is within the engine's limits: clips are
/// built through the engine's own constructors, which guarantee this, but
/// a command is checked rather than trusted.
fn clip_within_limits(clip: &Clip) -> (r: bool)
    ensures
        r <==> clip.wf(),
{
    clip.check_limits()
}

const SLOT_DOESNT_EXIST: &'static str = "slot doesn't exist";

const SLOT_INDEX_OUT_OF_RANGE: &'static str = "slot index out of range";

const CLIP_MATERIAL_UNUSABLE: &'static str = "clip material out of limits";

const POSITION_OUT_OF_RANGE: &'static str = "position out of range";

const VOLUME_OUT_OF_RANGE: &'static str = "volume out of range";

/// The controller-facing change that one event maps to; recording and
/// error events are handled through the event queue itself.
pub open spec fn change_event_of(e: ColumnEvent) -> Option<(usize, ClipChangedEvent)> {
    match e {
        ColumnEvent::ClipPlayStateChanged { slot_index, play_state } => Some(
            (slot_index, ClipChangedEvent::PlayState(play_state)),
        ),
        ColumnEvent::ClipPositionChanged { slot_index, proportional_pos } => Some(
            (slot_index, ClipChangedEvent::ClipPosition(proportional_pos)),
        ),
        ColumnEvent::NormalRecordingFinished { .. } => None,
        ColumnEvent::InteractionFailed { .. } => None,
    }
}

/// The changes a drained event sequence maps to, in order.
pub open spec fn changes_of(events: Seq<ColumnEvent>) -> Seq<(usize, ClipChangedEvent)>
    decreases events.len(),
{
    if events.len() == 0 {
        Seq::empty()
    } else {
        changes_of(events.drop_last()) + (match change_event_of(events.last()) {
            Some(c) => seq![c],
            None => Seq::empty(),
        })
    }
}

/// The position update one slot contributes to a poll: only slots whose
/// clip is advancing report their position.
pub open spec fn slot_position_change(s: Slot, i: int) -> Seq<(usize, ClipChangedEvent)> {
    match s.clip_spec() {
        Some(c) => if c.state_spec().is_advancing_spec() {
            seq![
                (
                    i as usize,
                    ClipChangedEvent::ClipPosition(
                        (c.pos_spec() as int % c.material().len() as int * 1000
                            / c.material().len() as int) as u32,
                    ),
                ),
            ]
        } else {
            Seq::empty()
        },
        None => Seq::empty(),
    }
}

/// The position updates of the first `i` slots, in slot order.
pub open spec fn position_changes_up_to(slots: Seq<Slot>, i: int) -> Seq<
    (usize, ClipChangedEvent),
>
    decreases i,
{
    if i <= 0 {
        Seq::empty()
    } else {
        position_changes_up_to(slots, i - 1) + slot_position_change(slots[i - 1], i - 1)
    }
}

/// An event already held in a stream is still held after another is
/// appended.
proof fn lemma_contains_after_push(s: Seq<ColumnEvent>, e: ColumnEvent, x: ColumnEvent)
    requires
        s.contains(e),
    ensures
        s.push(x).contains(e),
{
    let k = choose|k: int| 0 <= k < s.len() && s[k] == e;
    assert(s.push(x)[k] == e);
}

/// Prefix order on event streams is transitive.
proof fn lemma_event_prefix_trans(a: Seq<ColumnEvent>, b: Seq<ColumnEvent>, c: Seq<ColumnEvent>)
    requires
        a.is_prefix_of(b),
        b.is_prefix_of(c),
    ensures
        a.is_prefix_of(c),
{
    assert(a =~= c.subrange(0, a.len() as int));
}

impl Column {
    /// The per-callback real-time tick: first retries events kept back by
    /// an earlier full event queue and drains up to a fixed batch of
    /// pending commands, then resolves due scheduled transitions against
    /// the timeline moment and reports each play-state change as an
    /// event. Never blocks.
    pub fn tick(&mut self, moment: &TimelineMoment)
        requires
            old(self).wf(),
            0 <= moment.next_bar_pos <= MAX_START_FRAME,
        ensures
            final(self).wf(),
            final(self).settings_spec() == old(self).settings_spec(),
            final(self).slots_spec().len() >= old(self).slots_spec().len(),
            // Events are only ever appended during a tick; everything the
            // controller has not yet polled stays queued in order.
            old(self).events_spec().is_prefix_of(final(self).events_spec()),
            // Commands are applied in send order: exactly the batch at the
            // front of the queue is drained, never more.
            final(self).commands_spec() == (if old(self).commands_spec().len()
                <= COMMAND_BATCH_SIZE {
                Seq::<ColumnCommand>::empty()
            } else {
                old(self).commands_spec().skip(COMMAND_BATCH_SIZE as int)
            }),
            // The slots are the drained batch applied in send order,
            // followed by each slot's resolution against the moment.
            exists|mid: Seq<Slot>|
                {
                    &&& #[trigger] spec_batch_applied(
                        old(self).slots_spec(),
                        drained_batch(old(self).commands_spec()),
                        *moment,
                        mid,
                    )
                    &&& mid.len() == final(self).slots_spec().len()
                    &&& forall|j: int|
                        0 <= j < mid.len() ==> crate::slot::spec_slot_resolved(
                            mid[j],
                            final(self).slots_spec()[j],
                            *moment,
                        )
                },
    {
        let ghost evts_mid: Seq<ColumnEvent>;
        let ghost mid_slots: Seq<Slot>;
        self.process_commands(moment);
        proof {
            evts_mid = self.events_spec();
            mid_slots = self.slots_spec();
        }
        self.resolve_transitions(moment);
        proof {
            lemma_event_prefix_trans(old(self).events_spec(), evts_mid, self.events_spec());
            assert(spec_batch_applied(
                old(self).slots_spec(),
                drained_batch(old(self).commands_spec()),
                *moment,
                mid_slots,
            ));
        }
    }

    /// The tick's command phase: retries kept-back events, then drains up
    /// to a fixed batch of pending commands, applying each to the
    /// addressed slot.
    pub fn process_commands(&mut self, moment: &TimelineMoment)
        requires
            old(self).wf(),
            0 <= moment.next_bar_pos <= MAX_START_FRAME,
        ensures
            final(self).wf(),
            final(self).settings_spec() == old(self).settings_spec(),
            final(self).slots_spec().len() >= old(self).slots_spec().len(),
            old(self).events_spec().is_prefix_of(final(self).events_spec()),
            final(self).commands_spec() == (if old(self).commands_spec().len()
                <= COMMAND_BATCH_SIZE {
                Seq::<ColumnCommand>::empty()
            } else {
                old(self).commands_spec().skip(COMMAND_BATCH_SIZE as int)
            }),
            // The slots are the result of applying exactly the drained
            // batch, in send order.
            spec_batch_applied(
                old(self).slots_spec(),
                drained_batch(old(self).commands_spec()),
                *moment,
                final(self).slots_spec(),
            ),
    {
        self.flush_pending_events();
        let mut applied: usize = 0;
        let ghost cmds0 = self.commands_spec();
        proof {
            assert(drained_batch(cmds0).is_prefix_of(cmds0));
        }
        while applied < COMMAND_BATCH_SIZE
            invariant
                self.wf(),
                applied <= COMMAND_BATCH_SIZE,
                0 <= moment.next_bar_pos <= MAX_START_FRAME,
                self.settings_spec() == old(self).settings_spec(),
                self.slots_spec().len() >= old(self).slots_spec().len(),
                old(self).events_spec().is_prefix_of(self.events_spec()),
                self.commands_spec() == (if cmds0.len() <= applied {
                    Seq::<ColumnCommand>::empty()
                } else {
                    cmds0.skip(applied as int)
                }),
                spec_batch_applied(
                    old(self).slots_spec(),
                    (if cmds0.len() <= applied {
                        cmds0
                    } else {
                        cmds0.take(applied as int)
                    }),
                    *moment,
                    self.slots_spec(),
                ),
            ensures
                self.wf(),
                self.settings_spec() == old(self).settings_spec(),
                self.slots_spec().len() >= old(self).slots_spec().len(),
                old(self).events_spec().is_prefix_of(self.events_spec()),
                self.commands_spec() == (if cmds0.len() <= COMMAND_BATCH_SIZE {
                    Seq::<ColumnCommand>::empty()
                } else {
                    cmds0.skip(COMMAND_BATCH_SIZE as int)
                }),
                spec_batch_applied(
                    old(self).slots_spec(),
                    drained_batch(cmds0),
                    *moment,
                    self.slots_spec(),
                ),
            decreases COMMAND_BATCH_SIZE - applied,
        {
            let cmd = match command_queue_try_recv(&mut self.command_queue) {
                Some(c) => c,
                None => {
                    proof {
                        assert(self.commands_spec().len() == 0);
                        assert(cmds0.len() <= applied);
                        assert(drained_batch(cmds0) == cmds0);
                    }
                    applied = COMMAND_BATCH_SIZE;
                    break ;
                },
            };
            proof {
                assert(cmds0.len() > applied);
                assert(cmds0.skip(applied as int).drop_first() =~= cmds0.skip(
                    applied as int + 1,
                ));
                assert(cmd == cmds0[applied as int]);
            }
            let ghost mid_events = self.events_spec();
            let ghost mid_slots = self.slots_spec();
            self.apply_command(cmd, moment);
            proof {
                lemma_event_prefix_trans(old(self).events_spec(), mid_events, self.events_spec());
                lemma_batch_applied_snoc(
                    old(self).slots_spec(),
                    cmds0.take(applied as int),
                    *moment,
                    mid_slots,
                    cmd,
                    self.slots_spec(),
                );
                assert(cmds0.take(applied as int).push(cmds0[applied as int]) =~= cmds0.take(
                    applied as int + 1,
                ));
                if cmds0.len() <= applied + 1 {
                    assert(cmds0.take(applied as int + 1) =~= cmds0);
                }
            }
            applied += 1;
        }
    }

    /// The tick's resolution phase: completes each slot's due scheduled
    /// transition against the timeline moment and reports every play-state
    /// change as an event. A play-state change is never dropped: it lands
    /// in the event queue, or is retained for retry when the queue is
    /// full.
    pub fn resolve_transitions(&mut self, moment: &TimelineMoment)
        requires
            old(self).wf(),
        ensures
            final(self).wf(),
            final(self).settings_spec() == old(self).settings_spec(),
            final(self).commands_spec() == old(self).commands_spec(),
            old(self).events_spec().is_prefix_of(final(self).events_spec()),
            final(self).slots_spec().len() == old(self).slots_spec().len(),
            forall|j: int|
                0 <= j < old(self).slots_spec().len() ==> crate::slot::spec_slot_resolved(
                    old(self).slots_spec()[j],
                    final(self).slots_spec()[j],
                    *moment,
                ),
            forall|j: int|
                0 <= j < old(self).slots_spec().len() && #[trigger] final(self).slots_spec()[
                    j
                ].last_play_state_spec() != old(self).slots_spec()[j].last_play_state_spec()
                    ==> ({
                    let evt = ColumnEvent::ClipPlayStateChanged {
                        slot_index: j as usize,
                        play_state: final(self).slots_spec()[j].last_play_state_spec(),
                    };
                    final(self).events_spec().contains(evt)
                        || final(self).pending_events_spec().contains(evt)
                }),
    {
        let ghost slots0 = self.slots_spec();
        let mut i: usize = 0;
        while i < self.slots.len()
            invariant
                self.wf(),
                i <= self.slots_spec().len(),
                self.slots_spec().len() == slots0.len(),
                slots0 == old(self).slots_spec(),
                self.settings_spec() == old(self).settings_spec(),
                self.commands_spec() == old(self).commands_spec(),
                old(self).events_spec().is_prefix_of(self.events_spec()),
                forall|j: int|
                    0 <= j < i ==> crate::slot::spec_slot_resolved(
                        slots0[j],
                        self.slots_spec()[j],
                        *moment,
                    ),
                forall|j: int| i <= j < slots0.len() ==> self.slots_spec()[j] == slots0[j],
                forall|j: int|
                    0 <= j < i && #[trigger] self.slots_spec()[j].last_play_state_spec()
                        != slots0[j].last_play_state_spec() ==> ({
                        let evt = ColumnEvent::ClipPlayStateChanged {
                            slot_index: j as usize,
                            play_state: self.slots_spec()[j].last_play_state_spec(),
                        };
                        self.events_spec().contains(evt)
                            || self.pending_events_spec().contains(evt)
                    }),
            decreases self.slots_spec().len() - i,
        {
            let slot = &mut self.slots[i];
            let changed = slot.process(moment);
            match changed {
                Some(play_state) => {
                    let ghost mid_events = self.events_spec();
                    let ghost mid_pending = self.pending_events_spec();
                    let evt = ColumnEvent::ClipPlayStateChanged { slot_index: i, play_state };
                    self.push_event(evt);
                    proof {
                        lemma_event_prefix_trans(
                            old(self).events_spec(),
                            mid_events,
                            self.events_spec(),
                        );
                        // The new change is held: queued, or retained when
                        // the queue is full (a play-state change is never
                        // droppable).
                        if self.events_spec() == mid_events.push(evt) {
                            assert(self.events_spec()[mid_events.len() as int] == evt);
                            assert(self.events_spec().contains(evt));
                        } else {
                            assert(self.pending_events_spec() == mid_pending.push(evt));
                            assert(self.pending_events_spec()[mid_pending.len() as int] == evt);
                            assert(self.pending_events_spec().contains(evt));
                        }
                        // Changes reported earlier stay held after the
                        // append.
                        assert forall|j: int|
                            0 <= j < i && #[trigger] self.slots_spec()[j].last_play_state_spec()
                                != slots0[j].last_play_state_spec() implies ({
                            let e2 = ColumnEvent::ClipPlayStateChanged {
                                slot_index: j as usize,
                                play_state: self.slots_spec()[j].last_play_state_spec(),
                            };
                            self.events_spec().contains(e2)
                                || self.pending_events_spec().contains(e2)
                        }) by {
                            let e2 = ColumnEvent::ClipPlayStateChanged {
                                slot_index: j as usize,
                                play_state: self.slots_spec()[j].last_play_state_spec(),
                            };
                            if mid_events.contains(e2) {
                                if self.events_spec() == mid_events.push(evt) {
                                    lemma_contains_after_push(mid_events, e2, evt);
                                }
                            } else {
                                if self.pending_events_spec() == mid_pending.push(evt) {
                                    lemma_contains_after_push(mid_pending, e2, evt);
                                }
                            }
                        }
                    }
                },
                None => {},
            }
            i += 1;
        }
    }

    /// Drains the event queue into controller-facing change events and
    /// appends a position update for every slot whose clip is advancing.
    pub fn poll(&mut self) -> (changes: Vec<(usize, ClipChangedEvent)>)
        requires
            old(self).wf(),
        ensures
            final(self).wf(),
            final(self).slots_spec() == old(self).slots_spec(),
            final(self).commands_spec() == old(self).commands_spec(),
            final(self).pending_events_spec() == old(self).pending_events_spec(),
            final(self).settings_spec() == old(self).settings_spec(),
            final(self).events_spec().len() == 0,
            changes@ == changes_of(old(self).events_spec()) + position_changes_up_to(
                old(self).slots_spec(),
                old(self).slots_spec().len() as int,
            ),
    {
        let mut changes: Vec<(usize, ClipChangedEvent)> = Vec::new();
        let ghost evts0 = self.events_spec();
        let ghost drained: int = 0;
        let mut k: usize = 0;
        loop
            invariant
                self.wf(),
                k <= evts0.len(),
                evts0.len() <= CHANNEL_CAPACITY,
                evts0 == old(self).events_spec(),
                self.slots_spec() == old(self).slots_spec(),
                self.commands_spec() == old(self).commands_spec(),
                self.pending_events_spec() == old(self).pending_events_spec(),
                self.settings_spec() == old(self).settings_spec(),
                self.events_spec() == evts0.skip(k as int),
                changes@ == changes_of(evts0.take(k as int)),
            ensures
                self.events_spec().len() == 0,
                changes@ == changes_of(evts0),
                self.slots_spec() == old(self).slots_spec(),
                self.commands_spec() == old(self).commands_spec(),
                self.pending_events_spec() == old(self).pending_events_spec(),
                self.settings_spec() == old(self).settings_spec(),
                self.wf(),
            decreases evts0.len() - k,
        {
            let evt = match self.poll_event() {
                Some(e) => e,
                None => {
                    proof {
                        assert(evts0.skip(k as int).len() == 0);
                        assert(evts0.take(k as int) =~= evts0);
                    }
                    break ;
                },
            };
            proof {
                assert(evts0.skip(k as int).drop_first() =~= evts0.skip(k as int + 1));
                assert(evts0.take(k as int + 1).drop_last() =~= evts0.take(k as int));
                assert(evts0.take(k as int + 1).last() == evts0[k as int]);
            }
            match evt {
                ColumnEvent::ClipPlayStateChanged { slot_index, play_state } => {
                    changes.push((slot_index, ClipChangedEvent::PlayState(play_state)));
                },
                ColumnEvent::ClipPositionChanged { slot_index, proportional_pos } => {
                    changes.push((slot_index, ClipChangedEvent::ClipPosition(proportional_pos)));
                },
                ColumnEvent::NormalRecordingFinished { .. } => {},
                ColumnEvent::InteractionFailed { .. } => {},
            }
            k += 1;
        }
        let ghost changes_base = changes@;
        let mut i: usize = 0;
        while i < self.slots.len()
            invariant
                self.wf(),
                i <= self.slots_spec().len(),
                changes@ == changes_base + position_changes_up_to(self.slots_spec(), i as int),
                self.slots_spec() == old(self).slots_spec(),
                self.commands_spec() == old(self).commands_spec(),
                self.pending_events_spec() == old(self).pending_events_spec(),
                self.settings_spec() == old(self).settings_spec(),
                self.events_spec().len() == 0,
                changes_base == changes_of(old(self).events_spec()),
            decreases self.slots_spec().len() - i,
        {
            let slot = &self.slots[i];
            if slot.play_state().is_advancing() {
                match slot.proportional_pos() {
                    Some(proportional_pos) => {
                        changes.push((i, ClipChangedEvent::ClipPosition(proportional_pos)));
                    },
                    None => {},
                }
            }
            i += 1;
        }
        changes
    }
}

impl Column {
    /// Sends a fill command: the clip will occupy the slot at the next
    /// tick, creating empty slots up to its row.
    pub fn fill_slot(&mut self, index: usize, clip: Clip) -> (r: Result<(), ColumnCommand>)
        requires
            old(self).wf(),
        ensures
            final(self).wf(),
            final(self).slots_spec() == old(self).slots_spec(),
            r is Ok <==> old(self).commands_spec().len() < old(self).command_cap_spec(),
            r is Ok ==> final(self).commands_spec() == old(self).commands_spec().push(
                ColumnCommand::FillSlot { index, clip },
            ),
            r is Err ==> final(self).commands_spec() == old(self).commands_spec(),
    {
        self.send_command(ColumnCommand::FillSlot { index, clip })
    }

    /// Sends a play command for the slot, quantized to the next bar or
    /// immediate.
    pub fn play_clip(&mut self, index: usize, quantized: bool) -> (r: Result<(), ColumnCommand>)
        requires
            old(self).wf(),
        ensures
            final(self).wf(),
            final(self).slots_spec() == old(self).slots_spec(),
            r is Ok <==> old(self).commands_spec().len() < old(self).command_cap_spec(),
            r is Ok ==> final(self).commands_spec() == old(self).commands_spec().push(
                ColumnCommand::PlayClip { index, quantized },
            ),
            r is Err ==> final(self).commands_spec() == old(self).commands_spec(),
    {
        self.send_command(ColumnCommand::PlayClip { index, quantized })
    }

    /// Sends a stop command for the slot.
    pub fn stop_clip(&mut self, index: usize, quantized: bool) -> (r: Result<(), ColumnCommand>)
        requires
            old(self).wf(),
        ensures
            final(self).wf(),
            final(self).slots_spec() == old(self).slots_spec(),
            r is Ok <==> old(self).commands_spec().len() < old(self).command_cap_spec(),
            r is Ok ==> final(self).commands_spec() == old(self).commands_spec().push(
                ColumnCommand::StopClip { index, quantized },
            ),
            r is Err ==> final(self).commands_spec() == old(self).commands_spec(),
    {
        self.send_command(ColumnCommand::StopClip { index, quantized })
    }

    /// Sends a pause command for the slot.
    pub fn pause_clip(&mut self, index: usize) -> (r: Result<(), ColumnCommand>)
        requires
            old(self).wf(),
        ensures
            final(self).wf(),
            final(self).slots_spec() == old(self).slots_spec(),
            r is Ok <==> old(self).commands_spec().len() < old(self).command_cap_spec(),
            r is Ok ==> final(self).commands_spec() == old(self).commands_spec().push(
                ColumnCommand::PauseClip { index },
            ),
            r is Err ==> final(self).commands_spec() == old(self).commands_spec(),
    {
        self.send_command(ColumnCommand::PauseClip { index })
    }

    /// Sends a seek command for the slot, in thousandths of the cycle.
    pub fn seek_clip(&mut self, index: usize, proportional_pos: u32) -> (r: Result<
        (),
        ColumnCommand,
    >)
        requires
            old(self).wf(),
        ensures
            final(self).wf(),
            final(self).slots_spec() == old(self).slots_spec(),
            r is Ok <==> old(self).commands_spec().len() < old(self).command_cap_spec(),
            r is Ok ==> final(self).commands_spec() == old(self).commands_spec().push(
                ColumnCommand::SeekClip { index, proportional_pos },
            ),
            r is Err ==> final(self).commands_spec() == old(self).commands_spec(),
    {
        self.send_command(ColumnCommand::SeekClip { index, proportional_pos })
    }

    /// Sends a volume command for the slot, in thousandths.
    pub fn set_clip_volume(&mut self, index: usize, volume: u32) -> (r: Result<(), ColumnCommand>)
        requires
            old(self).wf(),
        ensures
            final(self).wf(),
            final(self).slots_spec() == old(self).slots_spec(),
            r is Ok <==> old(self).commands_spec().len() < old(self).command_cap_spec(),
            r is Ok ==> final(self).commands_spec() == old(self).commands_spec().push(
                ColumnCommand::SetClipVolume { index, volume },
            ),
            r is Err ==> final(self).commands_spec() == old(self).commands_spec(),
    {
        self.send_command(ColumnCommand::SetClipVolume { index, volume })
    }

    /// Sends a repeat-flag command for the slot.
    pub fn set_clip_repeated(&mut self, index: usize, looped: bool) -> (r: Result<
        (),
        ColumnCommand,
    >)
        requires
            old(self).wf(),
        ensures
            final(self).wf(),
            final(self).slots_spec() == old(self).slots_spec(),
            r is Ok <==> old(self).commands_spec().len() < old(self).command_cap_spec(),
            r is Ok ==> final(self).commands_spec() == old(self).commands_spec().push(
                ColumnCommand::SetClipLooped { index, looped },
            ),
            r is Err ==> final(self).commands_spec() == old(self).commands_spec(),
    {
        self.send_command(ColumnCommand::SetClipLooped { index, looped })
    }

    /// Sends a record command for the slot.
    pub fn record_clip(&mut self, index: usize, behavior: RecordBehavior, frame_rate: u32) -> (r:
        Result<(), ColumnCommand>)
        requires
            old(self).wf(),
        ensures
            final(self).wf(),
            final(self).slots_spec() == old(self).slots_spec(),
            r is Ok <==> old(self).commands_spec().len() < old(self).command_cap_spec(),
            r is Ok ==> final(self).commands_spec() == old(self).commands_spec().push(
                ColumnCommand::StartRecording { index, behavior, frame_rate },
            ),
            r is Err ==> final(self).commands_spec() == old(self).commands_spec(),
    {
        self.send_command(ColumnCommand::StartRecording { index, behavior, frame_rate })
    }

    /// Notifies the real-time side of a host transport change; the clips
    /// start and stop in sync with the transport at the next tick.
    pub fn process_transport_change(&mut self, args: SlotProcessTransportChangeArgs) -> (r: Result<
        (),
        ColumnCommand,
    >)
        requires
            old(self).wf(),
        ensures
            final(self).wf(),
            final(self).slots_spec() == old(self).slots_spec(),
            r is Ok <==> old(self).commands_spec().len() < old(self).command_cap_spec(),
            r is Ok ==> final(self).commands_spec() == old(self).commands_spec().push(
                ColumnCommand::ProcessTransportChange { args },
            ),
            r is Err ==> final(self).commands_spec() == old(self).commands_spec(),
    {
        self.send_command(ColumnCommand::ProcessTransportChange { args })
    }

    /// Removes every slot.
    pub fn clear_slots(&mut self)
        requires
            old(self).wf(),
        ensures
            final(self).wf(),
            final(self).slots_spec().len() == 0,
            final(self).commands_spec() == old(self).commands_spec(),
            final(self).events_spec() == old(self).events_spec(),
            final(self).pending_events_spec() == old(self).pending_events_spec(),
            final(self).settings_spec() == old(self).settings_spec(),
    {
        self.slots.clear();
    }

    /// The play state of the clip in the given slot.
    pub fn slot_play_state(&self, index: usize) -> (r: Result<ClipPlayState, &'static str>)
        requires
            self.wf(),
        ensures
            r is Ok <==> index < self.slots_spec().len(),
            r is Ok ==> r == Result::<ClipPlayState, &'static str>::Ok(
                match self.slots_spec()[index as int].clip_spec() {
                    Some(c) => c.state_spec(),
                    None => ClipPlayState::Stopped,
                },
            ),
    {
        if index >= self.slots.len() {
            return Err(SLOT_DOESNT_EXIST);
        }
        Ok(self.slots[index].play_state())
    }

    /// The volume of the clip in the given slot, in thousandths.
    pub fn clip_volume(&self, index: usize) -> (r: Result<u32, &'static str>)
        requires
            self.wf(),
        ensures
            r is Ok <==> (index < self.slots_spec().len() && self.slots_spec()[index as int].clip_spec() is Some),
            r is Ok ==> r == Result::<u32, &'static str>::Ok(
                self.slots_spec()[index as int].clip_spec()->Some_0.volume_spec(),
            ),
    {
        if index >= self.slots.len() {
            return Err(SLOT_DOESNT_EXIST);
        }
        match self.slots[index].clip_volume() {
            Some(v) => Ok(v),
            None => Err(SLOT_NOT_FILLED_MSG),
        }
    }

    /// Whether the clip in the given slot repeats.
    pub fn clip_looped(&self, index: usize) -> (r: Result<bool, &'static str>)
        requires
            self.wf(),
        ensures
            r is Ok <==> (index < self.slots_spec().len() && self.slots_spec()[index as int].clip_spec() is Some),
            r is Ok ==> r == Result::<bool, &'static str>::Ok(
                self.slots_spec()[index as int].clip_spec()->Some_0.looped_spec(),
            ),
    {
        if index >= self.slots.len() {
            return Err(SLOT_DOESNT_EXIST);
        }
        match self.slots[index].clip_looped() {
            Some(v) => Ok(v),
            None => Err(SLOT_NOT_FILLED_MSG),
        }
    }

    /// The proportional position of the clip in the given slot, in
    /// thousandths of its cycle.
    pub fn proportional_slot_position(&self, index: usize) -> (r: Result<u32, &'static str>)
        requires
            self.wf(),
        ensures
            r is Ok <==> (index < self.slots_spec().len() && self.slots_spec()[index as int].clip_spec() is Some),
            r is Ok ==> r == Result::<u32, &'static str>::Ok(
                ({
                    let c = self.slots_spec()[index as int].clip_spec()->Some_0;
                    (c.pos_spec() as int % c.material().len() as int * 1000
                        / c.material().len() as int) as u32
                }),
            ),
    {
        if index >= self.slots.len() {
            return Err(SLOT_DOESNT_EXIST);
        }
        match self.slots[index].proportional_pos() {
            Some(v) => Ok(v),
            None => Err(SLOT_NOT_FILLED_MSG),
        }
    }
}

/// The persisted slots of the first `i` slots, in row order; empty slots
/// are omitted.
pub open spec fn saved_slots_up_to(slots: Seq<Slot>, i: int) -> Seq<api::Slot>
    decreases i,
{
    if i <= 0 {
        Seq::empty()
    } else {
        saved_slots_up_to(slots, i - 1) + (match spec_slot_save(slots[i - 1], i - 1) {
            Some(s) => seq![s],
            None => Seq::empty(),
        })
    }
}

impl Column {
    /// Loads the column from its persisted form: clears the slots, takes
    /// over the settings, and fills each persisted slot whose source
    /// material was resolved. Material that could not be resolved (or is
    /// out of the engine's limits) is skipped without disturbing the
    /// persisted data, as is a row beyond the engine's slot range.
    pub fn load(&mut self, api_column: api::Column, materials: Vec<Option<Source>>) -> (r: Result<
        (),
        &'static str,
    >)
        requires
            old(self).wf(),
            materials@.len() == api_column.slots@.len(),
            // Persisted slots are sparse: one entry per row.
            forall|j: int, k: int|
                0 <= j < k < api_column.slots@.len() ==> (#[trigger] api_column.slots@[j]).row
                    != (#[trigger] api_column.slots@[k]).row,
        ensures
            final(self).wf(),
            r is Ok,
            final(self).commands_spec() == old(self).commands_spec(),
            final(self).settings_spec().clip_record_settings
                == api_column.clip_record_settings,
            final(self).settings_spec().play_start_timing
                == api_column.clip_play_settings.start_timing,
            final(self).settings_spec().play_stop_timing
                == api_column.clip_play_settings.stop_timing,
            final(self).settings_spec().audio_settings
                == api_column.clip_play_settings.audio_settings,
            final(self).settings_spec().track == api_column.clip_play_settings.track,
            final(self).events_spec() == old(self).events_spec(),
            final(self).pending_events_spec() == old(self).pending_events_spec(),
            // Loading first clears the column: a slot holds a clip only
            // where a persisted slot with resolved material put one there.
            ({
                forall|i: int|
                    0 <= i < final(self).slots_spec().len()
                        && (#[trigger] final(self).slots_spec()[i]).clip_spec() is Some
                        ==> exists|j: int|
                        0 <= j < api_column.slots@.len() && (#[trigger] api_column.slots@[j]).row
                            == i && api_column.slots@[j].clip is Some && materials@[j] is Some
            }),
            ({
                // Every loaded slot holds exactly the persisted clip: the
                // descriptor, the repeat flag, the volume and the resolved
                // material all line up.
                forall|i: int|
                    0 <= i < api_column.slots@.len() ==> {
                        let api_slot = #[trigger] api_column.slots@[i];
                        (api_slot.clip is Some && materials@[i] is Some && api_slot.row
                            < MAX_SLOTS && (materials@[i]->Some_0).wf()
                            && (materials@[i]->Some_0).audio().len() > 0
                            && api_slot.clip->Some_0.volume <= MAX_VOLUME) ==> {
                            let api_clip = api_slot.clip->Some_0;
                            let loaded = final(self).slots_spec()[api_slot.row as int];
                            &&& api_slot.row < final(self).slots_spec().len()
                            &&& loaded.descriptor_spec() == api_slot.clip
                            &&& loaded.clip_spec() matches Some(c)
                            &&& c.material() == (materials@[i]->Some_0).audio()
                            &&& c.looped_spec() == api_clip.looped
                            &&& c.volume_spec() == api_clip.volume
                            &&& c.state_spec() == ClipPlayState::Stopped
                        }
                    }
            }),
    {
        self.clear_slots();
        let api::Column { clip_play_settings, clip_record_settings, slots: api_slots } =
            api_column;
        let api::ColumnClipPlaySettings { track, start_timing, stop_timing, audio_settings } =
            clip_play_settings;
        self.settings = ColumnSettings {
            clip_record_settings,
            play_start_timing: start_timing,
            play_stop_timing: stop_timing,
            audio_settings,
            track,
        };
        let mut materials = materials;
        let ghost mats0 = materials@;
        let ghost settings0 = self.settings_spec();
        let mut i: usize = 0;
        let n = api_slots.len();
        while i < n
            invariant
                i <= n,
                n == api_slots@.len(),
                materials@.len() == n,
                self.wf(),
                self.commands_spec() == old(self).commands_spec(),
                self.settings_spec() == settings0,
                mats0.len() == n,
                forall|j: int| i <= j < n ==> materials@[j] == mats0[j],
                forall|j: int, k: int|
                    0 <= j < k < n ==> (#[trigger] api_slots@[j]).row
                        != (#[trigger] api_slots@[k]).row,
                self.events_spec() == old(self).events_spec(),
                self.pending_events_spec() == old(self).pending_events_spec(),
                forall|r: int|
                    0 <= r < self.slots_spec().len()
                        && (#[trigger] self.slots_spec()[r]).clip_spec() is Some
                        ==> exists|j: int|
                        0 <= j < i && (#[trigger] api_slots@[j]).row == r && api_slots@[j].clip
                            is Some && mats0[j] is Some,
                forall|j: int|
                    0 <= j < i ==> {
                        let api_slot = #[trigger] api_slots@[j];
                        (api_slot.clip is Some && mats0[j] is Some && api_slot.row < MAX_SLOTS && (
                        mats0[j]->Some_0).wf() && (mats0[j]->Some_0).audio().len() > 0
                            && api_slot.clip->Some_0.volume <= MAX_VOLUME) ==> {
                            let api_clip = api_slot.clip->Some_0;
                            let loaded = self.slots_spec()[api_slot.row as int];
                            &&& api_slot.row < self.slots_spec().len()
                            &&& loaded.descriptor_spec() == api_slot.clip
                            &&& loaded.clip_spec() matches Some(c)
                            &&& c.material() == (mats0[j]->Some_0).audio()
                            &&& c.looped_spec() == api_clip.looped
                            &&& c.volume_spec() == api_clip.volume
                            &&& c.state_spec() == ClipPlayState::Stopped
                        }
                    },
            decreases n - i,
        {
            let mat_opt = materials[i].take();
            let api_slot_ref = &api_slots[i];
            match (&api_slot_ref.clip, mat_opt) {
                (Some(api_clip), Some(source)) => {
                    let row = api_slot_ref.row;
                    if row < MAX_SLOTS && source.check_limits() && source.frame_count() > 0
                        && api_clip.volume <= MAX_VOLUME {
                        let descriptor = api_clip.duplicate();
                        let looped = api_clip.looped;
                        let volume = api_clip.volume;
                        let clip = Clip::new(source, looped, volume);
                        self.upsize_if_necessary(row + 1);
                        let slot = &mut self.slots[row];
                        slot.fill_with_descriptor(clip, descriptor);
                    }
                },
                _ => {},
            }
            i += 1;
        }
        Ok(())
    }

    /// The column's persisted form: its settings plus its filled slots,
    /// each brought up to date with the live clip state.
    pub fn save(&self) -> (r: api::Column)
        requires
            self.wf(),
        ensures
            r.clip_record_settings == self.settings_spec().clip_record_settings,
            r.clip_play_settings.start_timing == self.settings_spec().play_start_timing,
            r.clip_play_settings.stop_timing == self.settings_spec().play_stop_timing,
            r.clip_play_settings.audio_settings == self.settings_spec().audio_settings,
            r.clip_play_settings.track == self.settings_spec().track,
            r.slots@ == saved_slots_up_to(self.slots_spec(), self.slots_spec().len() as int),
    {
        let mut saved: Vec<api::Slot> = Vec::new();
        let mut i: usize = 0;
        while i < self.slots.len()
            invariant
                self.wf(),
                i <= self.slots_spec().len(),
                saved@ == saved_slots_up_to(self.slots_spec(), i as int),
            decreases self.slots_spec().len() - i,
        {
            let slot = &self.slots[i];
            match slot.save(i) {
                Some(api_slot) => {
                    saved.push(api_slot);
                },
                None => {},
            }
            i += 1;
        }
        api::Column {
            clip_play_settings: api::ColumnClipPlaySettings {
                track: match &self.settings.track {
                    Some(t) => Some(t.duplicate()),
                    None => None,
                },
                start_timing: self.settings.play_start_timing,
                stop_timing: self.settings.play_stop_timing,
                audio_settings: self.settings.audio_settings,
            },
            clip_record_settings: self.settings.clip_record_settings.duplicate(),
            slots: saved,
        }
    }
}

impl Column {
    /// Toggles whether the clip in the given slot repeats, directly on the
    /// live state.
    pub fn toggle_clip_repeated(&mut self, index: usize) -> (r: Result<
        ClipChangedEvent,
        &'static str,
    >)
        requires
            old(self).wf(),
        ensures
            final(self).wf(),
            final(self).commands_spec() == old(self).commands_spec(),
            final(self).events_spec() == old(self).events_spec(),
            final(self).settings_spec() == old(self).settings_spec(),
            final(self).slots_spec().len() == old(self).slots_spec().len(),
            r is Ok <==> (index < old(self).slots_spec().len() && old(self).slots_spec()[index as int].clip_spec() is Some),
            r is Ok ==> ({
                let was = old(self).slots_spec()[index as int].clip_spec()->Some_0.looped_spec();
                &&& r == Result::<ClipChangedEvent, &'static str>::Ok(
                    ClipChangedEvent::ClipRepeat(!was),
                )
                &&& final(self).slots_spec()[index as int].clip_spec() matches Some(c2)
                    && c2.looped_spec() == !was
            }),
    {
        if index >= self.slots.len() {
            return Err(SLOT_DOESNT_EXIST);
        }
        let current = match self.slots[index].clip_looped() {
            Some(v) => v,
            None => {
                return Err(SLOT_NOT_FILLED_MSG);
            },
        };
        let slot = &mut self.slots[index];
        match slot.set_clip_repeated(!current) {
            Ok(()) => Ok(ClipChangedEvent::ClipRepeat(!current)),
            Err(m) => Err(m),
        }
    }

    /// Hands one block of incoming audio to the recording in the given
    /// slot; called from the real-time context while recording.
    pub fn write_clip_audio(&mut self, index: usize, samples: &Vec<i64>) -> (r: Result<
        (),
        &'static str,
    >)
        requires
            old(self).wf(),
        ensures
            final(self).wf(),
            final(self).commands_spec() == old(self).commands_spec(),
            final(self).events_spec() == old(self).events_spec(),
            final(self).settings_spec() == old(self).settings_spec(),
            final(self).slots_spec().len() == old(self).slots_spec().len(),
            r is Ok <==> (index < old(self).slots_spec().len() && (old(self).slots_spec()[index as int].clip_spec() matches Some(c) && c.recorder_spec() is Some)),
    {
        if index >= self.slots.len() {
            return Err(SLOT_DOESNT_EXIST);
        }
        let slot = &mut self.slots[index];
        slot.write_clip_audio(samples)
    }

    /// Hands incoming MIDI events to the recording in the given slot.
    pub fn write_clip_midi(&mut self, index: usize, events: &Vec<MidiEvent>) -> (r: Result<
        (),
        &'static str,
    >)
        requires
            old(self).wf(),
        ensures
            final(self).wf(),
            final(self).commands_spec() == old(self).commands_spec(),
            final(self).events_spec() == old(self).events_spec(),
            final(self).settings_spec() == old(self).settings_spec(),
            final(self).slots_spec().len() == old(self).slots_spec().len(),
            r is Ok <==> (index < old(self).slots_spec().len() && (old(self).slots_spec()[index as int].clip_spec() matches Some(c) && c.recorder_spec() is Some)),
    {
        if index >= self.slots.len() {
            return Err(SLOT_DOESNT_EXIST);
        }
        let slot = &mut self.slots[index];
        slot.write_clip_midi(events)
    }

    /// Supplies the next audio block of the clip in the given slot into
    /// the destination buffer; the per-callback audio path of the tick.
    /// On success the samples, the reported frame count and the clip's
    /// advance are exactly the slot-level supply relation.
    pub fn supply_slot_audio(&mut self, index: usize, dest: &mut AudioBuffer) -> (r: Result<
        crate::supplier::SupplyResponse,
        &'static str,
    >)
        requires
            old(self).wf(),
            old(dest)@.len() <= MAX_MATERIAL_FRAMES,
            forall|i: int|
                0 <= i < old(dest)@.len() ==> -MAX_SAMPLE <= #[trigger] old(dest)@[i]
                    <= MAX_SAMPLE,
        ensures
            final(self).wf(),
            final(dest)@.len() == old(dest)@.len(),
            final(self).commands_spec() == old(self).commands_spec(),
            final(self).events_spec() == old(self).events_spec(),
            final(self).settings_spec() == old(self).settings_spec(),
            final(self).slots_spec().len() == old(self).slots_spec().len(),
            r is Ok <==> (index < old(self).slots_spec().len() && old(self).slots_spec()[index as int].clip_spec() is Some),
            r is Err ==> final(dest)@ == old(dest)@ && final(self).slots_spec() == old(
                self,
            ).slots_spec(),
            forall|j: int|
                0 <= j < old(self).slots_spec().len() && j != index
                    ==> final(self).slots_spec()[j] == old(self).slots_spec()[j],
            forall|i: int|
                0 <= i < final(dest)@.len() ==> -MAX_SAMPLE <= #[trigger] final(dest)@[i]
                    <= MAX_SAMPLE,
            r matches Ok(resp) ==> crate::slot::spec_slot_supplied(
                old(self).slots_spec()[index as int],
                final(self).slots_spec()[index as int],
                old(dest)@,
                final(dest)@,
                resp.num_frames_written as int,
            ),
    {
        if index >= self.slots.len() {
            return Err(SLOT_DOESNT_EXIST);
        }
        let slot = &mut self.slots[index];
        slot.supply_audio(dest)
    }
}

const SLOT_NOT_FILLED_MSG: &'static str = "slot not filled";

} // verus!
