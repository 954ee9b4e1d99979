//! The timeline abstraction over the host transport: immutable snapshots
//! of the transport's position and tempo, and quantization helpers.
//!
//! Positions are counted in timeline frames. The host side produces one
//! `TimelineMoment` per real-time tick and hands it to the engine as a
//! plain value.

use vstd::prelude::*;

use crate::supplier::MAX_START_FRAME;
use vstd::arithmetic::div_mod::{
    lemma_fundamental_div_mod, lemma_mod_bound, lemma_mod_multiples_vanish, lemma_small_mod,
};

verus! {

/// Largest bar length the engine accepts, in timeline frames.
pub const MAX_BAR_LENGTH: usize = 0x100_0000;

/// An immutable snapshot of the host transport, taken once per real-time
/// tick.
#[derive(Clone, Copy, PartialEq, Eq, Structural)]
pub struct TimelineMoment {
    /// The transport's cursor position.
    pub cursor_pos: isize,
    /// The transport tempo, in thousandths of a beat per minute.
    pub tempo: u32,
    /// Whether the transport was already running when the snapshot was
    /// taken.
    pub was_playing: bool,
    /// The position of the next bar boundary at or after the cursor.
    pub next_bar_pos: isize,
}

impl TimelineMoment {
    pub fn new(cursor_pos: isize, tempo: u32, was_playing: bool, next_bar_pos: isize) -> (m:
        TimelineMoment)
        ensures
            m.cursor_pos == cursor_pos,
            m.tempo == tempo,
            m.was_playing == was_playing,
            m.next_bar_pos == next_bar_pos,
    {
        TimelineMoment { cursor_pos, tempo, was_playing, next_bar_pos }
    }

    pub fn cursor_pos(&self) -> (p: isize)
        ensures
            p == self.cursor_pos,
    {
        self.cursor_pos
    }

    pub fn next_bar(&self) -> (p: isize)
        ensures
            p == self.next_bar_pos,
    {
        self.next_bar_pos
    }
}

/// The host transport's running state, as polled once per tick.
#[derive(Clone, Copy, PartialEq, Eq, Structural)]
pub struct TransportState {
    pub is_playing: bool,
    pub is_paused: bool,
}

/// The first bar boundary strictly after the cursor, for a fixed bar
/// length: the next multiple of `bar_length` above `cursor_pos`.
pub fn next_bar_pos(cursor_pos: isize, bar_length: usize) -> (r: isize)
    requires
        0 <= cursor_pos <= MAX_START_FRAME,
        0 < bar_length <= MAX_BAR_LENGTH,
    ensures
        r == (cursor_pos as int / bar_length as int + 1) * bar_length as int,
        cursor_pos < r <= cursor_pos + bar_length,
        r as int % bar_length as int == 0,
{
    let cursor = cursor_pos as usize;
    let bar = cursor / bar_length;
    proof {
        lemma_fundamental_div_mod(cursor as int, bar_length as int);
        lemma_mod_bound(cursor as int, bar_length as int);
        assert((bar as int + 1) * bar_length as int == bar as int * bar_length as int
            + bar_length as int) by (nonlinear_arith);
        assert(bar_length as int * (bar as int + 1) + 0 == (bar as int + 1) * bar_length as int)
            by (nonlinear_arith);
        lemma_mod_multiples_vanish(bar as int + 1, 0, bar_length as int);
        lemma_small_mod(0nat, bar_length as nat);
        assert(bar as int * bar_length as int == bar_length as int * bar as int)
            by (nonlinear_arith);
        assert(bar as int * bar_length as int <= cursor as int);
        assert((bar as int + 1) * bar_length as int <= cursor as int + bar_length as int);
    }
    ((bar + 1) * bar_length) as isize
}

} // verus!
