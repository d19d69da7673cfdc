//! Note-message construction for the wire protocol.
//!
//! A pointer press becomes a note-on carrying the cursor's pitch on
//! channel 1 with velocity 1/2; a release becomes a note-off on channel 1.
//! The byte encoding and the datagram transport belong to the external
//! protocol backend; this library fixes which fields are populated with
//! which values.

use vstd::prelude::*;

verus! {

use crate::cursor::Cursor;
use crate::geom::Frac;

/// The note channel every message is sent on.
pub const NOTE_CHANNEL: u32 = 1;

/// A semantic note event, with the pitch and velocity as exact fractions.
#[derive(Clone, Copy, PartialEq, Eq, Structural, Debug)]
pub enum NoteMessage {
    NoteOn { channel: u32, pitch: Frac, velocity: Frac },
    NoteOff { channel: u32 },
}

/// `msg` is a note-on on channel 1 with pitch `12 * pos / w` and velocity
/// `1 / 2`.
pub open spec fn is_note_on(msg: NoteMessage, pos: int, w: int) -> bool {
    &&& msg matches NoteMessage::NoteOn { channel, pitch, velocity }
        && channel == NOTE_CHANNEL
        && pitch.num == 12 * pos
        && pitch.den == w
        && velocity.num == 1
        && velocity.den == 2
}

/// `msg` is a note-off on channel 1.
pub open spec fn is_note_off(msg: NoteMessage) -> bool {
    msg matches NoteMessage::NoteOff { channel } && channel == NOTE_CHANNEL
}

/// The note-on for a pointer press at the cursor's current position.
pub fn note_on(cursor: &Cursor, screen_w: u32) -> (msg: NoteMessage)
    ensures
        is_note_on(msg, cursor.pos as int, screen_w as int),
{
    NoteMessage::NoteOn {
        channel: NOTE_CHANNEL,
        pitch: cursor.pitch(screen_w),
        velocity: Frac { num: 1, den: 2 },
    }
}

/// The note-off for a pointer release, independent of cursor state.
pub fn note_off() -> (msg: NoteMessage)
    ensures
        is_note_off(msg),
{
    NoteMessage::NoteOff { channel: NOTE_CHANNEL }
}

} // verus!
