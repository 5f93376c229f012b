//! The event model delivered to application logic.

use vstd::prelude::*;
use crate::scalar::Scalar;
use crate::geometry::{Coord, Size};
use crate::key::{Key, Modifiers};

verus! {

/// The event was sent by another application.
pub const FLAG_IS_SEND_EVENT: u32 = 1;

/// The event is a motion hint rather than a full motion report.
pub const FLAG_IS_HINT: u32 = 2;

/// Per-event flags, as a bit set over the `FLAG_*` bits.
#[derive(Copy, Clone, Debug, PartialEq, Eq, Structural)]
pub struct EventFlags {
    /// The raw bits; only the two `FLAG_*` bits are ever set.
    pub bits: u32,
}

impl EventFlags {
    /// The flag set for a raw native flags word, with unknown bits
    /// discarded.
    pub open spec fn spec_truncate(flags: u32) -> EventFlags {
        EventFlags { bits: flags & 3 }
    }

    /// Builds the flag set from a raw native flags word, keeping only the
    /// known flag bits.
    pub fn from_bits_truncate(flags: u32) -> (r: EventFlags)
        ensures
            r == EventFlags::spec_truncate(flags),
    {
        EventFlags { bits: flags & 3 }
    }

    /// Returns true when every flag set in `other` is also set here.
    pub fn contains(&self, other: EventFlags) -> (r: bool)
        ensures
            r == (self.bits & other.bits == other.bits),
    {
        self.bits & other.bits == other.bits
    }
}

impl Default for EventFlags {
    /// No flags set.
    fn default() -> (r: EventFlags)
        ensures
            r.bits == 0,
    {
        EventFlags { bits: 0 }
    }
}

/// The context common to every pointer and keyboard event.
#[derive(Copy, Clone, Debug, PartialEq, Eq, Structural)]
pub struct EventContext {
    /// The view-relative position of the event.
    pub pos: Coord,
    /// The root-relative position of the event.
    pub pos_root: Coord,
    /// The time of the event, in seconds.
    pub time: Scalar,
}

impl Default for EventContext {
    /// A context at the origin at time zero.
    fn default() -> (r: EventContext)
        ensures
            r.pos.x.bits == 0,
            r.pos.y.bits == 0,
            r.pos_root.x.bits == 0,
            r.pos_root.y.bits == 0,
            r.time.bits == 0,
    {
        EventContext {
            pos: Coord { x: Scalar { bits: 0 }, y: Scalar { bits: 0 } },
            pos_root: Coord { x: Scalar { bits: 0 }, y: Scalar { bits: 0 } },
            time: Scalar { bits: 0 },
        }
    }
}

/// A mouse button together with the modifiers held at the time.
#[derive(Copy, Clone, Debug, PartialEq, Eq, Structural)]
pub struct MouseButton {
    /// The number of the mouse button.
    pub num: u32,
    /// The keyboard modifiers held when the button event happened.
    pub modifiers: Modifiers,
}

/// The context of a pointer-motion event.
#[derive(Copy, Clone, Debug, PartialEq, Eq, Structural)]
pub struct MotionContext {
    /// The keyboard modifiers held during the motion.
    pub modifiers: Modifiers,
    /// The per-event flags.
    pub flags: EventFlags,
}

impl Default for MotionContext {
    /// No modifiers and no flags.
    fn default() -> (r: MotionContext)
        ensures
            r.modifiers.bits == 0,
            r.flags.bits == 0,
    {
        MotionContext { modifiers: Modifiers { bits: 0 }, flags: EventFlags { bits: 0 } }
    }
}

/// A mouse wheel scroll event.
///
/// The scroll distance is expressed in lines, an arbitrary unit that
/// corresponds to a single tick of a detented mouse wheel.
#[derive(Copy, Clone, Debug, PartialEq, Eq, Structural)]
pub struct Scroll {
    /// The horizontal scroll distance.
    pub dx: Scalar,
    /// The vertical scroll distance.
    pub dy: Scalar,
    /// The keyboard modifiers held during the scroll.
    pub modifiers: Modifiers,
}

/// The area that needs to be redrawn after an expose event.
#[derive(Copy, Clone, Debug, PartialEq, Eq, Structural)]
pub struct ExposeArea {
    /// The view-relative position of the area.
    pub pos: Coord,
    /// The size of the area.
    pub size: Size,
}

/// The closed set of event kinds delivered to the generic handler.
#[derive(Copy, Clone, Debug, PartialEq, Eq, Structural)]
pub enum EventType {
    KeyPress(Key),
    KeyRelease(Key),
    MouseButtonPress(MouseButton),
    MouseButtonRelease(MouseButton),
    MouseMove(MotionContext),
    PointerIn,
    PointerOut,
    Scroll(Scroll),
}

/// An event signaled by the windowing system.
#[derive(Copy, Clone, Debug, PartialEq, Eq, Structural)]
pub struct Event {
    /// The kind of the event with its payload.
    pub data: EventType,
    /// The common event context.
    pub context: EventContext,
}

impl Event {
    /// Returns the key if the event is a key press, otherwise `None`.
    pub fn try_keypress(&self) -> (r: Option<Key>)
        ensures
            r == (match self.data {
                EventType::KeyPress(k) => Some(k),
                _ => None::<Key>,
            }),
    {
        match self.data {
            EventType::KeyPress(k) => Some(k),
            _ => None,
        }
    }

    /// The position of the mouse cursor when the event happened, relative
    /// to the top left corner of the view's window.
    pub fn pos(&self) -> (r: Coord)
        ensures
            r == self.context.pos,
    {
        self.context.pos
    }

    /// The position of the mouse cursor when the event happened, relative
    /// to the top left corner of the root window.
    pub fn pos_root(&self) -> (r: Coord)
        ensures
            r == self.context.pos_root,
    {
        self.context.pos_root
    }
}

} // verus!
