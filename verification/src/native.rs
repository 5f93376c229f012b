//! Native event records and the translator that maps them into the event
//! model.
//!
//! The windowing toolkit reports each event as a tagged record.  The types
//! here mirror those record shapes with plain values (doubles as
//! [`Scalar`] bit patterns), and the translation functions are the pure,
//! stateless mapping from each record shape to the corresponding value
//! type.  The only fallible path is the special-key fallback, which
//! degrades to [`SpecialKey::NoKey`] instead of failing.

use vstd::prelude::*;
use crate::scalar::Scalar;
use crate::geometry::{Coord, Size, Rect};
use crate::key::{Modifiers, SpecialKey, KeyVal, Key};
use crate::event::{EventContext, EventFlags, MouseButton, MotionContext, Scroll, ExposeArea};
use crate::status::{Status, Cursor, ViewHintBool, ViewHintInt};

verus! {

/// Relies on `char::from_u32`: it returns the `char` with the given value
/// exactly when the value is a Unicode scalar value, that is, not a
/// surrogate and at most `0x10FFFF`.
pub assume_specification[ char::from_u32 ](v: u32) -> (r: Option<char>)
    ensures
        is_unicode_scalar(v) ==> r == Some(v as char),
        !is_unicode_scalar(v) ==> r is None,
        r matches Some(c) ==> c as u32 == v,
;

/// True for values that are Unicode scalar values, the values a `char`
/// can hold.
pub open spec fn is_unicode_scalar(v: u32) -> bool {
    v < 0xD800 || (0xE000 <= v <= 0x10FFFF)
}

pub const KEY_BACKSPACE: u32 = 0x08;

pub const KEY_ESCAPE: u32 = 0x1B;

pub const KEY_DELETE: u32 = 0x7F;

pub const KEY_F1: u32 = 0xE000;

pub const KEY_F2: u32 = 0xE001;

pub const KEY_F3: u32 = 0xE002;

pub const KEY_F4: u32 = 0xE003;

pub const KEY_F5: u32 = 0xE004;

pub const KEY_F6: u32 = 0xE005;

pub const KEY_F7: u32 = 0xE006;

pub const KEY_F8: u32 = 0xE007;

pub const KEY_F9: u32 = 0xE008;

pub const KEY_F10: u32 = 0xE009;

pub const KEY_F11: u32 = 0xE00A;

pub const KEY_F12: u32 = 0xE00B;

pub const KEY_LEFT: u32 = 0xE00C;

pub const KEY_UP: u32 = 0xE00D;

pub const KEY_RIGHT: u32 = 0xE00E;

pub const KEY_DOWN: u32 = 0xE00F;

pub const KEY_PAGE_UP: u32 = 0xE010;

pub const KEY_PAGE_DOWN: u32 = 0xE011;

pub const KEY_HOME: u32 = 0xE012;

pub const KEY_END: u32 = 0xE013;

pub const KEY_INSERT: u32 = 0xE014;

pub const KEY_SHIFT_L: u32 = 0xE015;

pub const KEY_SHIFT_R: u32 = 0xE016;

pub const KEY_CTRL_L: u32 = 0xE017;

pub const KEY_CTRL_R: u32 = 0xE018;

pub const KEY_ALT_L: u32 = 0xE019;

pub const KEY_ALT_R: u32 = 0xE01A;

pub const KEY_SUPER_L: u32 = 0xE01B;

pub const KEY_SUPER_R: u32 = 0xE01C;

pub const KEY_MENU: u32 = 0xE01D;

pub const KEY_CAPS_LOCK: u32 = 0xE01E;

pub const KEY_SCROLL_LOCK: u32 = 0xE01F;

pub const KEY_NUM_LOCK: u32 = 0xE020;

pub const KEY_PRINT_SCREEN: u32 = 0xE021;

pub const KEY_PAUSE: u32 = 0xE022;

/// A native view rectangle: position and size as doubles.
#[derive(Copy, Clone, Debug, PartialEq, Eq, Structural)]
pub struct RectRecord {
    pub x: Scalar,
    pub y: Scalar,
    pub width: Scalar,
    pub height: Scalar,
}

/// A native key press or release record.
#[derive(Copy, Clone, Debug, PartialEq, Eq, Structural)]
pub struct KeyRecord {
    /// The raw per-event flags.
    pub flags: u32,
    /// The time of the event, in seconds.
    pub time: Scalar,
    /// The view-relative x position.
    pub x: Scalar,
    /// The view-relative y position.
    pub y: Scalar,
    /// The root-relative x position.
    pub x_root: Scalar,
    /// The root-relative y position.
    pub y_root: Scalar,
    /// The raw modifier state word.
    pub state: u32,
    /// The system's code for the key.
    pub keycode: u32,
    /// The Unicode value of the key, or zero for a non-character key.
    pub key: u32,
}

/// A native mouse button press or release record.
#[derive(Copy, Clone, Debug, PartialEq, Eq, Structural)]
pub struct ButtonRecord {
    pub flags: u32,
    pub time: Scalar,
    pub x: Scalar,
    pub y: Scalar,
    pub x_root: Scalar,
    pub y_root: Scalar,
    pub state: u32,
    /// The number of the mouse button.
    pub button: u32,
}

/// A native pointer motion record.
#[derive(Copy, Clone, Debug, PartialEq, Eq, Structural)]
pub struct MotionRecord {
    pub flags: u32,
    pub time: Scalar,
    pub x: Scalar,
    pub y: Scalar,
    pub x_root: Scalar,
    pub y_root: Scalar,
    pub state: u32,
}

/// A native scroll wheel record.
#[derive(Copy, Clone, Debug, PartialEq, Eq, Structural)]
pub struct ScrollRecord {
    pub flags: u32,
    pub time: Scalar,
    pub x: Scalar,
    pub y: Scalar,
    pub x_root: Scalar,
    pub y_root: Scalar,
    pub state: u32,
    /// The horizontal scroll distance, in lines.
    pub dx: Scalar,
    /// The vertical scroll distance, in lines.
    pub dy: Scalar,
    /// The raw scroll direction code.
    pub direction: u32,
}

/// A native pointer crossing (enter or leave) record.
#[derive(Copy, Clone, Debug, PartialEq, Eq, Structural)]
pub struct CrossingRecord {
    pub flags: u32,
    pub time: Scalar,
    pub x: Scalar,
    pub y: Scalar,
    pub x_root: Scalar,
    pub y_root: Scalar,
    pub state: u32,
    /// The raw crossing mode code.
    pub mode: u32,
}

/// A native expose record: the area that needs to be redrawn.
#[derive(Copy, Clone, Debug, PartialEq, Eq, Structural)]
pub struct ExposeRecord {
    pub flags: u32,
    pub x: Scalar,
    pub y: Scalar,
    pub width: Scalar,
    pub height: Scalar,
}

/// A native configure record: the new position and size of the view.
#[derive(Copy, Clone, Debug, PartialEq, Eq, Structural)]
pub struct ConfigureRecord {
    pub flags: u32,
    pub x: Scalar,
    pub y: Scalar,
    pub width: Scalar,
    pub height: Scalar,
}

/// A native timer record.
#[derive(Copy, Clone, Debug, PartialEq, Eq, Structural)]
pub struct TimerRecord {
    pub flags: u32,
    /// The identifier the timer was started with.
    pub id: usize,
}

/// A native event, as the tagged union the toolkit delivers.
///
/// `Unknown` stands for every event kind this layer does not enumerate;
/// the dispatcher ignores such events rather than failing.
#[derive(Copy, Clone, Debug, PartialEq, Eq, Structural)]
pub enum NativeEvent {
    KeyPress(KeyRecord),
    KeyRelease(KeyRecord),
    ButtonPress(ButtonRecord),
    ButtonRelease(ButtonRecord),
    Motion(MotionRecord),
    PointerIn(CrossingRecord),
    PointerOut(CrossingRecord),
    Scroll(ScrollRecord),
    FocusIn,
    FocusOut,
    Timer(TimerRecord),
    Close,
    Expose(ExposeRecord),
    Configure(ConfigureRecord),
    Unknown,
}

/// The context with the given positions and time.
pub open spec fn spec_context(
    x: Scalar,
    y: Scalar,
    x_root: Scalar,
    y_root: Scalar,
    time: Scalar,
) -> EventContext {
    EventContext {
        pos: Coord { x, y },
        pos_root: Coord { x: x_root, y: y_root },
        time,
    }
}

impl Rect {
    /// The rectangle a native record describes.
    pub open spec fn spec_of_record(rec: RectRecord) -> Rect {
        Rect {
            pos: Coord { x: rec.x, y: rec.y },
            size: Size { w: rec.width, h: rec.height },
        }
    }

    /// The native record describing a rectangle.
    pub open spec fn spec_to_record(self) -> RectRecord {
        RectRecord { x: self.pos.x, y: self.pos.y, width: self.size.w, height: self.size.h }
    }

    /// Translates a native rectangle record.
    pub fn from_record(rec: RectRecord) -> (r: Rect)
        ensures
            r == Rect::spec_of_record(rec),
    {
        Rect {
            pos: Coord { x: rec.x, y: rec.y },
            size: Size { w: rec.width, h: rec.height },
        }
    }

    /// Builds the native record for this rectangle.
    pub fn to_record(self) -> (r: RectRecord)
        ensures
            r == self.spec_to_record(),
    {
        RectRecord { x: self.pos.x, y: self.pos.y, width: self.size.w, height: self.size.h }
    }
}

/// Converting a rectangle to a native record and back yields the original
/// position and size exactly.
pub proof fn lemma_rect_record_round_trip(r: Rect)
    ensures
        Rect::spec_of_record(r.spec_to_record()) == r,
{
}

/// Converting a native record to a rectangle and back yields the original
/// record exactly.
pub proof fn lemma_record_rect_round_trip(rec: RectRecord)
    ensures
        Rect::spec_of_record(rec).spec_to_record() == rec,
{
}

impl SpecialKey {
    /// The special key a native key code names, with `NoKey` for codes
    /// outside the fixed table.
    pub open spec fn spec_from_code(code: u32) -> SpecialKey {
        if code == KEY_BACKSPACE {
            SpecialKey::Backspace
        } else if code == KEY_ESCAPE {
            SpecialKey::Escape
        } else if code == KEY_DELETE {
            SpecialKey::Delete
        } else if code == KEY_F1 {
            SpecialKey::F1
        } else if code == KEY_F2 {
            SpecialKey::F2
        } else if code == KEY_F3 {
            SpecialKey::F3
        } else if code == KEY_F4 {
            SpecialKey::F4
        } else if code == KEY_F5 {
            SpecialKey::F5
        } else if code == KEY_F6 {
            SpecialKey::F6
        } else if code == KEY_F7 {
            SpecialKey::F7
        } else if code == KEY_F8 {
            SpecialKey::F8
        } else if code == KEY_F9 {
            SpecialKey::F9
        } else if code == KEY_F10 {
            SpecialKey::F10
        } else if code == KEY_F11 {
            SpecialKey::F11
        } else if code == KEY_F12 {
            SpecialKey::F12
        } else if code == KEY_LEFT {
            SpecialKey::Left
        } else if code == KEY_UP {
            SpecialKey::Up
        } else if code == KEY_RIGHT {
            SpecialKey::Right
        } else if code == KEY_DOWN {
            SpecialKey::Down
        } else if code == KEY_PAGE_UP {
            SpecialKey::PageUp
        } else if code == KEY_PAGE_DOWN {
            SpecialKey::PageDown
        } else if code == KEY_HOME {
            SpecialKey::Home
        } else if code == KEY_END {
            SpecialKey::End
        } else if code == KEY_INSERT {
            SpecialKey::Insert
        } else if code == KEY_SHIFT_L {
            SpecialKey::ShiftL
        } else if code == KEY_SHIFT_R {
            SpecialKey::ShiftR
        } else if code == KEY_CTRL_L {
            SpecialKey::CtrlL
        } else if code == KEY_CTRL_R {
            SpecialKey::CtrlR
        } else if code == KEY_ALT_L {
            SpecialKey::AltL
        } else if code == KEY_ALT_R {
            SpecialKey::AltR
        } else if code == KEY_SUPER_L {
            SpecialKey::SuperL
        } else if code == KEY_SUPER_R {
            SpecialKey::SuperR
        } else if code == KEY_MENU {
            SpecialKey::KeyMenu
        } else if code == KEY_CAPS_LOCK {
            SpecialKey::KeyCapsLock
        } else if code == KEY_SCROLL_LOCK {
            SpecialKey::KeyScrollLock
        } else if code == KEY_NUM_LOCK {
            SpecialKey::KeyNumLock
        } else if code == KEY_PRINT_SCREEN {
            SpecialKey::KeyPrintScreen
        } else if code == KEY_PAUSE {
            SpecialKey::KeyPause
        } else {
            SpecialKey::NoKey
        }
    }

    /// Translates a native key code into a special key, degrading to
    /// `NoKey` for unrecognized codes instead of failing.
    pub fn from_code(code: u32) -> (r: SpecialKey)
        ensures
            r == SpecialKey::spec_from_code(code),
    {
        if code == KEY_BACKSPACE {
            SpecialKey::Backspace
        } else if code == KEY_ESCAPE {
            SpecialKey::Escape
        } else if code == KEY_DELETE {
            SpecialKey::Delete
        } else if code == KEY_F1 {
            SpecialKey::F1
        } else if code == KEY_F2 {
            SpecialKey::F2
        } else if code == KEY_F3 {
            SpecialKey::F3
        } else if code == KEY_F4 {
            SpecialKey::F4
        } else if code == KEY_F5 {
            SpecialKey::F5
        } else if code == KEY_F6 {
            SpecialKey::F6
        } else if code == KEY_F7 {
            SpecialKey::F7
        } else if code == KEY_F8 {
            SpecialKey::F8
        } else if code == KEY_F9 {
            SpecialKey::F9
        } else if code == KEY_F10 {
            SpecialKey::F10
        } else if code == KEY_F11 {
            SpecialKey::F11
        } else if code == KEY_F12 {
            SpecialKey::F12
        } else if code == KEY_LEFT {
            SpecialKey::Left
        } else if code == KEY_UP {
            SpecialKey::Up
        } else if code == KEY_RIGHT {
            SpecialKey::Right
        } else if code == KEY_DOWN {
            SpecialKey::Down
        } else if code == KEY_PAGE_UP {
            SpecialKey::PageUp
        } else if code == KEY_PAGE_DOWN {
            SpecialKey::PageDown
        } else if code == KEY_HOME {
            SpecialKey::Home
        } else if code == KEY_END {
            SpecialKey::End
        } else if code == KEY_INSERT {
            SpecialKey::Insert
        } else if code == KEY_SHIFT_L {
            SpecialKey::ShiftL
        } else if code == KEY_SHIFT_R {
            SpecialKey::ShiftR
        } else if code == KEY_CTRL_L {
            SpecialKey::CtrlL
        } else if code == KEY_CTRL_R {
            SpecialKey::CtrlR
        } else if code == KEY_ALT_L {
            SpecialKey::AltL
        } else if code == KEY_ALT_R {
            SpecialKey::AltR
        } else if code == KEY_SUPER_L {
            SpecialKey::SuperL
        } else if code == KEY_SUPER_R {
            SpecialKey::SuperR
        } else if code == KEY_MENU {
            SpecialKey::KeyMenu
        } else if code == KEY_CAPS_LOCK {
            SpecialKey::KeyCapsLock
        } else if code == KEY_SCROLL_LOCK {
            SpecialKey::KeyScrollLock
        } else if code == KEY_NUM_LOCK {
            SpecialKey::KeyNumLock
        } else if code == KEY_PRINT_SCREEN {
            SpecialKey::KeyPrintScreen
        } else if code == KEY_PAUSE {
            SpecialKey::KeyPause
        } else {
            SpecialKey::NoKey
        }
    }
}

/// True when a native key code is one of the fixed table of named keys.
pub open spec fn is_named_keycode(code: u32) -> bool {
    SpecialKey::spec_from_code(code) != SpecialKey::NoKey
}

/// A key code outside the fixed table always falls back to `NoKey`;
/// translation never fails on an unrecognized code.
pub proof fn lemma_unknown_keycode_falls_back(code: u32)
    requires
        !is_named_keycode(code),
    ensures
        SpecialKey::spec_from_code(code) == SpecialKey::NoKey,
{
}

/// A key record is well formed when a non-zero key field holds a Unicode
/// scalar value.  The toolkit only reports such values.
pub open spec fn key_record_wf(rec: KeyRecord) -> bool {
    rec.key != 0 ==> is_unicode_scalar(rec.key)
}

impl KeyVal {
    /// The key value a native key record describes: the decoded character
    /// when the key field is non-zero, otherwise the special key named by
    /// the key code.
    pub open spec fn spec_of_record(rec: KeyRecord) -> KeyVal {
        if rec.key == 0 {
            KeyVal::Special(SpecialKey::spec_from_code(rec.keycode))
        } else {
            KeyVal::Character(rec.key as char)
        }
    }

    /// Translates a native key record into a key value.
    pub fn from_record(rec: &KeyRecord) -> (r: KeyVal)
        requires
            key_record_wf(*rec),
        ensures
            r == KeyVal::spec_of_record(*rec),
    {
        if rec.key == 0 {
            KeyVal::Special(SpecialKey::from_code(rec.keycode))
        } else {
            let c: Option<char> = char::from_u32(rec.key);
            match c {
                Some(c) => KeyVal::Character(c),
                // Unreachable: a well-formed record holds a scalar value.
                None => KeyVal::Special(SpecialKey::NoKey),
            }
        }
    }
}

/// For a non-zero key field translation yields `Character` with the exact
/// decoded scalar; for a zero key field it yields `Special`, falling back
/// to `NoKey` for codes outside the fixed table.
pub proof fn lemma_key_translation(rec: KeyRecord)
    ensures
        rec.key != 0 && is_unicode_scalar(rec.key) ==> KeyVal::spec_of_record(rec)
            == KeyVal::Character(rec.key as char),
        rec.key == 0 ==> KeyVal::spec_of_record(rec) == KeyVal::Special(
            SpecialKey::spec_from_code(rec.keycode),
        ),
        rec.key == 0 && !is_named_keycode(rec.keycode) ==> KeyVal::spec_of_record(rec)
            == KeyVal::Special(SpecialKey::NoKey),
{
}

impl Key {
    /// The key a native key record describes.
    pub open spec fn spec_of_record(rec: KeyRecord) -> Key {
        Key {
            key: KeyVal::spec_of_record(rec),
            modifiers: Modifiers::spec_truncate(rec.state),
            code: rec.keycode,
        }
    }

    /// Translates a native key record into a key with its modifiers.
    pub fn from_record(rec: &KeyRecord) -> (r: Key)
        requires
            key_record_wf(*rec),
        ensures
            r == Key::spec_of_record(*rec),
    {
        Key {
            key: KeyVal::from_record(rec),
            modifiers: Modifiers::from_bits_truncate(rec.state),
            code: rec.keycode,
        }
    }
}

impl EventContext {
    /// The context a native key record carries.
    pub open spec fn spec_of_key_record(rec: KeyRecord) -> EventContext {
        spec_context(rec.x, rec.y, rec.x_root, rec.y_root, rec.time)
    }

    /// The context a native button record carries.
    pub open spec fn spec_of_button_record(rec: ButtonRecord) -> EventContext {
        spec_context(rec.x, rec.y, rec.x_root, rec.y_root, rec.time)
    }

    /// The context a native motion record carries.
    pub open spec fn spec_of_motion_record(rec: MotionRecord) -> EventContext {
        spec_context(rec.x, rec.y, rec.x_root, rec.y_root, rec.time)
    }

    /// The context a native scroll record carries.
    pub open spec fn spec_of_scroll_record(rec: ScrollRecord) -> EventContext {
        spec_context(rec.x, rec.y, rec.x_root, rec.y_root, rec.time)
    }

    /// The context a native crossing record carries.
    pub open spec fn spec_of_crossing_record(rec: CrossingRecord) -> EventContext {
        spec_context(rec.x, rec.y, rec.x_root, rec.y_root, rec.time)
    }

    /// Extracts the event context from a native key record.
    pub fn from_key_record(rec: &KeyRecord) -> (r: EventContext)
        ensures
            r == EventContext::spec_of_key_record(*rec),
    {
        EventContext {
            pos: Coord { x: rec.x, y: rec.y },
            pos_root: Coord { x: rec.x_root, y: rec.y_root },
            time: rec.time,
        }
    }

    /// Extracts the event context from a native button record.
    pub fn from_button_record(rec: &ButtonRecord) -> (r: EventContext)
        ensures
            r == EventContext::spec_of_button_record(*rec),
    {
        EventContext {
            pos: Coord { x: rec.x, y: rec.y },
            pos_root: Coord { x: rec.x_root, y: rec.y_root },
            time: rec.time,
        }
    }

    /// Extracts the event context from a native motion record.
    pub fn from_motion_record(rec: &MotionRecord) -> (r: EventContext)
        ensures
            r == EventContext::spec_of_motion_record(*rec),
    {
        EventContext {
            pos: Coord { x: rec.x, y: rec.y },
            pos_root: Coord { x: rec.x_root, y: rec.y_root },
            time: rec.time,
        }
    }

    /// Extracts the event context from a native scroll record.
    pub fn from_scroll_record(rec: &ScrollRecord) -> (r: EventContext)
        ensures
            r == EventContext::spec_of_scroll_record(*rec),
    {
        EventContext {
            pos: Coord { x: rec.x, y: rec.y },
            pos_root: Coord { x: rec.x_root, y: rec.y_root },
            time: rec.time,
        }
    }

    /// Extracts the event context from a native crossing record.
    pub fn from_crossing_record(rec: &CrossingRecord) -> (r: EventContext)
        ensures
            r == EventContext::spec_of_crossing_record(*rec),
    {
        EventContext {
            pos: Coord { x: rec.x, y: rec.y },
            pos_root: Coord { x: rec.x_root, y: rec.y_root },
            time: rec.time,
        }
    }
}

impl MouseButton {
    /// The mouse button a native button record describes.
    pub open spec fn spec_of_record(rec: ButtonRecord) -> MouseButton {
        MouseButton { num: rec.button, modifiers: Modifiers::spec_truncate(rec.state) }
    }

    /// Translates a native button record into a mouse button.
    pub fn from_record(rec: &ButtonRecord) -> (r: MouseButton)
        ensures
            r == MouseButton::spec_of_record(*rec),
    {
        MouseButton { num: rec.button, modifiers: Modifiers::from_bits_truncate(rec.state) }
    }
}

impl MotionContext {
    /// The motion context a native motion record describes.
    pub open spec fn spec_of_record(rec: MotionRecord) -> MotionContext {
        MotionContext {
            modifiers: Modifiers::spec_truncate(rec.state),
            flags: EventFlags::spec_truncate(rec.flags),
        }
    }

    /// Translates a native motion record into a motion context.
    pub fn from_record(rec: &MotionRecord) -> (r: MotionContext)
        ensures
            r == MotionContext::spec_of_record(*rec),
    {
        MotionContext {
            modifiers: Modifiers::from_bits_truncate(rec.state),
            flags: EventFlags::from_bits_truncate(rec.flags),
        }
    }
}

impl Scroll {
    /// The scroll a native scroll record describes.
    pub open spec fn spec_of_record(rec: ScrollRecord) -> Scroll {
        Scroll { dx: rec.dx, dy: rec.dy, modifiers: Modifiers::spec_truncate(rec.state) }
    }

    /// Translates a native scroll record into a scroll.
    pub fn from_record(rec: &ScrollRecord) -> (r: Scroll)
        ensures
            r == Scroll::spec_of_record(*rec),
    {
        Scroll { dx: rec.dx, dy: rec.dy, modifiers: Modifiers::from_bits_truncate(rec.state) }
    }
}

impl ExposeArea {
    /// The expose area a native expose record describes.
    pub open spec fn spec_of_record(rec: ExposeRecord) -> ExposeArea {
        ExposeArea {
            pos: Coord { x: rec.x, y: rec.y },
            size: Size { w: rec.width, h: rec.height },
        }
    }

    /// Translates a native expose record into the area to redraw.
    pub fn from_record(rec: &ExposeRecord) -> (r: ExposeArea)
        ensures
            r == ExposeArea::spec_of_record(*rec),
    {
        ExposeArea {
            pos: Coord { x: rec.x, y: rec.y },
            size: Size { w: rec.width, h: rec.height },
        }
    }
}

impl Size {
    /// The size a native configure record reports.
    pub open spec fn spec_of_configure_record(rec: ConfigureRecord) -> Size {
        Size { w: rec.width, h: rec.height }
    }

    /// Extracts the new view size from a native configure record.
    pub fn from_configure_record(rec: &ConfigureRecord) -> (r: Size)
        ensures
            r == Size::spec_of_configure_record(*rec),
    {
        Size { w: rec.width, h: rec.height }
    }
}

impl Status {
    /// The status a native status code names, with `UnsupportedType` for
    /// any unrecognized code, never `Success`.
    pub open spec fn spec_from_native(code: u32) -> Status {
        if code == 0 {
            Status::Success
        } else if code == 1 {
            Status::Failure
        } else if code == 2 {
            Status::UnknownError
        } else if code == 3 {
            Status::BadBackend
        } else if code == 4 {
            Status::BadConfiguration
        } else if code == 5 {
            Status::BadParameter
        } else if code == 6 {
            Status::BackendFailed
        } else if code == 7 {
            Status::RegistrationFailed
        } else if code == 8 {
            Status::RealizeFailed
        } else if code == 9 {
            Status::SetFormatFailed
        } else if code == 10 {
            Status::CreateContextFailed
        } else {
            Status::UnsupportedType
        }
    }

    /// Translates a native status code, mapping any unrecognized value to
    /// `UnsupportedType` rather than silently to `Success`.
    pub fn from_native(code: u32) -> (r: Status)
        ensures
            r == Status::spec_from_native(code),
            code != 0 ==> r != Status::Success,
    {
        if code == 0 {
            Status::Success
        } else if code == 1 {
            Status::Failure
        } else if code == 2 {
            Status::UnknownError
        } else if code == 3 {
            Status::BadBackend
        } else if code == 4 {
            Status::BadConfiguration
        } else if code == 5 {
            Status::BadParameter
        } else if code == 6 {
            Status::BackendFailed
        } else if code == 7 {
            Status::RegistrationFailed
        } else if code == 8 {
            Status::RealizeFailed
        } else if code == 9 {
            Status::SetFormatFailed
        } else if code == 10 {
            Status::CreateContextFailed
        } else {
            Status::UnsupportedType
        }
    }
}

/// The native hint value meaning "true".
pub const HINT_TRUE: i32 = 1;

/// The native hint value meaning "false".
pub const HINT_FALSE: i32 = 0;

/// The native hint value meaning "don't care".
pub const HINT_DONT_CARE: i32 = -1;

impl ViewHintBool {
    /// The boolean hint a native hint value names.
    pub open spec fn spec_from_native(v: i32) -> ViewHintBool {
        if v == HINT_TRUE {
            ViewHintBool::True
        } else if v == HINT_FALSE {
            ViewHintBool::False
        } else {
            ViewHintBool::DontCare
        }
    }

    /// The native hint value for a boolean hint.
    pub open spec fn spec_to_native(self) -> i32 {
        match self {
            ViewHintBool::True => HINT_TRUE,
            ViewHintBool::False => HINT_FALSE,
            ViewHintBool::DontCare => HINT_DONT_CARE,
        }
    }

    /// Translates a native hint value into a boolean hint.
    pub fn from_native(v: i32) -> (r: ViewHintBool)
        ensures
            r == ViewHintBool::spec_from_native(v),
    {
        if v == HINT_TRUE {
            ViewHintBool::True
        } else if v == HINT_FALSE {
            ViewHintBool::False
        } else {
            ViewHintBool::DontCare
        }
    }

    /// Builds the native hint value for this boolean hint.
    pub fn to_native(self) -> (r: i32)
        ensures
            r == self.spec_to_native(),
    {
        match self {
            ViewHintBool::True => HINT_TRUE,
            ViewHintBool::False => HINT_FALSE,
            ViewHintBool::DontCare => HINT_DONT_CARE,
        }
    }
}

impl ViewHintInt {
    /// The integer hint a native hint value names: negative native values
    /// mean unknown or unsupported, never a number.
    pub open spec fn spec_from_native(v: i32) -> ViewHintInt {
        if v < 0 {
            ViewHintInt::DontCare
        } else {
            ViewHintInt::Value(v as u32)
        }
    }

    /// The native hint value for an integer hint.
    pub open spec fn spec_to_native(self) -> i32 {
        match self {
            ViewHintInt::Value(v) => v as i32,
            ViewHintInt::DontCare => HINT_DONT_CARE,
        }
    }

    /// Translates a native hint value into an integer hint.
    pub fn from_native(v: i32) -> (r: ViewHintInt)
        ensures
            r == ViewHintInt::spec_from_native(v),
    {
        if v < 0 {
            ViewHintInt::DontCare
        } else {
            ViewHintInt::Value(v as u32)
        }
    }

    /// Builds the native hint value for this integer hint.
    ///
    /// A value hint must fit the native signed word.
    pub fn to_native(self) -> (r: i32)
        requires
            self matches ViewHintInt::Value(v) ==> v <= 0x7FFF_FFFF,
        ensures
            r == self.spec_to_native(),
    {
        match self {
            ViewHintInt::Value(v) => v as i32,
            ViewHintInt::DontCare => HINT_DONT_CARE,
        }
    }
}

impl Cursor {
    /// The native cursor code for a cursor.
    pub open spec fn spec_to_native(self) -> u32 {
        match self {
            Cursor::Arrow => 0,
            Cursor::Caret => 1,
            Cursor::CrossHair => 2,
            Cursor::Hand => 3,
            Cursor::No => 4,
            Cursor::LeftRight => 5,
            Cursor::UpDown => 6,
        }
    }

    /// Builds the native cursor code for this cursor.
    pub fn to_native(self) -> (r: u32)
        ensures
            r == self.spec_to_native(),
    {
        match self {
            Cursor::Arrow => 0,
            Cursor::Caret => 1,
            Cursor::CrossHair => 2,
            Cursor::Hand => 3,
            Cursor::No => 4,
            Cursor::LeftRight => 5,
            Cursor::UpDown => 6,
        }
    }
}

} // verus!
