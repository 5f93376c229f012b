//! A safety layer over a minimal event-driven windowing toolkit.
//!
//! The crate owns the lifecycle of a single on-screen view, translates the
//! toolkit's native event records into a stable, strongly typed event model,
//! and dispatches those events to application logic through the
//! [`PuglViewTrait`](view::PuglViewTrait) capability interface.
//!
//! The windowing system itself is an external collaborator.  This crate
//! verifies everything around it: the value types, the record translator,
//! the fixed dispatch routing and the simulated backend, an in-memory
//! implementation of the same lifecycle contract that lets application
//! logic run deterministically without a display.

mod scalar;
mod geometry;
mod key;
mod event;
mod status;
mod native;
mod view;
mod dispatch;

pub use scalar::Scalar;
pub use geometry::{Coord, Size, Rect};
pub use key::{Modifiers, SpecialKey, KeyVal, Key, KeyCode, MOD_NONE, MOD_SHIFT, MOD_CTRL, MOD_ALT, MOD_SUPER};
pub use event::{EventContext, EventFlags, MouseButton, MotionContext, Scroll, ExposeArea, EventType, Event, FLAG_IS_SEND_EVENT, FLAG_IS_HINT};
pub use status::{Status, Cursor, ViewHintBool, ViewHintInt};
pub use native::{RectRecord, KeyRecord, ButtonRecord, MotionRecord, ScrollRecord, CrossingRecord, ExposeRecord, ConfigureRecord, TimerRecord, NativeEvent};
pub use view::{PuglViewTrait, PuglViewMock, PuglView, ViewModel, HandleKind, SIM_REFRESH_RATE};
pub use dispatch::{Delivery, classify, dispatch};
pub use native::{KEY_BACKSPACE, KEY_ESCAPE, KEY_DELETE, KEY_F1, KEY_F2, KEY_F3, KEY_F4, KEY_F5, KEY_F6, KEY_F7, KEY_F8, KEY_F9, KEY_F10, KEY_F11, KEY_F12, KEY_LEFT, KEY_UP, KEY_RIGHT, KEY_DOWN, KEY_PAGE_UP, KEY_PAGE_DOWN, KEY_HOME, KEY_END, KEY_INSERT, KEY_SHIFT_L, KEY_SHIFT_R, KEY_CTRL_L, KEY_CTRL_R, KEY_ALT_L, KEY_ALT_R, KEY_SUPER_L, KEY_SUPER_R, KEY_MENU, KEY_CAPS_LOCK, KEY_SCROLL_LOCK, KEY_NUM_LOCK, KEY_PRINT_SCREEN, KEY_PAUSE, HINT_TRUE, HINT_FALSE, HINT_DONT_CARE};
