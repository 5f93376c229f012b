//! The fixed routing from native events to capability-interface calls.
//!
//! Each incoming native event is classified once: the pointer and keyboard
//! kinds are translated into an [`Event`] for the single generic handler,
//! while focus, timer, close, expose and configure events go to their
//! dedicated callbacks, whose return-status semantics and argument shapes
//! differ from the generic path.  Unrecognized kinds are ignored and
//! reported as success.  This routing table never changes at runtime.

use vstd::prelude::*;
use crate::geometry::Size;
use crate::key::Key;
use crate::event::{Event, EventType, EventContext, MouseButton, MotionContext, Scroll, ExposeArea};
use crate::status::Status;
use crate::native::{NativeEvent, key_record_wf};
use crate::view::PuglViewTrait;

verus! {

/// Where one native event is routed, with its translated payload.
#[derive(Copy, Clone, Debug, PartialEq, Eq, Structural)]
pub enum Delivery {
    /// Translated and delivered to the generic `event` handler.
    Generic(Event),
    /// Delivered to the dedicated focus-in callback.
    FocusIn,
    /// Delivered to the dedicated focus-out callback.
    FocusOut,
    /// Delivered to the timer callback with the timer's id.
    Timer(usize),
    /// Delivered to the close-request callback; no status is propagated.
    Close,
    /// Delivered to the expose callback; no status is propagated.
    Expose(ExposeArea),
    /// Delivered to the resize callback; no status is propagated.
    Configure(Size),
    /// An unrecognized native kind: ignored and reported as success.
    Ignored,
}

/// A native event is well formed when its key records are; every other
/// record shape is total.
pub open spec fn native_event_wf(ev: NativeEvent) -> bool {
    match ev {
        NativeEvent::KeyPress(rec) => key_record_wf(rec),
        NativeEvent::KeyRelease(rec) => key_record_wf(rec),
        _ => true,
    }
}

/// The fixed routing table: what each native event kind translates to and
/// which callback receives it.
pub open spec fn spec_classify(ev: NativeEvent) -> Delivery {
    match ev {
        NativeEvent::KeyPress(rec) => Delivery::Generic(
            Event {
                data: EventType::KeyPress(Key::spec_of_record(rec)),
                context: EventContext::spec_of_key_record(rec),
            },
        ),
        NativeEvent::KeyRelease(rec) => Delivery::Generic(
            Event {
                data: EventType::KeyRelease(Key::spec_of_record(rec)),
                context: EventContext::spec_of_key_record(rec),
            },
        ),
        NativeEvent::ButtonPress(rec) => Delivery::Generic(
            Event {
                data: EventType::MouseButtonPress(MouseButton::spec_of_record(rec)),
                context: EventContext::spec_of_button_record(rec),
            },
        ),
        NativeEvent::ButtonRelease(rec) => Delivery::Generic(
            Event {
                data: EventType::MouseButtonRelease(MouseButton::spec_of_record(rec)),
                context: EventContext::spec_of_button_record(rec),
            },
        ),
        NativeEvent::Motion(rec) => Delivery::Generic(
            Event {
                data: EventType::MouseMove(MotionContext::spec_of_record(rec)),
                context: EventContext::spec_of_motion_record(rec),
            },
        ),
        NativeEvent::PointerIn(rec) => Delivery::Generic(
            Event {
                data: EventType::PointerIn,
                context: EventContext::spec_of_crossing_record(rec),
            },
        ),
        NativeEvent::PointerOut(rec) => Delivery::Generic(
            Event {
                data: EventType::PointerOut,
                context: EventContext::spec_of_crossing_record(rec),
            },
        ),
        NativeEvent::Scroll(rec) => Delivery::Generic(
            Event {
                data: EventType::Scroll(Scroll::spec_of_record(rec)),
                context: EventContext::spec_of_scroll_record(rec),
            },
        ),
        NativeEvent::FocusIn => Delivery::FocusIn,
        NativeEvent::FocusOut => Delivery::FocusOut,
        NativeEvent::Timer(rec) => Delivery::Timer(rec.id),
        NativeEvent::Close => Delivery::Close,
        NativeEvent::Expose(rec) => Delivery::Expose(ExposeArea::spec_of_record(rec)),
        NativeEvent::Configure(rec) => Delivery::Configure(Size::spec_of_configure_record(rec)),
        NativeEvent::Unknown => Delivery::Ignored,
    }
}

/// Classifies one native event, translating its payload.
pub fn classify(ev: &NativeEvent) -> (d: Delivery)
    requires
        native_event_wf(*ev),
    ensures
        d == spec_classify(*ev),
{
    match ev {
        NativeEvent::KeyPress(rec) => Delivery::Generic(
            Event {
                data: EventType::KeyPress(Key::from_record(rec)),
                context: EventContext::from_key_record(rec),
            },
        ),
        NativeEvent::KeyRelease(rec) => Delivery::Generic(
            Event {
                data: EventType::KeyRelease(Key::from_record(rec)),
                context: EventContext::from_key_record(rec),
            },
        ),
        NativeEvent::ButtonPress(rec) => Delivery::Generic(
            Event {
                data: EventType::MouseButtonPress(MouseButton::from_record(rec)),
                context: EventContext::from_button_record(rec),
            },
        ),
        NativeEvent::ButtonRelease(rec) => Delivery::Generic(
            Event {
                data: EventType::MouseButtonRelease(MouseButton::from_record(rec)),
                context: EventContext::from_button_record(rec),
            },
        ),
        NativeEvent::Motion(rec) => Delivery::Generic(
            Event {
                data: EventType::MouseMove(MotionContext::from_record(rec)),
                context: EventContext::from_motion_record(rec),
            },
        ),
        NativeEvent::PointerIn(rec) => Delivery::Generic(
            Event { data: EventType::PointerIn, context: EventContext::from_crossing_record(rec) },
        ),
        NativeEvent::PointerOut(rec) => Delivery::Generic(
            Event { data: EventType::PointerOut, context: EventContext::from_crossing_record(rec) },
        ),
        NativeEvent::Scroll(rec) => Delivery::Generic(
            Event {
                data: EventType::Scroll(Scroll::from_record(rec)),
                context: EventContext::from_scroll_record(rec),
            },
        ),
        NativeEvent::FocusIn => Delivery::FocusIn,
        NativeEvent::FocusOut => Delivery::FocusOut,
        NativeEvent::Timer(rec) => Delivery::Timer(rec.id),
        NativeEvent::Close => Delivery::Close,
        NativeEvent::Expose(rec) => Delivery::Expose(ExposeArea::from_record(rec)),
        NativeEvent::Configure(rec) => Delivery::Configure(Size::from_configure_record(rec)),
        NativeEvent::Unknown => Delivery::Ignored,
    }
}

/// Delivers one native event to the application's capability interface
/// along the fixed routing table.
///
/// The generic, focus and timer paths report the handler's own status;
/// close, expose, configure and unrecognized events always report success
/// upward, whatever the callback does.
pub fn dispatch<T: PuglViewTrait>(ui: &mut T, ev: &NativeEvent) -> (st: Status)
    requires
        native_event_wf(*ev),
    ensures
        spec_classify(*ev) is Close ==> st == Status::Success,
        spec_classify(*ev) is Expose ==> st == Status::Success,
        spec_classify(*ev) is Configure ==> st == Status::Success,
        spec_classify(*ev) is Ignored ==> st == Status::Success,
{
    match classify(ev) {
        Delivery::Generic(event) => ui.event(event),
        Delivery::FocusIn => ui.focus_in(),
        Delivery::FocusOut => ui.focus_out(),
        Delivery::Timer(id) => ui.timer_event(id),
        Delivery::Close => {
            ui.close_request();
            Status::Success
        },
        Delivery::Expose(area) => {
            ui.exposed(&area);
            Status::Success
        },
        Delivery::Configure(size) => {
            ui.resize(size);
            Status::Success
        },
        Delivery::Ignored => Status::Success,
    }
}

} // verus!
