//! Tests for the fixed event routing: which native kinds reach the generic
//! handler, which reach a dedicated callback, and which are ignored.

use pugl_sys::{Scalar, Size};
use pugl_sys::{SpecialKey, KeyVal, Status};
use pugl_sys::{Event, EventType, ExposeArea};
use pugl_sys::{KeyRecord, ButtonRecord, MotionRecord, ScrollRecord, CrossingRecord, ExposeRecord, ConfigureRecord, TimerRecord, NativeEvent};
use pugl_sys::{Delivery, classify, dispatch, PuglViewTrait, KEY_F1};

fn sc(v: f64) -> Scalar {
    Scalar::from_bits(v.to_bits())
}

fn key_record(key: u32, keycode: u32) -> KeyRecord {
    KeyRecord {
        flags: 0,
        time: sc(2.0),
        x: sc(23.0),
        y: sc(42.0),
        x_root: sc(123.0),
        y_root: sc(142.0),
        state: 0,
        keycode,
        key,
    }
}

fn button_record() -> ButtonRecord {
    ButtonRecord {
        flags: 0,
        time: sc(1.0),
        x: sc(2.0),
        y: sc(3.0),
        x_root: sc(4.0),
        y_root: sc(5.0),
        state: 0,
        button: 2,
    }
}

fn crossing_record() -> CrossingRecord {
    CrossingRecord {
        flags: 0,
        time: sc(1.0),
        x: sc(2.0),
        y: sc(3.0),
        x_root: sc(4.0),
        y_root: sc(5.0),
        state: 0,
        mode: 0,
    }
}

#[test]
fn classify_key_press_translates_character() {
    let d = classify(&NativeEvent::KeyPress(key_record(0x61, 38)));
    match d {
        Delivery::Generic(ev) => match ev.data {
            EventType::KeyPress(k) => {
                assert_eq!(k.key, KeyVal::Character('a'));
                assert_eq!(k.code, 38);
            }
            _ => panic!("wrong event type"),
        },
        _ => panic!("key press must go to the generic handler"),
    }
}

#[test]
fn classify_key_press_translates_special() {
    let d = classify(&NativeEvent::KeyPress(key_record(0, KEY_F1)));
    match d {
        Delivery::Generic(ev) => match ev.data {
            EventType::KeyPress(k) => assert_eq!(k.key, KeyVal::Special(SpecialKey::F1)),
            _ => panic!("wrong event type"),
        },
        _ => panic!("key press must go to the generic handler"),
    }
}

#[test]
fn classify_routes_each_kind() {
    assert!(matches!(
        classify(&NativeEvent::KeyRelease(key_record(0x62, 39))),
        Delivery::Generic(Event { data: EventType::KeyRelease(_), .. })
    ));
    assert!(matches!(
        classify(&NativeEvent::ButtonPress(button_record())),
        Delivery::Generic(Event { data: EventType::MouseButtonPress(_), .. })
    ));
    assert!(matches!(
        classify(&NativeEvent::ButtonRelease(button_record())),
        Delivery::Generic(Event { data: EventType::MouseButtonRelease(_), .. })
    ));
    assert!(matches!(
        classify(&NativeEvent::Motion(MotionRecord {
            flags: 0,
            time: sc(1.0),
            x: sc(2.0),
            y: sc(3.0),
            x_root: sc(4.0),
            y_root: sc(5.0),
            state: 0,
        })),
        Delivery::Generic(Event { data: EventType::MouseMove(_), .. })
    ));
    assert!(matches!(
        classify(&NativeEvent::PointerIn(crossing_record())),
        Delivery::Generic(Event { data: EventType::PointerIn, .. })
    ));
    assert!(matches!(
        classify(&NativeEvent::PointerOut(crossing_record())),
        Delivery::Generic(Event { data: EventType::PointerOut, .. })
    ));
    assert!(matches!(
        classify(&NativeEvent::Scroll(ScrollRecord {
            flags: 0,
            time: sc(1.0),
            x: sc(2.0),
            y: sc(3.0),
            x_root: sc(4.0),
            y_root: sc(5.0),
            state: 0,
            dx: sc(0.0),
            dy: sc(1.0),
            direction: 0,
        })),
        Delivery::Generic(Event { data: EventType::Scroll(_), .. })
    ));
    assert!(matches!(classify(&NativeEvent::FocusIn), Delivery::FocusIn));
    assert!(matches!(classify(&NativeEvent::FocusOut), Delivery::FocusOut));
    assert!(matches!(
        classify(&NativeEvent::Timer(TimerRecord { flags: 0, id: 9 })),
        Delivery::Timer(9)
    ));
    assert!(matches!(classify(&NativeEvent::Close), Delivery::Close));
    assert!(matches!(
        classify(&NativeEvent::Expose(ExposeRecord {
            flags: 0,
            x: sc(0.0),
            y: sc(0.0),
            width: sc(10.0),
            height: sc(20.0),
        })),
        Delivery::Expose(_)
    ));
    assert!(matches!(
        classify(&NativeEvent::Configure(ConfigureRecord {
            flags: 0,
            x: sc(0.0),
            y: sc(0.0),
            width: sc(10.0),
            height: sc(20.0),
        })),
        Delivery::Configure(_)
    ));
    assert!(matches!(classify(&NativeEvent::Unknown), Delivery::Ignored));
}

/// Records which callback each dispatched event reached.
struct RecordingUI {
    generic: Vec<Event>,
    focus_in: u32,
    focus_out: u32,
    timers: Vec<usize>,
    closes: u32,
    exposes: Vec<ExposeArea>,
    resizes: Vec<Size>,
    handler_status: Status,
}

impl RecordingUI {
    fn new(handler_status: Status) -> Self {
        Self {
            generic: Vec::new(),
            focus_in: 0,
            focus_out: 0,
            timers: Vec::new(),
            closes: 0,
            exposes: Vec::new(),
            resizes: Vec::new(),
            handler_status,
        }
    }
}

impl PuglViewTrait for RecordingUI {
    fn event(&mut self, ev: Event) -> Status {
        self.generic.push(ev);
        self.handler_status
    }
    fn exposed(&mut self, expose: &ExposeArea) {
        self.exposes.push(*expose);
    }
    fn resize(&mut self, size: Size) {
        self.resizes.push(size);
    }
    fn close_request(&mut self) {
        self.closes += 1;
    }
    fn focus_in(&mut self) -> Status {
        self.focus_in += 1;
        self.handler_status
    }
    fn focus_out(&mut self) -> Status {
        self.focus_out += 1;
        self.handler_status
    }
    fn timer_event(&mut self, id: usize) -> Status {
        self.timers.push(id);
        self.handler_status
    }
}

#[test]
fn dispatch_generic_kinds_reach_only_the_generic_handler() {
    let mut ui = RecordingUI::new(Status::Success);
    dispatch(&mut ui, &NativeEvent::KeyPress(key_record(0x61, 38)));
    dispatch(&mut ui, &NativeEvent::ButtonPress(button_record()));
    dispatch(&mut ui, &NativeEvent::PointerIn(crossing_record()));
    assert_eq!(ui.generic.len(), 3);
    assert_eq!(ui.focus_in, 0);
    assert_eq!(ui.focus_out, 0);
    assert_eq!(ui.closes, 0);
    assert!(ui.exposes.is_empty());
    assert!(ui.resizes.is_empty());
}

#[test]
fn dispatch_focus_bypasses_generic_handler() {
    let mut ui = RecordingUI::new(Status::Success);
    dispatch(&mut ui, &NativeEvent::FocusIn);
    dispatch(&mut ui, &NativeEvent::FocusOut);
    assert_eq!(ui.focus_in, 1);
    assert_eq!(ui.focus_out, 1);
    assert!(ui.generic.is_empty());
}

#[test]
fn dispatch_timer_carries_id() {
    let mut ui = RecordingUI::new(Status::Success);
    dispatch(&mut ui, &NativeEvent::Timer(TimerRecord { flags: 0, id: 4 }));
    assert_eq!(ui.timers, vec![4]);
    assert!(ui.generic.is_empty());
}

#[test]
fn dispatch_close_expose_configure_report_success() {
    // Even a handler that fails everywhere cannot change the status of the
    // close, expose and configure paths.
    let mut ui = RecordingUI::new(Status::Failure);
    assert_eq!(dispatch(&mut ui, &NativeEvent::Close), Status::Success);
    assert_eq!(
        dispatch(
            &mut ui,
            &NativeEvent::Expose(ExposeRecord {
                flags: 0,
                x: sc(1.0),
                y: sc(2.0),
                width: sc(3.0),
                height: sc(4.0),
            })
        ),
        Status::Success
    );
    assert_eq!(
        dispatch(
            &mut ui,
            &NativeEvent::Configure(ConfigureRecord {
                flags: 0,
                x: sc(0.0),
                y: sc(0.0),
                width: sc(640.0),
                height: sc(480.0),
            })
        ),
        Status::Success
    );
    assert_eq!(ui.closes, 1);
    assert_eq!(ui.exposes.len(), 1);
    assert_eq!(ui.resizes.len(), 1);
    assert_eq!(f64::from_bits(ui.resizes[0].w.bits()), 640.0);
    assert!(ui.generic.is_empty());
}

#[test]
fn dispatch_propagates_handler_status_on_generic_path() {
    let mut ui = RecordingUI::new(Status::Failure);
    assert_eq!(dispatch(&mut ui, &NativeEvent::KeyPress(key_record(0x61, 38))), Status::Failure);
    assert_eq!(dispatch(&mut ui, &NativeEvent::FocusIn), Status::Failure);
}

#[test]
fn dispatch_ignores_unknown_kinds() {
    let mut ui = RecordingUI::new(Status::Failure);
    assert_eq!(dispatch(&mut ui, &NativeEvent::Unknown), Status::Success);
    assert!(ui.generic.is_empty());
    assert_eq!(ui.closes, 0);
}

#[test]
fn event_accessors() {
    let d = classify(&NativeEvent::KeyPress(key_record(0x61, 38)));
    let ev = match d {
        Delivery::Generic(ev) => ev,
        _ => panic!("key press must go to the generic handler"),
    };
    let key = ev.try_keypress().expect("a key press event");
    assert_eq!(key.try_char(), Some('a'));
    assert_eq!(ev.pos().x, sc(23.0));
    assert_eq!(ev.pos().y, sc(42.0));
    assert_eq!(ev.pos_root().x, sc(123.0));
    assert_eq!(ev.pos_root().y, sc(142.0));
    let rel = classify(&NativeEvent::KeyRelease(key_record(0x61, 38)));
    match rel {
        Delivery::Generic(ev) => assert_eq!(ev.try_keypress(), None),
        _ => panic!("key release must go to the generic handler"),
    }
}
