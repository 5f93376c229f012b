//! The view lifecycle manager, in its simulated form, and the capability
//! interface through which events reach application logic.
//!
//! [`PuglViewMock`] is an in-memory implementation of the view lifecycle
//! contract: it tracks configuration, the realize/visible state machine, a
//! first-in-first-out queue of synthetic events and the timer table, so
//! application logic can be exercised deterministically without a display.
//! [`PuglView`] owns one mock together with the application's
//! [`PuglViewTrait`] implementation and runs the dispatch loop over the
//! synthetic queue.
//!
//! Every operation is specified as a transition on the ghost [`ViewModel`];
//! the lemmas at the end of this module state the lifecycle laws over those
//! transitions.

use vstd::prelude::*;
use std::collections::VecDeque;
use std::collections::HashMap;
use crate::scalar::{Scalar, spec_scalar_of_i32};
use crate::geometry::{Coord, Size, Rect};
use crate::event::Event;
use crate::status::{Status, Cursor, ViewHintBool, ViewHintInt};

verus! {

broadcast use vstd::std_specs::hash::group_hash_axioms;

/// The refresh rate, in Hz, that the simulated display reports once a view
/// has been realized.
pub const SIM_REFRESH_RATE: u32 = 60;

/// The kinds of native handle a view owns, in the order they are released.
#[derive(Copy, Clone, Debug, PartialEq, Eq, Structural)]
pub enum HandleKind {
    /// The view handle.
    ViewHandle,
    /// The world (session) handle the view was created within.
    WorldHandle,
}

/// The mathematical state of a simulated view.
pub ghost struct ViewModel {
    pub frame: Rect,
    pub default_width: i32,
    pub default_height: i32,
    pub min_width: i32,
    pub min_height: i32,
    pub max_width: i32,
    pub max_height: i32,
    pub min_aspect_x: i32,
    pub max_aspect_x: i32,
    pub min_aspect_y: i32,
    pub max_aspect_y: i32,
    pub resizable: bool,
    pub window_title: Seq<char>,
    pub visible: bool,
    pub realized: bool,
    pub cursor: Cursor,
    pub ignore_key_repeat: ViewHintBool,
    pub red_bits: u32,
    pub green_bits: u32,
    pub blue_bits: u32,
    pub alpha_bits: u32,
    pub depth_bits: u32,
    pub stencil_bits: u32,
    pub samples: u32,
    pub double_buffer: bool,
    pub swap_interval: ViewHintInt,
    pub refresh_rate: ViewHintInt,
    pub update_timeout: Option<Scalar>,
    pub event_queue: Seq<Event>,
    pub timer_time: Map<usize, Scalar>,
    pub release_log: Seq<HandleKind>,
}

impl ViewModel {
    /// The state of a freshly created, unconfigured and unrealized view:
    /// the simulated display's color-depth defaults, no geometry, nothing
    /// queued, no timers, both handles still held.
    pub open spec fn initial() -> ViewModel {
        ViewModel {
            frame: Rect {
                pos: Coord { x: Scalar { bits: 0 }, y: Scalar { bits: 0 } },
                size: Size { w: Scalar { bits: 0 }, h: Scalar { bits: 0 } },
            },
            default_width: 0,
            default_height: 0,
            min_width: 0,
            min_height: 0,
            max_width: 0,
            max_height: 0,
            min_aspect_x: 0,
            max_aspect_x: 0,
            min_aspect_y: 0,
            max_aspect_y: 0,
            resizable: false,
            window_title: Seq::empty(),
            visible: false,
            realized: false,
            cursor: Cursor::Arrow,
            ignore_key_repeat: ViewHintBool::DontCare,
            red_bits: 8,
            green_bits: 8,
            blue_bits: 8,
            alpha_bits: 8,
            depth_bits: 0,
            stencil_bits: 0,
            samples: 0,
            double_buffer: true,
            swap_interval: ViewHintInt::DontCare,
            refresh_rate: ViewHintInt::DontCare,
            update_timeout: None,
            event_queue: Seq::empty(),
            timer_time: Map::empty(),
            release_log: Seq::empty(),
        }
    }

    /// The state after configuring the default size.
    pub open spec fn with_default_size(self, width: i32, height: i32) -> ViewModel {
        ViewModel { default_width: width, default_height: height, ..self }
    }

    /// The state after configuring the minimum size.
    pub open spec fn with_min_size(self, width: i32, height: i32) -> ViewModel {
        ViewModel { min_width: width, min_height: height, ..self }
    }

    /// The state after configuring the maximum size.
    pub open spec fn with_max_size(self, width: i32, height: i32) -> ViewModel {
        ViewModel { max_width: width, max_height: height, ..self }
    }

    /// The state after configuring the aspect ratio range.
    pub open spec fn with_aspect_ratio(self, min_x: i32, min_y: i32, max_x: i32, max_y: i32) -> ViewModel {
        ViewModel {
            min_aspect_x: min_x,
            min_aspect_y: min_y,
            max_aspect_x: max_x,
            max_aspect_y: max_y,
            ..self
        }
    }

    /// The state after making the view resizable.
    pub open spec fn with_resizable(self) -> ViewModel {
        ViewModel { resizable: true, ..self }
    }

    /// The state after setting the window title.
    pub open spec fn with_title(self, title: Seq<char>) -> ViewModel {
        ViewModel { window_title: title, ..self }
    }

    /// The state after setting the whole frame rectangle.
    pub open spec fn with_frame(self, frame: Rect) -> ViewModel {
        ViewModel { frame, ..self }
    }

    /// The state after an externally forced resize of the frame.
    pub open spec fn with_frame_size(self, size: Size) -> ViewModel {
        ViewModel { frame: Rect { pos: self.frame.pos, size }, ..self }
    }

    /// The state after setting the cursor.
    pub open spec fn with_cursor(self, cursor: Cursor) -> ViewModel {
        ViewModel { cursor, ..self }
    }

    /// The state after setting the key-repeat hint.
    pub open spec fn with_ignore_key_repeat(self, value: ViewHintBool) -> ViewModel {
        ViewModel { ignore_key_repeat: value, ..self }
    }

    /// The state after setting the double-buffer hint.
    pub open spec fn with_double_buffer(self, yn: bool) -> ViewModel {
        ViewModel { double_buffer: yn, ..self }
    }

    /// The state after hiding the window.
    pub open spec fn hidden(self) -> ViewModel {
        ViewModel { visible: false, ..self }
    }

    /// The state after queuing a synthetic event: the queue grows at the
    /// back.
    pub open spec fn with_queued(self, ev: Event) -> ViewModel {
        ViewModel { event_queue: self.event_queue.push(ev), ..self }
    }

    /// The outcome of realization.
    ///
    /// Realizing fails with `BadConfiguration` when the default
    /// width-times-height is zero, that is, when either side is zero, and
    /// then changes nothing.  Otherwise the view becomes realized, the
    /// frame size is the configured default size, and the simulated
    /// display's refresh rate becomes known.
    pub open spec fn realize_outcome(self) -> (ViewModel, Status) {
        if self.default_width == 0 || self.default_height == 0 {
            (self, Status::BadConfiguration)
        } else {
            (
                ViewModel {
                    realized: true,
                    frame: Rect {
                        pos: self.frame.pos,
                        size: Size {
                            w: spec_scalar_of_i32(self.default_width as int),
                            h: spec_scalar_of_i32(self.default_height as int),
                        },
                    },
                    refresh_rate: ViewHintInt::Value(SIM_REFRESH_RATE),
                    ..self
                },
                Status::Success,
            )
        }
    }

    /// The outcome of showing the window.
    ///
    /// An unrealized view is realized first; a realized view is never
    /// re-realized.  On success the view becomes visible; a realization
    /// failure is propagated and leaves visibility unchanged.
    pub open spec fn show_outcome(self) -> (ViewModel, Status) {
        let step: (ViewModel, Status) = if !self.realized {
            self.realize_outcome()
        } else {
            (self, Status::Success)
        };
        if step.1 == Status::Success {
            (ViewModel { visible: true, ..step.0 }, Status::Success)
        } else {
            step
        }
    }

    /// The outcome of one update iteration: the timeout is recorded and,
    /// if the synthetic queue is non-empty, exactly the front event is
    /// popped and delivered.  The status reports whether an event was
    /// processed.
    pub open spec fn update_outcome(self, timeout: Scalar) -> (ViewModel, Option<Event>, Status) {
        let recorded = ViewModel { update_timeout: Some(timeout), ..self };
        if self.event_queue.len() > 0 {
            (
                ViewModel {
                    event_queue: self.event_queue.subrange(1, self.event_queue.len() as int),
                    ..recorded
                },
                Some(self.event_queue[0]),
                Status::Success,
            )
        } else {
            (recorded, None, Status::Failure)
        }
    }

    /// The state after registering a timer: a fresh id is added,
    /// re-registering an existing id replaces its period.
    pub open spec fn with_timer(self, id: usize, period: Scalar) -> ViewModel {
        ViewModel { timer_time: self.timer_time.insert(id, period), ..self }
    }

    /// The outcome of stopping a timer: success exactly when the id is
    /// registered, and then the registration is gone.
    pub open spec fn stop_timer_outcome(self, id: usize) -> (ViewModel, Status) {
        if self.timer_time.contains_key(id) {
            (ViewModel { timer_time: self.timer_time.remove(id), ..self }, Status::Success)
        } else {
            (self, Status::Failure)
        }
    }

    /// The state after releasing the view handle.
    pub open spec fn with_view_released(self) -> ViewModel {
        ViewModel { release_log: self.release_log.push(HandleKind::ViewHandle), ..self }
    }

    /// The state after releasing the world handle.
    pub open spec fn with_world_released(self) -> ViewModel {
        ViewModel { release_log: self.release_log.push(HandleKind::WorldHandle), ..self }
    }
}

/// The in-memory record standing in for a native view.
///
/// It holds the frame geometry, the pending configuration, the lifecycle
/// flags, the synthetic event queue, the timer table and the order in which
/// the native handles were released.
pub struct PuglViewMock {
    pub frame: Rect,
    pub default_width: i32,
    pub default_height: i32,
    pub min_width: i32,
    pub min_height: i32,
    pub max_width: i32,
    pub max_height: i32,
    pub min_aspect_x: i32,
    pub max_aspect_x: i32,
    pub min_aspect_y: i32,
    pub max_aspect_y: i32,
    pub resizable: bool,
    pub window_title: String,
    pub visible: bool,
    pub realized: bool,
    pub cursor: Cursor,
    pub ignore_key_repeat: ViewHintBool,
    pub red_bits: u32,
    pub green_bits: u32,
    pub blue_bits: u32,
    pub alpha_bits: u32,
    pub depth_bits: u32,
    pub stencil_bits: u32,
    pub samples: u32,
    pub double_buffer: bool,
    pub swap_interval: ViewHintInt,
    pub refresh_rate: ViewHintInt,
    pub update_timeout: Option<Scalar>,
    pub event_queue: VecDeque<Event>,
    pub timer_time: HashMap<usize, Scalar>,
    pub release_log: Vec<HandleKind>,
}

impl View for PuglViewMock {
    type V = ViewModel;

    open spec fn view(&self) -> ViewModel {
        ViewModel {
            frame: self.frame,
            default_width: self.default_width,
            default_height: self.default_height,
            min_width: self.min_width,
            min_height: self.min_height,
            max_width: self.max_width,
            max_height: self.max_height,
            min_aspect_x: self.min_aspect_x,
            max_aspect_x: self.max_aspect_x,
            min_aspect_y: self.min_aspect_y,
            max_aspect_y: self.max_aspect_y,
            resizable: self.resizable,
            window_title: self.window_title@,
            visible: self.visible,
            realized: self.realized,
            cursor: self.cursor,
            ignore_key_repeat: self.ignore_key_repeat,
            red_bits: self.red_bits,
            green_bits: self.green_bits,
            blue_bits: self.blue_bits,
            alpha_bits: self.alpha_bits,
            depth_bits: self.depth_bits,
            stencil_bits: self.stencil_bits,
            samples: self.samples,
            double_buffer: self.double_buffer,
            swap_interval: self.swap_interval,
            refresh_rate: self.refresh_rate,
            update_timeout: self.update_timeout,
            event_queue: self.event_queue@,
            timer_time: self.timer_time@,
            release_log: self.release_log@,
        }
    }
}

impl Default for PuglViewMock {
    /// A freshly created simulated view, in the initial model state.
    fn default() -> (r: PuglViewMock)
        ensures
            r@ == ViewModel::initial(),
    {
        let r = PuglViewMock {
            frame: Rect {
                pos: Coord { x: Scalar { bits: 0 }, y: Scalar { bits: 0 } },
                size: Size { w: Scalar { bits: 0 }, h: Scalar { bits: 0 } },
            },
            default_width: 0,
            default_height: 0,
            min_width: 0,
            min_height: 0,
            max_width: 0,
            max_height: 0,
            min_aspect_x: 0,
            max_aspect_x: 0,
            min_aspect_y: 0,
            max_aspect_y: 0,
            resizable: false,
            window_title: String::new(),
            visible: false,
            realized: false,
            cursor: Cursor::Arrow,
            ignore_key_repeat: ViewHintBool::DontCare,
            red_bits: 8,
            green_bits: 8,
            blue_bits: 8,
            alpha_bits: 8,
            depth_bits: 0,
            stencil_bits: 0,
            samples: 0,
            double_buffer: true,
            swap_interval: ViewHintInt::DontCare,
            refresh_rate: ViewHintInt::DontCare,
            update_timeout: None,
            event_queue: VecDeque::new(),
            timer_time: HashMap::new(),
            release_log: Vec::new(),
        };
        proof {
            assert(r@ =~= ViewModel::initial());
        }
        r
    }
}

impl PuglViewMock {
    /// Sets the default size of the view; meaningful before realization,
    /// when it becomes the initial frame size.
    pub fn set_default_size(&mut self, width: i32, height: i32) -> (r: Status)
        ensures
            final(self)@ == old(self)@.with_default_size(width, height),
            r == Status::Success,
    {
        self.default_width = width;
        self.default_height = height;
        Status::Success
    }

    /// Sets the minimum size of the view.
    pub fn set_min_size(&mut self, width: i32, height: i32) -> (r: Status)
        ensures
            final(self)@ == old(self)@.with_min_size(width, height),
            r == Status::Success,
    {
        self.min_width = width;
        self.min_height = height;
        Status::Success
    }

    /// Sets the maximum size of the view.
    pub fn set_max_size(&mut self, width: i32, height: i32) -> (r: Status)
        ensures
            final(self)@ == old(self)@.with_max_size(width, height),
            r == Status::Success,
    {
        self.max_width = width;
        self.max_height = height;
        Status::Success
    }

    /// Sets the view aspect ratio range, as ratios of width to height.
    pub fn set_aspect_ratio(&mut self, min_x: i32, min_y: i32, max_x: i32, max_y: i32) -> (r: Status)
        ensures
            final(self)@ == old(self)@.with_aspect_ratio(min_x, min_y, max_x, max_y),
            r == Status::Success,
    {
        self.min_aspect_x = min_x;
        self.max_aspect_x = max_x;
        self.min_aspect_y = min_y;
        self.max_aspect_y = max_y;
        Status::Success
    }

    /// Makes the view resizable; meaningful before realization.
    pub fn make_resizable(&mut self) -> (r: Status)
        ensures
            final(self)@ == old(self)@.with_resizable(),
            r == Status::Success,
    {
        self.resizable = true;
        Status::Success
    }

    /// Returns true exactly when the view is resizable.
    pub fn is_resizable(&self) -> (r: bool)
        ensures
            r == self.resizable,
    {
        self.resizable
    }

    /// Sets the window title.
    ///
    /// A title with an embedded NUL is an application programming error:
    /// the native layer rejects such strings loudly, so they are excluded
    /// here.
    pub fn set_window_title(&mut self, title: &str) -> (r: Status)
        requires
            forall|i: int| 0 <= i < title@.len() ==> title@[i] as u32 != 0,
        ensures
            final(self)@ == old(self)@.with_title(title@),
            r == Status::Success,
    {
        self.window_title = title.to_owned();
        Status::Success
    }

    /// Realizes the view, creating the simulated system window.
    ///
    /// Fails with `BadConfiguration` when the configured default
    /// width-times-height is zero (no meaningful initial size was ever
    /// configured) and then changes nothing.  On success the frame size
    /// becomes the configured default size.  May only be called once per
    /// view; `show_window` calls it indirectly on an unrealized view.
    pub fn realize(&mut self) -> (r: Status)
        ensures
            final(self)@ == old(self)@.realize_outcome().0,
            r == old(self)@.realize_outcome().1,
    {
        if self.default_width == 0 || self.default_height == 0 {
            return Status::BadConfiguration;
        }
        self.realized = true;
        self.frame.size.w = Scalar::from_i32(self.default_width);
        self.frame.size.h = Scalar::from_i32(self.default_height);
        self.refresh_rate = ViewHintInt::Value(SIM_REFRESH_RATE);
        Status::Success
    }

    /// Shows the window.
    ///
    /// If the view has not yet been realized, this realizes it first; an
    /// already realized view is never re-realized.  On success the view
    /// becomes visible; a realization failure is propagated and leaves
    /// the view invisible.
    pub fn show_window(&mut self) -> (r: Status)
        ensures
            final(self)@ == old(self)@.show_outcome().0,
            r == old(self)@.show_outcome().1,
    {
        let status: Status = if !self.realized {
            self.realize()
        } else {
            Status::Success
        };
        if status == Status::Success {
            self.visible = true;
        }
        status
    }

    /// Hides the window; idempotent.
    pub fn hide_window(&mut self) -> (r: Status)
        ensures
            final(self)@ == old(self)@.hidden(),
            r == Status::Success,
    {
        self.visible = false;
        Status::Success
    }

    /// Returns true exactly when the view is currently visible.
    pub fn is_visible(&self) -> (r: bool)
        ensures
            r == self.visible,
    {
        self.visible
    }

    /// Returns the current position and size of the view.
    pub fn get_frame(&self) -> (r: Rect)
        ensures
            r == self.frame,
    {
        self.frame
    }

    /// Sets the current position and size of the view.
    pub fn set_frame(&mut self, frame: Rect) -> (r: Status)
        ensures
            final(self)@ == old(self)@.with_frame(frame),
            r == Status::Success,
    {
        self.frame = frame;
        Status::Success
    }

    /// Sets the mouse cursor shown while the pointer is inside the view.
    pub fn set_cursor(&mut self, c: Cursor) -> (r: Status)
        ensures
            final(self)@ == old(self)@.with_cursor(c),
            r == Status::Success,
    {
        self.cursor = c;
        Status::Success
    }

    /// Returns the key-repeat hint.
    pub fn is_ignoring_key_repeats(&self) -> (r: ViewHintBool)
        ensures
            r == self.ignore_key_repeat,
    {
        self.ignore_key_repeat
    }

    /// Sets the hint whether the view should ignore key repeats.
    pub fn set_ignore_key_repeats(&mut self, value: ViewHintBool) -> (r: Status)
        ensures
            final(self)@ == old(self)@.with_ignore_key_repeat(value),
            r == Status::Success,
    {
        self.ignore_key_repeat = value;
        Status::Success
    }

    /// The number of bits for the red channel of the view.
    pub fn red_bits(&self) -> (r: u32)
        ensures
            r == self.red_bits,
    {
        self.red_bits
    }

    /// The number of bits for the green channel of the view.
    pub fn green_bits(&self) -> (r: u32)
        ensures
            r == self.green_bits,
    {
        self.green_bits
    }

    /// The number of bits for the blue channel of the view.
    pub fn blue_bits(&self) -> (r: u32)
        ensures
            r == self.blue_bits,
    {
        self.blue_bits
    }

    /// The number of bits for the alpha channel of the view.
    pub fn alpha_bits(&self) -> (r: u32)
        ensures
            r == self.alpha_bits,
    {
        self.alpha_bits
    }

    /// The number of bits for the depth buffer of the view.
    pub fn depth_bits(&self) -> (r: u32)
        ensures
            r == self.depth_bits,
    {
        self.depth_bits
    }

    /// The number of bits for the stencil buffer of the view.
    pub fn stencil_bits(&self) -> (r: u32)
        ensures
            r == self.stencil_bits,
    {
        self.stencil_bits
    }

    /// The number of samples per pixel.
    pub fn samples(&self) -> (r: u32)
        ensures
            r == self.samples,
    {
        self.samples
    }

    /// Returns true exactly when double buffering is used.
    pub fn double_buffer(&self) -> (r: bool)
        ensures
            r == self.double_buffer,
    {
        self.double_buffer
    }

    /// Sets whether double buffering should be used.
    pub fn set_double_buffer(&mut self, yn: bool) -> (r: Status)
        ensures
            final(self)@ == old(self)@.with_double_buffer(yn),
            r == Status::Success,
    {
        self.double_buffer = yn;
        Status::Success
    }

    /// The number of frames between buffer swaps.
    pub fn swap_interval(&self) -> (r: ViewHintInt)
        ensures
            r == self.swap_interval,
    {
        self.swap_interval
    }

    /// The refresh rate in Hz; known once the view has been realized.
    pub fn refresh_rate(&self) -> (r: ViewHintInt)
        ensures
            r == self.refresh_rate,
    {
        self.refresh_rate
    }

    /// Requests a redisplay of the entire view.
    ///
    /// In the simulated backend no expose is synthesized: callers inject
    /// expose events explicitly, so this records nothing and succeeds.
    pub fn post_redisplay(&self) -> (r: Status)
        ensures
            r == Status::Success,
    {
        Status::Success
    }

    /// Requests a redisplay of the given rectangle within the view; like
    /// `post_redisplay`, a simulated no-op that succeeds.
    pub fn post_redisplay_rect(&self, _pos: Coord, _size: Size) -> (r: Status)
        ensures
            r == Status::Success,
    {
        Status::Success
    }

    /// The configured minimum size.
    pub fn min_size(&self) -> (r: Size)
        ensures
            r.w == spec_scalar_of_i32(self.min_width as int),
            r.h == spec_scalar_of_i32(self.min_height as int),
    {
        Size { w: Scalar::from_i32(self.min_width), h: Scalar::from_i32(self.min_height) }
    }

    /// Appends a synthetic event to the back of the queue.
    pub fn queue_event(&mut self, ev: Event)
        ensures
            final(self)@ == old(self)@.with_queued(ev),
    {
        self.event_queue.push_back(ev);
    }

    /// Records the update timeout and pops the front of the synthetic
    /// queue, if any: the queue is strictly first-in-first-out.
    pub fn poll_event(&mut self, timeout: Scalar) -> (ev: Option<Event>)
        ensures
            final(self)@ == old(self)@.update_outcome(timeout).0,
            ev == old(self)@.update_outcome(timeout).1,
    {
        self.update_timeout = Some(timeout);
        self.event_queue.pop_front()
    }

    /// Registers a repeating timer under `id`; re-registering an existing
    /// id replaces its period.
    pub fn start_timer(&mut self, id: usize, timeout: Scalar) -> (r: Status)
        ensures
            final(self)@ == old(self)@.with_timer(id, timeout),
            r == Status::Success,
    {
        self.timer_time.insert(id, timeout);
        Status::Success
    }

    /// Cancels the timer registered under `id`.
    ///
    /// Returns `Success` exactly when such a timer was registered, and
    /// then removes it, so a second stop for the same id fails; stopping
    /// an id that was never registered returns `Failure`.
    pub fn stop_timer(&mut self, id: usize) -> (r: Status)
        ensures
            final(self)@ == old(self)@.stop_timer_outcome(id).0,
            r == old(self)@.stop_timer_outcome(id).1,
    {
        let removed = self.timer_time.remove(&id);
        proof {
            if !old(self)@.timer_time.contains_key(id) {
                assert(old(self)@.timer_time.remove(id) =~= old(self)@.timer_time);
            }
        }
        match removed {
            None => Status::Failure,
            Some(_) => Status::Success,
        }
    }

    /// Releases the view handle, recording the release.
    pub fn release_view(&mut self)
        requires
            !old(self)@.release_log.contains(HandleKind::ViewHandle),
        ensures
            final(self)@ == old(self)@.with_view_released(),
    {
        self.release_log.push(HandleKind::ViewHandle);
    }

    /// Releases the world handle, recording the release.
    ///
    /// The world handle owns the view handle's scope, so it may only be
    /// released after the view handle.
    pub fn release_world(&mut self)
        requires
            old(self)@.release_log.contains(HandleKind::ViewHandle),
            !old(self)@.release_log.contains(HandleKind::WorldHandle),
        ensures
            final(self)@ == old(self)@.with_world_released(),
    {
        self.release_log.push(HandleKind::WorldHandle);
    }
}

/// The capability interface for an object owning the state of a UI.
///
/// Application logic implements the required `event` method and whichever
/// of the optional callbacks it needs; the view delivers translated events
/// through these methods.
pub trait PuglViewTrait {
    /// Called for each generic event that is to be processed.
    fn event(&mut self, ev: Event) -> Status;

    /// Called when a part of the view needs to be redrawn due to an
    /// exposure.
    fn exposed(&mut self, _expose: &crate::event::ExposeArea) {
    }

    /// Called when the view has been resized.
    fn resize(&mut self, _size: Size) {
    }

    /// Called when the window system requests that the view be closed.
    fn close_request(&mut self) {
    }

    /// Called when the view receives the focus.
    fn focus_in(&mut self) -> Status {
        Status::Success
    }

    /// Called when the view gives the focus away.
    fn focus_out(&mut self) -> Status {
        Status::Success
    }

    /// Called when a timer started by `start_timer` fires.
    fn timer_event(&mut self, _id: usize) -> Status {
        Status::Success
    }
}

/// A simulated view bound to an application's UI object.
///
/// It owns the simulated backend state and the UI object, and runs the
/// dispatch loop over the synthetic event queue.
pub struct PuglView<T: PuglViewTrait> {
    /// The simulated backend state.
    pub mock: PuglViewMock,
    /// The application's UI object.
    pub ui: T,
}

impl<T: PuglViewTrait> PuglView<T> {
    /// Sets up a new view for the given UI object.
    ///
    /// A fresh view starts in the initial model state with the key-repeat
    /// hint set, as the real backend configures a new native view.
    pub fn new(ui: T) -> (v: PuglView<T>)
        ensures
            v.mock@ == ViewModel::initial().with_ignore_key_repeat(ViewHintBool::True),
            v.ui == ui,
    {
        let mut mock = PuglViewMock::default();
        mock.set_ignore_key_repeats(ViewHintBool::True);
        PuglView { mock, ui }
    }

    /// Borrows the UI object.
    pub fn handle(&mut self) -> (r: &mut T)
        ensures
            *r == old(self).ui,
            *final(self) == (PuglView { mock: old(self).mock, ui: *final(r) }),
    {
        &mut self.ui
    }

    /// Borrows the simulated backend state, for assertions on it.
    pub fn mock_instance(&self) -> (r: &PuglViewMock)
        ensures
            *r == self.mock,
    {
        &self.mock
    }

    /// Appends a synthetic event to the back of the view's queue.
    pub fn queue_event(&mut self, ev: Event)
        ensures
            final(self).mock@ == old(self).mock@.with_queued(ev),
            final(self).ui == old(self).ui,
    {
        self.mock.queue_event(ev);
    }

    /// Forces the frame to the given size and delivers the resize to the
    /// UI object, as a window-system resize would.
    pub fn fake_resize(&mut self, size: Size)
        ensures
            final(self).mock@ == old(self).mock@.with_frame_size(size),
    {
        self.mock.frame.size = size;
        self.ui.resize(size);
    }

    /// Delivers a focus-in to the UI object.
    pub fn fake_focus_in(&mut self)
        ensures
            final(self).mock == old(self).mock,
    {
        self.ui.focus_in();
    }

    /// Delivers a focus-out to the UI object.
    pub fn fake_focus_out(&mut self)
        ensures
            final(self).mock == old(self).mock,
    {
        self.ui.focus_out();
    }

    /// Pumps one iteration of simulated event processing.
    ///
    /// The timeout is recorded; if the synthetic queue is non-empty,
    /// exactly the front event is popped and delivered to the UI object's
    /// generic handler.  Returns `Success` exactly when an event was
    /// processed.
    pub fn update(&mut self, timeout: Scalar) -> (r: Status)
        ensures
            final(self).mock@ == old(self).mock@.update_outcome(timeout).0,
            r == old(self).mock@.update_outcome(timeout).2,
    {
        let ev = self.mock.poll_event(timeout);
        match ev {
            Some(e) => {
                self.ui.event(e);
                Status::Success
            },
            None => Status::Failure,
        }
    }

    /// Destroys the view, releasing the view handle strictly before the
    /// owning world handle, and returns the backend record so the release
    /// order stays observable.
    pub fn destroy(self) -> (m: PuglViewMock)
        requires
            !self.mock@.release_log.contains(HandleKind::ViewHandle),
            !self.mock@.release_log.contains(HandleKind::WorldHandle),
        ensures
            m@ == self.mock@.with_view_released().with_world_released(),
    {
        let ghost orig = self.mock@.release_log;
        let PuglView { mut mock, ui: _ui } = self;
        mock.release_view();
        proof {
            let log = mock@.release_log;
            assert(log[log.len() - 1] == HandleKind::ViewHandle);
            assert(log.contains(HandleKind::ViewHandle));
            assert forall|i: int| 0 <= i < log.len() implies log[i] != HandleKind::WorldHandle by {
                if i < log.len() - 1 {
                    if log[i] == HandleKind::WorldHandle {
                        assert(orig[i] == HandleKind::WorldHandle);
                        assert(orig.contains(HandleKind::WorldHandle));
                    }
                }
            }
            assert(!log.contains(HandleKind::WorldHandle));
        }
        mock.release_world();
        mock
    }
}

/// Realizing with a zero default area always returns `BadConfiguration`
/// and changes nothing, so an invisible view stays invisible.
pub proof fn lemma_realize_zero_size(m: ViewModel)
    requires
        m.default_width as int * m.default_height as int == 0,
    ensures
        m.realize_outcome().1 == Status::BadConfiguration,
        m.realize_outcome().0 == m,
{
    assert(m.default_width == 0 || m.default_height == 0) by (nonlinear_arith)
        requires
            m.default_width as int * m.default_height as int == 0,
    ;
}

/// Showing an unrealized view with a zero default area propagates
/// `BadConfiguration` and leaves the view invisible.
pub proof fn lemma_show_window_unconfigured(m: ViewModel)
    requires
        !m.realized,
        m.default_width as int * m.default_height as int == 0,
    ensures
        m.show_outcome().1 == Status::BadConfiguration,
        m.show_outcome().0 == m,
{
    lemma_realize_zero_size(m);
}

/// Showing an already realized view never re-invokes realization: the
/// whole state, the frame in particular, is kept, and only visibility is
/// set.
pub proof fn lemma_show_window_realized(m: ViewModel)
    requires
        m.realized,
    ensures
        m.show_outcome() == (ViewModel { visible: true, ..m }, Status::Success),
        m.show_outcome().0.frame == m.frame,
{
}

/// Successful realization before show makes the view visible with a frame
/// size equal to the configured default size.
pub proof fn lemma_show_window_realizes(m: ViewModel)
    requires
        !m.realized,
        m.default_width != 0,
        m.default_height != 0,
    ensures
        m.show_outcome().1 == Status::Success,
        m.show_outcome().0.visible,
        m.show_outcome().0.realized,
        m.show_outcome().0.frame.size.w == spec_scalar_of_i32(m.default_width as int),
        m.show_outcome().0.frame.size.h == spec_scalar_of_i32(m.default_height as int),
{
}

/// Configuring a non-zero default size, making the view resizable and
/// showing it yields a resizable view; without the resizable step the
/// shown view is not resizable.
pub proof fn lemma_resizable_after_show(width: i32, height: i32)
    requires
        width != 0,
        height != 0,
    ensures
        ViewModel::initial().with_default_size(width, height).with_resizable()
            .show_outcome().0.resizable,
        ViewModel::initial().with_default_size(width, height).with_resizable()
            .show_outcome().1 == Status::Success,
        !ViewModel::initial().with_default_size(width, height).show_outcome().0.resizable,
{
}

/// The synthetic event queue is strictly first-in-first-out: queuing two
/// events into an empty queue and updating twice delivers them in queuing
/// order, never reversed, and both updates report success.
pub proof fn lemma_queue_fifo(m: ViewModel, a: Event, b: Event, t1: Scalar, t2: Scalar)
    requires
        m.event_queue.len() == 0,
    ensures
        m.with_queued(a).with_queued(b).update_outcome(t1).1 == Some(a),
        m.with_queued(a).with_queued(b).update_outcome(t1).2 == Status::Success,
        m.with_queued(a).with_queued(b).update_outcome(t1).0.update_outcome(t2).1 == Some(b),
        m.with_queued(a).with_queued(b).update_outcome(t1).0.update_outcome(t2).2
            == Status::Success,
        m.with_queued(a).with_queued(b).update_outcome(t1).0.update_outcome(t2).0
            .event_queue.len() == 0,
{
    let q2 = m.event_queue.push(a).push(b);
    assert(q2.len() == 2);
    assert(q2[0] == a);
    assert(q2[1] == b);
    let q1 = q2.subrange(1, 2);
    assert(q1.len() == 1);
    assert(q1[0] == q2[1]);
    let q0 = q1.subrange(1, 1);
    assert(q0.len() == 0);
}

/// Stopping a timer id that was never registered fails and changes
/// nothing.
pub proof fn lemma_stop_timer_unknown(m: ViewModel, id: usize)
    requires
        !m.timer_time.contains_key(id),
    ensures
        m.stop_timer_outcome(id).1 == Status::Failure,
        m.stop_timer_outcome(id).0 == m,
{
}

/// Stopping a registered timer succeeds exactly once: the first stop
/// succeeds and removes the registration, so a second stop for the same
/// id fails.
pub proof fn lemma_stop_timer_once(m: ViewModel, id: usize, period: Scalar)
    ensures
        m.with_timer(id, period).stop_timer_outcome(id).1 == Status::Success,
        m.with_timer(id, period).stop_timer_outcome(id).0.stop_timer_outcome(id).1
            == Status::Failure,
{
    let m1 = m.with_timer(id, period);
    assert(m1.timer_time.contains_key(id));
    let m2 = m1.stop_timer_outcome(id).0;
    assert(!m2.timer_time.contains_key(id));
}

/// Destroying a view releases the view handle strictly before the owning
/// world handle: in the release log of a destroyed view the view handle
/// comes first.
pub proof fn lemma_destroy_releases_view_first(m: ViewModel)
    requires
        m.release_log.len() == 0,
    ensures
        m.with_view_released().with_world_released().release_log.len() == 2,
        m.with_view_released().with_world_released().release_log[0] == HandleKind::ViewHandle,
        m.with_view_released().with_world_released().release_log[1] == HandleKind::WorldHandle,
{
}

} // verus!
