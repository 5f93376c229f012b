//! Tests for the view hints the simulated backend tracks: resizability,
//! key repeats, color depth, buffering and display rates.

use pugl_sys::{Status, ViewHintBool, ViewHintInt};
use pugl_sys::{Event, PuglView, PuglViewTrait};

struct UI;

impl PuglViewTrait for UI {
    fn event(&mut self, _ev: Event) -> Status {
        Status::Success
    }
}

fn make_view() -> PuglView<UI> {
    let mut view = PuglView::new(UI);
    view.mock.set_default_size(42, 23);
    view
}

#[test]
fn unresizable() {
    let view = make_view();
    assert!(!view.mock.is_resizable());
}

#[test]
fn resizable() {
    let mut view = make_view();
    view.mock.make_resizable();
    assert!(view.mock.is_resizable())
}

#[test]
fn resizable_survives_show() {
    let mut view = make_view();
    view.mock.make_resizable();
    assert_eq!(view.mock.show_window(), Status::Success);
    assert!(view.mock.is_resizable());

    let mut plain = make_view();
    assert_eq!(plain.mock.show_window(), Status::Success);
    assert!(!plain.mock.is_resizable());
}

#[test]
fn not_ignore_key_repeat() {
    let mut view = make_view();
    view.mock.set_ignore_key_repeats(ViewHintBool::False);
    assert_eq!(view.mock.is_ignoring_key_repeats(), ViewHintBool::False);
}

#[test]
fn ignore_key_repeat() {
    let view = make_view();
    assert_eq!(view.mock.is_ignoring_key_repeats(), ViewHintBool::True);
}

#[test]
fn red_bits() {
    let view = make_view();
    assert_eq!(view.mock.red_bits(), 8);
}

#[test]
fn green_bits() {
    let view = make_view();
    assert_eq!(view.mock.green_bits(), 8);
}

#[test]
fn blue_bits() {
    let view = make_view();
    assert_eq!(view.mock.blue_bits(), 8);
}

#[test]
fn alpha_bits() {
    let view = make_view();
    assert_eq!(view.mock.alpha_bits(), 8);
}

#[test]
fn depth_bits() {
    let view = make_view();
    assert_eq!(view.mock.depth_bits(), 0);
}

#[test]
fn stencil_bits() {
    let view = make_view();
    assert_eq!(view.mock.stencil_bits(), 0);
}

#[test]
fn samples() {
    let view = make_view();
    assert_eq!(view.mock.samples(), 0);
}

#[test]
fn double_buffer() {
    let mut view = make_view();
    assert_eq!(view.mock.double_buffer(), true);
    view.mock.set_double_buffer(false);
    assert_eq!(view.mock.double_buffer(), false);
}

#[test]
fn swap_interaval() {
    let mut view = make_view();
    assert_eq!(view.mock.swap_interval(), ViewHintInt::DontCare);
    view.mock.set_default_size(42, 23);
    assert_eq!(view.mock.swap_interval(), ViewHintInt::DontCare);
}

#[test]
fn refresh_rate() {
    let mut view = make_view();
    assert_eq!(view.mock.refresh_rate(), ViewHintInt::DontCare);
    view.mock.set_default_size(42, 23);
    view.mock.show_window();
    assert_ne!(view.mock.refresh_rate(), ViewHintInt::DontCare);
}
