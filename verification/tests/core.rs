use native_activity::android::{Action, App};
use native_activity::gl::{context_major_version, framebuffer_request};
use native_activity::looper::{Looper, LOOPER_ID_EVENT};
use native_activity::native::ARect;
use native_activity::paint::{plan_frame, scene_color, scene_rect};
use native_activity::window::{row_bytes, Window};

#[test]
fn window_create_records_handle_and_dimensions() {
    let w = Window::create(0x1000, 1080, 1920);
    assert_eq!(w.handle, 0x1000);
    assert_eq!(w.width, 1080);
    assert_eq!(w.height, 1920);
}

#[test]
fn window_same_compares_handles() {
    let w = Window::create(0x1000, 1080, 1920);
    assert!(w.same(0x1000));
    assert!(!w.same(0x2000));
}

#[test]
fn window_resize_keeps_the_handle() {
    let mut w = Window::create(0x1000, 1080, 1920);
    w.resize(1920, 1080);
    assert_eq!(w.width, 1920);
    assert_eq!(w.height, 1080);
    assert_eq!(w.handle, 0x1000);
}

#[test]
fn buffer_len_is_thirty_two_bytes_per_pixel() {
    let w = Window::create(1, 100, 50);
    assert_eq!(w.buffer_len(), 160_000);
}

#[test]
fn buffer_len_of_an_empty_window_is_zero() {
    let w = Window::create(1, 0, 0);
    assert_eq!(w.buffer_len(), 0);
}

#[test]
fn row_bytes_is_four_bytes_per_pixel() {
    assert_eq!(row_bytes(1080), 4320);
    assert_eq!(row_bytes(0), 0);
}

#[test]
fn the_scene_is_one_red_rectangle() {
    let r = scene_rect();
    assert_eq!(
        r,
        ARect { left: 300, top: 500, right: 700, bottom: 1000 }
    );
    let c = scene_color();
    assert_eq!(c.red, 255);
    assert_eq!(c.green, 0);
    assert_eq!(c.blue, 0);
    assert_eq!(c.alpha, 255);
}

#[test]
fn plan_frame_covers_window_and_scene() {
    let w = Window::create(9, 1080, 1920);
    let p = plan_frame(&w, 1088);
    assert_eq!(p.byte_len, 66_355_200);
    assert_eq!(p.row_bytes, 4352);
    assert_eq!(
        p.rect,
        ARect { left: 300, top: 500, right: 700, bottom: 1000 }
    );
    assert_eq!(p.color.red, 255);
    assert_eq!(p.color.green, 0);
    assert_eq!(p.color.blue, 0);
    assert_eq!(p.color.alpha, 255);
}

#[test]
fn init_starts_without_a_window() {
    let app = App::init(Looper::create(7));
    assert!(app.window.is_none());
}

#[test]
fn the_first_resize_brings_up_a_surface() {
    let mut app = App::init(Looper::create(7));
    let a = app.window_resized(0x2000, 640, 480);
    assert!(matches!(a, Action::CreateSurface { window: 0x2000 }));
    let w = app.window.as_ref().expect("a window was recorded");
    assert_eq!(w.handle, 0x2000);
    assert_eq!(w.width, 640);
    assert_eq!(w.height, 480);
}

#[test]
fn later_resizes_change_nothing() {
    let mut app = App::init(Looper::create(7));
    app.window_resized(0x2000, 640, 480);
    let a = app.window_resized(0x3000, 800, 600);
    assert!(matches!(a, Action::Nothing));
    let w = app.window.as_ref().expect("the first window is kept");
    assert_eq!(w.handle, 0x2000);
    assert_eq!(w.width, 640);
    assert_eq!(w.height, 480);
}

#[test]
fn redraw_paints_the_stored_window() {
    let mut app = App::init(Looper::create(7));
    app.window_resized(0x2000, 640, 480);
    let a = app.window_redraw();
    assert!(matches!(a, Action::Paint { window: 0x2000 }));
}

#[test]
fn a_queue_is_attached_under_the_event_ident() {
    let looper = Looper::create(0x3000);
    let a = looper.bind_queue(0x4000);
    assert_eq!(a.queue, 0x4000);
    assert_eq!(a.looper, 0x3000);
    assert_eq!(a.ident, LOOPER_ID_EVENT);
    assert_eq!(LOOPER_ID_EVENT, 1);
}

#[test]
fn the_gl_request_is_triple_eight_and_es_three() {
    let c = framebuffer_request();
    assert_eq!(c.red_bits, 8);
    assert_eq!(c.green_bits, 8);
    assert_eq!(c.blue_bits, 8);
    assert_eq!(context_major_version(), 3);
}
