use vk_engine::window::{EventAction, Window, WindowEventKind};

type TestWindow = Window<u32, &'static str, &'static str, u8>;

#[test]
fn new_window_holds_only_the_event_loop() {
    let w: TestWindow = Window::new(7);
    assert_eq!(w.get_window(), None);
    assert_eq!(w.get_eventloop(), Some(&7));
    assert_eq!(w.redraw_callback(), None);
    assert_eq!(w.resize_callback(), None);
    assert_eq!(w.about_to_wait(), None);
}

#[test]
fn take_eventloop_empties_it() {
    let mut w: TestWindow = Window::new(9);
    assert_eq!(w.take_eventloop(), 9);
    assert_eq!(w.get_eventloop(), None);
}

#[test]
fn callbacks_are_registered_and_replaced() {
    let mut w: TestWindow = Window::new(0);
    w.set_redraw_callback("draw1");
    w.set_redraw_callback("draw2");
    w.set_resize_callback("resize");
    assert_eq!(w.redraw_callback(), Some(&"draw2"));
    assert_eq!(w.resize_callback(), Some(&"resize"));
}

#[test]
fn first_redraw_after_resume_resizes_once() {
    let mut w: TestWindow = Window::new(0);
    w.set_redraw_callback("draw");
    w.set_resize_callback("resize");
    w.resumed(42);
    assert_eq!(w.get_window(), Some(42));
    assert_eq!(w.about_to_wait(), Some(&42));
    assert_eq!(w.window_event(WindowEventKind::RedrawRequested), EventAction::Redraw { resize: true, redraw: true });
    assert_eq!(w.window_event(WindowEventKind::RedrawRequested), EventAction::Redraw { resize: false, redraw: true });
}

#[test]
fn resize_is_deferred_to_next_redraw() {
    let mut w: TestWindow = Window::new(0);
    w.set_resize_callback("resize");
    w.resumed(1);
    assert_eq!(w.window_event(WindowEventKind::RedrawRequested), EventAction::Redraw { resize: true, redraw: false });
    assert_eq!(w.window_event(WindowEventKind::Resized), EventAction::Ignore);
    assert_eq!(w.window_event(WindowEventKind::Resized), EventAction::Ignore);
    assert_eq!(w.window_event(WindowEventKind::RedrawRequested), EventAction::Redraw { resize: true, redraw: false });
    assert_eq!(w.window_event(WindowEventKind::RedrawRequested), EventAction::Redraw { resize: false, redraw: false });
}

#[test]
fn resize_waits_for_callback() {
    let mut w: TestWindow = Window::new(0);
    w.resumed(1);
    assert_eq!(w.window_event(WindowEventKind::RedrawRequested), EventAction::Redraw { resize: false, redraw: false });
    w.set_resize_callback("resize");
    assert_eq!(w.window_event(WindowEventKind::RedrawRequested), EventAction::Redraw { resize: true, redraw: false });
}

#[test]
fn resize_waits_for_window() {
    let mut w: TestWindow = Window::new(0);
    w.set_resize_callback("resize");
    assert_eq!(w.window_event(WindowEventKind::Resized), EventAction::Ignore);
    assert_eq!(w.window_event(WindowEventKind::RedrawRequested), EventAction::Redraw { resize: false, redraw: false });
    w.resumed(3);
    assert_eq!(w.window_event(WindowEventKind::RedrawRequested), EventAction::Redraw { resize: true, redraw: false });
}

#[test]
fn close_and_other_events() {
    let mut w: TestWindow = Window::new(0);
    w.set_resize_callback("resize");
    w.resumed(1);
    assert_eq!(w.window_event(WindowEventKind::CloseRequested), EventAction::Exit);
    assert_eq!(w.window_event(WindowEventKind::Other), EventAction::Ignore);
    // the pending resize survives both
    assert_eq!(w.window_event(WindowEventKind::RedrawRequested), EventAction::Redraw { resize: true, redraw: false });
}
