use fairy::frame::{Action, FrameLoop, Key, WindowEvent};

#[test]
fn escape_press_closes() {
    let mut frame = FrameLoop::new();
    frame.dispatch_all(&vec![WindowEvent::Key(Key::Escape, 9, Action::Press, 0)]);
    assert!(frame.should_close());
    assert!(!frame.is_running());
}

#[test]
fn other_key_press_keeps_running() {
    let mut frame = FrameLoop::new();
    frame.dispatch_all(&vec![WindowEvent::Key(Key::Other(65), 38, Action::Press, 0)]);
    assert!(!frame.should_close());
    assert!(frame.is_running());
}

#[test]
fn escape_release_and_repeat_are_ignored() {
    let mut frame = FrameLoop::new();
    frame.dispatch(&WindowEvent::Key(Key::Escape, 9, Action::Release, 0));
    frame.dispatch(&WindowEvent::Key(Key::Escape, 9, Action::Repeat, 0));
    frame.dispatch(&WindowEvent::Other);
    assert!(!frame.should_close());
}

#[test]
fn close_event_closes() {
    let mut frame = FrameLoop::new();
    frame.dispatch(&WindowEvent::Close);
    assert!(frame.should_close());
}

#[test]
fn close_flag_stays_set() {
    let mut frame = FrameLoop::new();
    frame.dispatch_all(&vec![WindowEvent::Other, WindowEvent::Close, WindowEvent::Other]);
    assert!(frame.should_close());
    frame.dispatch_all(&vec![
        WindowEvent::Key(Key::Other(65), 38, Action::Press, 0),
        WindowEvent::Key(Key::Escape, 9, Action::Release, 0),
    ]);
    assert!(frame.should_close());
    frame.dispatch_all(&Vec::new());
    assert!(frame.should_close());
}

#[test]
fn empty_frame_keeps_running() {
    let mut frame = FrameLoop::new();
    frame.dispatch_all(&Vec::new());
    assert!(frame.is_running());
}
