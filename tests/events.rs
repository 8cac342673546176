use tracer::events::{is_quit_request, EventHandler, InputEvent, Key};
use tracer::frame::{FrameAction, LoopState, HEIGHT, WIDTH};

#[test]
fn handler_starts_without_quit() {
    assert!(!EventHandler::new().quit);
}

#[test]
fn quit_and_escape_request_quit() {
    assert!(is_quit_request(&InputEvent::Quit));
    assert!(is_quit_request(&InputEvent::KeyDown(Some(Key::Escape))));
    assert!(!is_quit_request(&InputEvent::KeyDown(Some(Key::Other))));
    assert!(!is_quit_request(&InputEvent::KeyDown(None)));
    assert!(!is_quit_request(&InputEvent::Other));
}

#[test]
fn process_sets_quit_on_any_request() {
    let mut h = EventHandler::new();
    h.process(&vec![InputEvent::Other, InputEvent::KeyDown(Some(Key::Other))]);
    assert!(!h.quit);
    h.process(&vec![InputEvent::Other, InputEvent::KeyDown(Some(Key::Escape)), InputEvent::Other]);
    assert!(h.quit);
}

#[test]
fn quit_flag_is_sticky() {
    let mut h = EventHandler::new();
    h.process(&vec![InputEvent::Quit]);
    h.process(&vec![]);
    h.process(&vec![InputEvent::Other]);
    assert!(h.quit);
}

#[test]
fn empty_batch_changes_nothing() {
    let mut h = EventHandler::new();
    h.process(&vec![]);
    assert!(!h.quit);
}

#[test]
fn running_loop_renders_until_quit() {
    assert_eq!(LoopState::Running.step(false), (LoopState::Running, FrameAction::Render));
    assert_eq!(LoopState::Running.step(true), (LoopState::Stopped, FrameAction::Exit));
}

#[test]
fn stopped_loop_stays_stopped() {
    assert_eq!(LoopState::Stopped.step(false), (LoopState::Stopped, FrameAction::Exit));
    assert_eq!(LoopState::Stopped.step(true), (LoopState::Stopped, FrameAction::Exit));
}

#[test]
fn raster_size() {
    assert_eq!((WIDTH, HEIGHT), (200, 200));
}
