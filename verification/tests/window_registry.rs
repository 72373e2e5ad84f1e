use kaku_window::appearance::Appearance;
use kaku_window::registry::WindowRegistry;
use kaku_window::windows::connection::{message_loop_action, Connection, EventHandle, EventError, LoopAction};
use kaku_window::windows::window::{Window, WindowInner};

#[test]
fn registry_hands_out_ids_from_one() {
    let mut r: WindowRegistry<u32> = WindowRegistry::new();
    assert_eq!(r.next_window_id(), 1);
    assert_eq!(r.next_window_id(), 2);
    assert!(r.window_by_id(1).is_none());
    r.register(1, 10);
    r.register(2, 20);
    assert_eq!(r.window_by_id(1), Some(&10));
    assert_eq!(r.window_by_id(2), Some(&20));
    assert!(r.window_by_id(3).is_none());
    r.register(1, 11);
    assert_eq!(r.window_by_id(1), Some(&11));
}

#[test]
fn new_windows_get_fresh_ids_and_are_registered() {
    let mut conn = Connection::create_new();
    let a = Window::new_window(&mut conn);
    let b = Window::new_window(&mut conn);
    assert_eq!(a.window_id(), 1);
    assert_eq!(b.window_id(), 2);
    assert_ne!(a, b);
    a.show();
    a.set_title("kaku");
    a.set_inner_size(80, 24);
    a.invalidate();
    a.close();
    assert_eq!(a.window_id(), 1);
    let inner = conn.window_by_id(1).expect("window 1 is registered");
    assert_eq!(inner.hwnd, 0);
    assert_eq!(inner.hdc, 0);
    let sender = inner.event_sender().expect("the sender is set");
    assert_eq!(sender.window(), Some(&a));
    let inner_b = conn.window_by_id(2).expect("window 2 is registered");
    assert_eq!(inner_b.event_sender().unwrap().window(), Some(&b));
    assert!(conn.window_by_id(3).is_none());
    assert_eq!(conn.next_window_id(), 3);
}

#[test]
fn registering_keeps_other_windows() {
    let mut conn = Connection::create_new();
    let a = Window::new_window(&mut conn);
    let mut replacement = WindowInner::new();
    replacement.hwnd = 77;
    conn.register_window(5, replacement);
    assert_eq!(conn.window_by_id(5).unwrap().hwnd, 77);
    assert_eq!(conn.window_by_id(a.window_id()).unwrap().event_sender().unwrap().window(), Some(&a));
}

#[test]
fn message_loop_stops_on_quit_and_error() {
    assert_eq!(message_loop_action(0), LoopAction::Quit);
    assert_eq!(message_loop_action(-1), LoopAction::Fail);
    assert_eq!(message_loop_action(1), LoopAction::Dispatch);
    assert_eq!(message_loop_action(-2), LoopAction::Dispatch);
}

#[test]
fn terminate_stops_the_loop() {
    let mut conn = Connection::create_new();
    assert!(!conn.keep_running());
    conn.begin_message_loop();
    assert!(conn.keep_running());
    conn.terminate_message_loop();
    assert!(!conn.keep_running());
    assert_eq!(conn.name(), "Windows");
    assert_eq!(conn.get_appearance(), Appearance::Light);
}

#[test]
fn win32_event_handle_needs_a_handle() {
    assert_eq!(EventHandle::new_manual_reset(0).err(), Some(EventError::CreateFailed));
    assert_eq!(EventError::CreateFailed.message(), "Failed to create event handle");
    let e = EventHandle::new_manual_reset(0x1234).ok().unwrap();
    assert_eq!(e.handle(), 0x1234);
    assert!(e.needs_close());
    assert!(e.wait(0));
    assert!(!e.wait(0x102));
    assert!(!e.wait(0xFFFF_FFFF));
}

#[test]
fn linux_connection_registry() {
    let spawn_runs = std::cell::Cell::new(0);
    let mut conn: kaku_window::linux::connection::Connection<String, u8> =
        kaku_window::linux::connection::Connection::create_new(|| spawn_runs.set(spawn_runs.get() + 1));
    assert_eq!(spawn_runs.get(), 1);
    assert!(conn.gl_connection().is_none());
    conn.set_gl_connection(Some(std::rc::Rc::new(7u8)));
    assert_eq!(conn.gl_connection().map(|g| **g), Some(7));
    let id = conn.next_window_id();
    assert_eq!(id, 1);
    conn.register_window(id, "first".to_string());
    assert_eq!(conn.window_by_id(1).map(|s| s.as_str()), Some("first"));
    assert!(conn.window_by_id(2).is_none());
    assert_eq!(conn.name(), "Linux (stub)");
    conn.begin_message_loop();
    assert!(conn.keep_running());
    conn.terminate_message_loop();
    assert!(!conn.keep_running());
    assert_eq!(conn.get_appearance(), Appearance::Light);
}
