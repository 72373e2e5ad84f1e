use kaku_window::toast::{notification_log_line, ToastNotification};
use kaku_window::windows::clipboard::{Clipboard, ClipboardError};
use kaku_window::windows::menu::{MenuItem, RepresentedItem};

#[test]
fn windows_clipboard_always_fails() {
    let c = Clipboard::new();
    assert_eq!(c.read().err(), Some(ClipboardError::NotImplemented));
    assert!(c.read_data().is_err());
    assert_eq!(c.write("x".to_string()), Err(ClipboardError::NotImplemented));
    assert_eq!(c.write_files(&[std::path::PathBuf::from("/tmp/a")]), Err(ClipboardError::NotImplemented));
    assert_eq!(ClipboardError::NotImplemented.message(), "Clipboard not implemented on Windows stub");
    let d = Clipboard::default();
    assert!(d.read().is_err());
}

#[test]
fn linux_clipboard_is_empty_and_accepts() {
    let mut c = kaku_window::linux::clipboard::Clipboard::new();
    assert_eq!(c.set("hello"), Ok(()));
    assert_eq!(c.get(), Ok(String::new()));
}

#[test]
fn event_handles_signal_until_reset() {
    let mut e = kaku_window::windows::event::EventHandle::new_manual_reset().unwrap();
    assert!(!e.is_signaled());
    e.set_event();
    assert!(e.is_signaled());
    e.set_event();
    assert!(e.is_signaled());
    e.reset_event();
    assert!(!e.is_signaled());
    let mut l = kaku_window::linux::event::EventHandle::new_manual_reset().unwrap();
    assert!(!l.is_signaled());
    l.set_event();
    assert!(l.is_signaled());
    l.reset_event();
    assert!(!l.is_signaled());
}

#[test]
fn menu_items_keep_id_and_label() {
    let item = MenuItem::new("copy", "Copy");
    assert_eq!(item.id, "copy");
    assert_eq!(item.label, "Copy");
    assert!(matches!(RepresentedItem::Nothing, RepresentedItem::Nothing));
}

#[test]
fn notifications_are_logged_and_succeed() {
    let toast = ToastNotification { title: "Build".to_string(), message: "done".to_string(), url: None };
    assert_eq!(notification_log_line(&toast), "Toast notification: Build - done");
    assert!(kaku_window::toast::linux::show_notif(toast).is_ok());
    let toast = ToastNotification { title: String::new(), message: String::new(), url: Some("u".to_string()) };
    assert_eq!(notification_log_line(&toast), "Toast notification:  - ");
    assert!(kaku_window::toast::windows::show_notif(toast).is_ok());
    kaku_window::toast::linux::initialize();
    kaku_window::toast::windows::initialize();
}

#[test]
fn platform_queries() {
    assert!(!kaku_window::windows::is_running_in_rdp_session());
    assert!(!kaku_window::windows::utils::is_running_in_rdp_session());
    assert!(kaku_window::windows::rdp_session_from_metric(1));
    assert!(!kaku_window::windows::rdp_session_from_metric(0));
    assert!(!kaku_window::windows::app::is_system_sleeping());
    kaku_window::windows::app::request_app_termination((), Some("bye"));
    kaku_window::windows::app::flush_pending_service_opens();
    kaku_window::windows::app::sync_global_hotkey_registration();
    kaku_window::linux::init();
}
