use tray_valet::background_window::POLL_TIMER_ID;
use tray_valet::foreign_process_tree::{
    ForeignProcessTree, ForeignWindowEvent, TopLevelWindow, TrackedWindow, TrackerError,
    TrackerPhase,
};
use tray_valet::process_set::ProcessEntry;
use tray_valet::win_event_hook::{
    WinEvent, EVENT_OBJECT_CREATE, EVENT_OBJECT_DESTROY, EVENT_OBJECT_NAMECHANGE,
    EVENT_OBJECT_SHOW, EVENT_SYSTEM_MINIMIZESTART,
};

const CLASS: &str = "Notepad";

fn utf16(s: &str) -> Vec<u16> {
    s.encode_utf16().collect()
}

fn window(hwnd: isize, process_id: u32, thread_id: u32, visible: bool, class: &str) -> TopLevelWindow {
    TopLevelWindow { hwnd, process_id, thread_id, visible, class_name: utf16(class) }
}

fn event(event_id: u32, hwnd: isize) -> WinEvent {
    WinEvent { event_id, hwnd, object_id: 0, child_id: 0, thread_id: 0, time_millis: 0 }
}

fn waiting_tracker() -> ForeignProcessTree {
    ForeignProcessTree::new(10, CLASS.to_string(), &vec![])
}

fn found_tracker() -> ForeignProcessTree {
    let mut t = ForeignProcessTree::new(10, CLASS.to_string(), &vec![window(7, 10, 70, true, CLASS)]);
    assert_eq!(t.finish_discovery(true), Ok(ForeignWindowEvent::Found));
    t
}

#[test]
fn window_of_root_found_at_launch() {
    let windows = vec![
        window(5, 10, 50, false, CLASS),
        window(6, 10, 60, true, "Other"),
        window(7, 10, 70, true, CLASS),
        window(8, 10, 80, true, CLASS),
    ];
    let t = ForeignProcessTree::new(10, CLASS.to_string(), &windows);
    assert_eq!(t.phase(), TrackerPhase::Binding);
    assert!(!t.polling());
    let target = TrackedWindow { hwnd: 7, process_id: 10, thread_id: 70 };
    assert_eq!(t.binding_target(), Some(target));
}

#[test]
fn without_window_at_launch_polling_starts() {
    let t = ForeignProcessTree::new(10, CLASS.to_string(), &vec![window(7, 11, 70, true, CLASS)]);
    assert_eq!(t.phase(), TrackerPhase::WaitingForProcess);
    assert!(t.polling());
    assert_eq!(t.binding_target(), None);
    assert_eq!(t.known_process_ids(), vec![10]);
}

#[test]
fn class_name_must_match_exactly() {
    let t = ForeignProcessTree::new(10, CLASS.to_string(), &vec![window(7, 10, 70, true, "notepad")]);
    assert_eq!(t.phase(), TrackerPhase::WaitingForProcess);
}

#[test]
fn other_timer_is_not_handled() {
    let mut t = waiting_tracker();
    assert!(t.handle_timer_window_msg(1, &vec![], &vec![], 0).is_none());
    assert!(t.polling());
}

#[test]
fn poll_finds_window_of_new_child() {
    let mut t = waiting_tracker();
    let snapshot = vec![ProcessEntry { process_id: 11, parent_process_id: 10 }];
    let windows = vec![window(7, 11, 70, true, CLASS)];
    let out = t.handle_timer_window_msg(POLL_TIMER_ID, &snapshot, &windows, 300).unwrap();
    assert_eq!(out.new_process_ids, vec![11]);
    assert_eq!(out.error, None);
    assert!(out.stop_timer);
    assert_eq!(t.phase(), TrackerPhase::Binding);
    assert_eq!(t.binding_target(), Some(TrackedWindow { hwnd: 7, process_id: 11, thread_id: 70 }));
    assert_eq!(t.finish_discovery(true), Ok(ForeignWindowEvent::Found));
    assert_eq!(t.phase(), TrackerPhase::WindowFound);
}

#[test]
fn poll_without_match_keeps_polling_before_timeout() {
    let mut t = waiting_tracker();
    let snapshot = vec![ProcessEntry { process_id: 11, parent_process_id: 10 }];
    let out = t.handle_timer_window_msg(POLL_TIMER_ID, &snapshot, &vec![], 2000).unwrap();
    assert_eq!(out.new_process_ids, vec![11]);
    assert_eq!(out.error, None);
    assert!(!out.stop_timer);
    assert!(t.polling());
    assert_eq!(t.known_process_ids(), vec![10, 11]);
}

#[test]
fn timeout_reported_once_after_two_seconds() {
    let mut t = waiting_tracker();
    for elapsed in [0u64, 100, 1999, 2000] {
        let out = t.handle_timer_window_msg(POLL_TIMER_ID, &vec![], &vec![], elapsed).unwrap();
        assert_eq!(out.error, None);
        assert!(!out.stop_timer);
    }
    let out = t.handle_timer_window_msg(POLL_TIMER_ID, &vec![], &vec![], 2001).unwrap();
    assert_eq!(out.error, Some(TrackerError::DiscoveryTimeout));
    assert!(out.stop_timer);
    assert_eq!(t.phase(), TrackerPhase::Failed);
    let later = t.handle_timer_window_msg(POLL_TIMER_ID, &vec![], &vec![], 5000).unwrap();
    assert_eq!(later.error, None);
    assert!(!later.stop_timer);
    assert!(later.new_process_ids.is_empty());
}

#[test]
fn create_then_show_discovers_window() {
    let mut t = waiting_tracker();
    let class = utf16(CLASS);
    assert_eq!(
        t.translate_win_event(event(EVENT_OBJECT_CREATE, 7), &class, 11, 70),
        Some(ForeignWindowEvent::Internal)
    );
    assert_eq!(t.phase(), TrackerPhase::WaitingForProcess);
    assert_eq!(
        t.translate_win_event(event(EVENT_OBJECT_SHOW, 7), &class, 11, 70),
        Some(ForeignWindowEvent::Internal)
    );
    assert_eq!(t.phase(), TrackerPhase::Binding);
    assert!(!t.polling());
    assert_eq!(t.binding_target(), Some(TrackedWindow { hwnd: 7, process_id: 11, thread_id: 70 }));
}

#[test]
fn create_of_other_class_announces_nothing() {
    let mut t = waiting_tracker();
    let other = utf16("Other");
    assert_eq!(
        t.translate_win_event(event(EVENT_OBJECT_CREATE, 7), &other, 11, 70),
        Some(ForeignWindowEvent::Internal)
    );
    assert_eq!(t.translate_win_event(event(EVENT_OBJECT_SHOW, 7), &other, 11, 70), None);
    assert_eq!(t.phase(), TrackerPhase::WaitingForProcess);
}

#[test]
fn create_with_unreadable_thread_announces_nothing() {
    let mut t = waiting_tracker();
    let class = utf16(CLASS);
    t.translate_win_event(event(EVENT_OBJECT_CREATE, 7), &class, 11, 0);
    assert_eq!(t.translate_win_event(event(EVENT_OBJECT_SHOW, 7), &class, 11, 0), None);
    assert_eq!(t.phase(), TrackerPhase::WaitingForProcess);
}

#[test]
fn poll_and_event_in_same_tick_discover_once() {
    let class = utf16(CLASS);
    let snapshot = vec![ProcessEntry { process_id: 11, parent_process_id: 10 }];
    let windows = vec![window(7, 11, 70, true, CLASS)];

    // Event first.
    let mut t = waiting_tracker();
    t.translate_win_event(event(EVENT_OBJECT_CREATE, 7), &class, 11, 70);
    t.translate_win_event(event(EVENT_OBJECT_SHOW, 7), &class, 11, 70);
    assert_eq!(t.phase(), TrackerPhase::Binding);
    let out = t.handle_timer_window_msg(POLL_TIMER_ID, &snapshot, &windows, 100).unwrap();
    assert!(!out.stop_timer);
    assert!(out.new_process_ids.is_empty());
    assert_eq!(t.phase(), TrackerPhase::Binding);

    // Poll first.
    let mut t = waiting_tracker();
    t.translate_win_event(event(EVENT_OBJECT_CREATE, 7), &class, 11, 70);
    let out = t.handle_timer_window_msg(POLL_TIMER_ID, &snapshot, &windows, 100).unwrap();
    assert!(out.stop_timer);
    assert_eq!(t.phase(), TrackerPhase::Binding);
    assert_eq!(t.translate_win_event(event(EVENT_OBJECT_SHOW, 7), &class, 11, 70), None);
    assert_eq!(t.phase(), TrackerPhase::Binding);
}

#[test]
fn failed_narrow_scope_reports_setup_error() {
    let mut t = ForeignProcessTree::new(10, CLASS.to_string(), &vec![window(7, 10, 70, true, CLASS)]);
    assert_eq!(t.finish_discovery(false), Err(TrackerError::MonitoringSetupFailed));
    assert_eq!(t.phase(), TrackerPhase::Failed);
    assert_eq!(t.target(), None);
}

#[test]
fn tracked_window_events_are_translated() {
    let mut t = found_tracker();
    let none: Vec<u16> = vec![];
    assert_eq!(
        t.translate_win_event(event(EVENT_SYSTEM_MINIMIZESTART, 7), &none, 0, 0),
        Some(ForeignWindowEvent::Minimized)
    );
    assert_eq!(
        t.translate_win_event(event(EVENT_OBJECT_NAMECHANGE, 7), &none, 0, 0),
        Some(ForeignWindowEvent::TitleChanged)
    );
    let mut part = event(EVENT_OBJECT_NAMECHANGE, 7);
    part.child_id = 3;
    assert_eq!(t.translate_win_event(part, &none, 0, 0), None);
    assert_eq!(t.translate_win_event(event(EVENT_OBJECT_NAMECHANGE, 8), &none, 0, 0), None);
    assert_eq!(t.translate_win_event(event(0x8005, 7), &none, 0, 0), None);
    assert_eq!(t.phase(), TrackerPhase::WindowFound);
}

#[test]
fn destroy_ends_tracking_once() {
    let mut t = found_tracker();
    let none: Vec<u16> = vec![];
    assert_eq!(
        t.translate_win_event(event(EVENT_OBJECT_DESTROY, 7), &none, 0, 0),
        Some(ForeignWindowEvent::Destroyed)
    );
    assert_eq!(t.phase(), TrackerPhase::Destroyed);
    assert_eq!(t.target(), None);
    assert_eq!(t.translate_win_event(event(EVENT_OBJECT_DESTROY, 7), &none, 0, 0), None);
    assert_eq!(t.translate_win_event(event(EVENT_OBJECT_NAMECHANGE, 7), &none, 0, 0), None);
    assert_eq!(t.close_window(), None);
}

#[test]
fn close_and_icons_go_to_tracked_window() {
    let t = found_tracker();
    assert_eq!(t.close_window(), Some(7));
    assert_eq!(t.set_icon(100, 200), vec![(0, 100), (1, 200)]);
    assert!(waiting_tracker().set_icon(100, 200).is_empty());
}

#[test]
fn exe_path_is_cached_once() {
    let mut t = found_tracker();
    assert_eq!(t.window_exe_path(), None);
    t.set_window_exe_path("C:\\a.exe".to_string());
    t.set_window_exe_path("C:\\b.exe".to_string());
    assert_eq!(t.window_exe_path(), Some("C:\\a.exe".to_string()));
}
