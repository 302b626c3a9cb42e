use tray_valet::foreign_process_tree::{ForeignProcessTree, TopLevelWindow};
use tray_valet::window_ops::{
    show_command_for, title_from_query, ExePathQuery, PathStep, ShowCommand, TitleError,
    TitleQuery, WindowPlacement, ERROR_INSUFFICIENT_BUFFER, MAX_PATH,
};

fn utf16(s: &str) -> Vec<u16> {
    s.encode_utf16().collect()
}

fn found_tracker() -> ForeignProcessTree {
    let w = TopLevelWindow { hwnd: 7, process_id: 10, thread_id: 70, visible: true, class_name: utf16("C") };
    let mut t = ForeignProcessTree::new(10, "C".to_string(), &vec![w]);
    t.finish_discovery(true).unwrap();
    t
}

fn query_of(title: &str) -> TitleQuery {
    let mut buffer = utf16(title);
    let length = buffer.len();
    buffer.push(0);
    TitleQuery { length, length_error: 0, buffer, copied: length, copy_error: 0 }
}

fn visible_after(command: Option<ShowCommand>, before: bool) -> bool {
    match command {
        None => before,
        Some(ShowCommand::Hide) => false,
        Some(_) => true,
    }
}

const NORMAL: WindowPlacement = WindowPlacement { show_cmd: 1, flags: 0 };

#[test]
fn title_round_trip() {
    let t = found_tracker();
    assert_eq!(t.window_title(&query_of("Build 42")), Ok("Build 42".to_string()));
}

#[test]
fn empty_title_differs_from_failure() {
    let t = found_tracker();
    let empty = TitleQuery { length: 0, length_error: 0, buffer: vec![0], copied: 0, copy_error: 0 };
    assert_eq!(t.window_title(&empty), Ok(String::new()));
    let failed = TitleQuery { length: 0, length_error: 1400, buffer: vec![0], copied: 0, copy_error: 0 };
    assert_eq!(t.window_title(&failed), Err(TitleError::Os(1400)));
}

#[test]
fn short_copy_is_a_failure() {
    let mut q = query_of("Build 42");
    q.copied = 3;
    q.copy_error = 5;
    assert_eq!(title_from_query(&q), Err(TitleError::Os(5)));
}

#[test]
fn title_without_window_is_invalid_handle() {
    let t = ForeignProcessTree::new(10, "C".to_string(), &vec![]);
    let r = t.window_title(&query_of("x"));
    assert_eq!(r, Err(TitleError::InvalidWindowHandle));
    assert_eq!(r.unwrap_err().code(), 1400);
}

#[test]
fn title_decodes_non_ascii() {
    assert_eq!(title_from_query(&query_of("Grüße – 日本")), Ok("Grüße – 日本".to_string()));
}

#[test]
fn show_on_visible_window_does_nothing() {
    let t = found_tracker();
    assert_eq!(t.set_window_visible(true, true, NORMAL), None);
    assert_eq!(t.set_window_visible(false, false, NORMAL), None);
}

#[test]
fn toggle_twice_restores_visibility() {
    let t = found_tracker();
    for start in [true, false] {
        let first = t.toggle_window_visible(start, NORMAL);
        let middle = visible_after(first, start);
        assert_eq!(middle, !start);
        let second = t.toggle_window_visible(middle, NORMAL);
        assert_eq!(visible_after(second, middle), start);
    }
}

#[test]
fn show_command_follows_placement() {
    assert_eq!(show_command_for(false, true, NORMAL), Some(ShowCommand::Hide));
    assert_eq!(show_command_for(true, false, NORMAL), Some(ShowCommand::Show));
    let minimized = WindowPlacement { show_cmd: 2, flags: 0 };
    assert_eq!(show_command_for(true, false, minimized), Some(ShowCommand::Restore));
    let minimized_max = WindowPlacement { show_cmd: 2, flags: 2 };
    assert_eq!(show_command_for(true, false, minimized_max), Some(ShowCommand::ShowMaximized));
    assert_eq!(show_command_for(true, false, WindowPlacement::default()), Some(ShowCommand::Show));
    assert_eq!(ShowCommand::Hide.code(), 0);
    assert_eq!(ShowCommand::Show.code(), 5);
    assert_eq!(ShowCommand::Restore.code(), 9);
    assert_eq!(ShowCommand::ShowMaximized.code(), 3);
}

#[test]
fn no_window_no_show_command() {
    let t = ForeignProcessTree::new(10, "C".to_string(), &vec![]);
    assert_eq!(t.toggle_window_visible(false, NORMAL), None);
    assert!(!t.window_visible(true));
    assert!(found_tracker().window_visible(true));
}

#[test]
fn exe_path_query_doubles_then_fails() {
    let mut q = ExePathQuery::new();
    assert_eq!(q.capacity(), MAX_PATH);
    let mut expected = MAX_PATH;
    for _ in 0..7 {
        expected *= 2;
        assert_eq!(q.record(ERROR_INSUFFICIENT_BUFFER), PathStep::Retry(expected));
        assert_eq!(q.capacity(), expected);
    }
    assert_eq!(q.capacity(), 33280);
    assert_eq!(q.record(ERROR_INSUFFICIENT_BUFFER), PathStep::Fail(ERROR_INSUFFICIENT_BUFFER));
}

#[test]
fn exe_path_query_success_and_other_errors() {
    let mut q = ExePathQuery::new();
    assert_eq!(q.record(ERROR_INSUFFICIENT_BUFFER), PathStep::Retry(520));
    assert_eq!(q.record(0), PathStep::Done);
    let mut q = ExePathQuery::new();
    assert_eq!(q.record(5), PathStep::Fail(5));
    assert_eq!(q.capacity(), MAX_PATH);
}
