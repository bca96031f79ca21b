use nonstd::drag_drop::{query_continue_drag, DragVerdict};
use nonstd::shell::{execute, extract_app_user_model_id, is_uwp};
use nonstd::util::{file_uri, find_char, prefixed};
use nonstd::webview2::drop_handler;

#[test]
fn first_occurrence_of_a_character() {
    assert_eq!(find_char("a{b{c", '{'), Some(1));
    assert_eq!(find_char("{", '{'), Some(0));
    assert_eq!(find_char("abc", '{'), None);
    assert_eq!(find_char("", '{'), None);
    assert_eq!(find_char("äö?", '?'), Some(2));
}

#[test]
fn uri_of_a_local_file() {
    assert_eq!(file_uri("/home/a b.txt"), "file:///home/a b.txt");
    assert_eq!(file_uri(""), "file://");
}

#[test]
fn short_path_stays_as_it_is() {
    assert_eq!(prefixed("C:\\a.txt"), "C:\\a.txt");
    assert_eq!(prefixed("\\\\server\\share"), "\\\\server\\share");
    assert_eq!(prefixed(""), "");
    let just_short = format!("C:\\{}", "a".repeat(256));
    assert_eq!(just_short.len(), 259);
    assert_eq!(prefixed(&just_short), just_short);
}

#[test]
fn long_path_gets_the_prefix() {
    let long = format!("C:\\{}", "a".repeat(257));
    assert_eq!(long.len(), 260);
    assert_eq!(prefixed(&long), format!("\\\\?\\{}", long));
    let network = format!("\\\\server\\{}", "a".repeat(300));
    assert_eq!(prefixed(&network), format!("\\\\?\\UNC\\server\\{}", "a".repeat(300)));
}

#[test]
fn length_counts_bytes_not_characters() {
    let long = "ä".repeat(130);
    assert_eq!(long.len(), 260);
    assert_eq!(prefixed(&long), format!("\\\\?\\{}", long));
    let short = "ä".repeat(129);
    assert_eq!(prefixed(&short), short);
}

#[test]
fn packaged_application_begins_with_at() {
    assert!(is_uwp("@{Microsoft.Photos_1.0?ms-resource://x}"));
    assert!(is_uwp("@"));
    assert!(!is_uwp("C:\\app.exe,0"));
    assert!(!is_uwp(""));
    assert!(!is_uwp(" @"));
}

#[test]
fn application_id_stands_between_brace_and_question_mark() {
    assert_eq!(
        extract_app_user_model_id("@{Microsoft.Photos_1.0_x64__8wekyb?ms-resource://x/y}"),
        Some("Microsoft.Photos_1.0_x64__8wekyb".to_string())
    );
    assert_eq!(extract_app_user_model_id("{?"), Some(String::new()));
    assert_eq!(extract_app_user_model_id("a{b{c?d?e"), Some("b{c".to_string()));
    assert_eq!(extract_app_user_model_id("@{no question mark}"), None);
    assert_eq!(extract_app_user_model_id("no brace?"), None);
    assert_eq!(extract_app_user_model_id("?{"), None);
    assert_eq!(extract_app_user_model_id("a?b{c?d"), None);
    assert_eq!(extract_app_user_model_id(""), None);
}

#[test]
fn aborted_operation_is_no_failure() {
    assert_eq!(execute(None, false), Ok(()));
    assert_eq!(execute(None, true), Ok(()));
    assert_eq!(execute(Some("denied".to_string()), true), Ok(()));
    assert_eq!(execute(Some("denied".to_string()), false), Err("denied".to_string()));
}

#[test]
fn drag_ends_on_escape_and_drops_on_release() {
    assert_eq!(query_continue_drag(true, true), DragVerdict::Cancel);
    assert_eq!(query_continue_drag(true, false), DragVerdict::Cancel);
    assert_eq!(query_continue_drag(false, false), DragVerdict::Drop);
    assert_eq!(query_continue_drag(false, true), DragVerdict::Continue);
}

#[test]
fn dropped_files_make_an_event() {
    let event = drop_handler(&"getPathForFiles".to_string(), vec!["C:\\a".to_string()]).unwrap();
    assert_eq!(event.paths, vec!["C:\\a".to_string()]);
    assert!(drop_handler(&"getPathForFiles".to_string(), Vec::new()).is_none());
    assert!(drop_handler(&"other".to_string(), vec!["C:\\a".to_string()]).is_none());
    assert!(drop_handler(&"getpathforfiles".to_string(), vec!["C:\\a".to_string()]).is_none());
}
