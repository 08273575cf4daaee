use frame_decoder::testing::{
    check_clipboard_text, check_recording_start, check_recording_stop, simulate_device_available,
    simulate_save_file_dialog,
};

#[test]
fn save_dialog_strips_project_suffix() {
    assert_eq!(
        simulate_save_file_dialog("My Recording.cap", "recording"),
        Ok(Some("/tmp/My Recording.mp4".to_string()))
    );
    assert_eq!(
        simulate_save_file_dialog("shot", "screenshot"),
        Ok(Some("/tmp/shot.png".to_string()))
    );
    assert_eq!(
        simulate_save_file_dialog("a.cap.cap", "screenshot"),
        Ok(Some("/tmp/a.cap.png".to_string()))
    );
    assert_eq!(simulate_save_file_dialog(".cap", "recording"), Ok(Some("/tmp/.mp4".to_string())));
}

#[test]
fn save_dialog_rejects_unknown_type() {
    assert_eq!(simulate_save_file_dialog("x", "audio"), Err("Invalid file type".to_string()));
    assert_eq!(simulate_save_file_dialog("x", ""), Err("Invalid file type".to_string()));
}

#[test]
fn recording_modes() {
    assert!(simulate_device_available());
    assert_eq!(check_recording_start("studio"), Ok(()));
    assert_eq!(check_recording_start("instant"), Ok(()));
    assert_eq!(check_recording_start("Studio"), Err("Invalid recording mode".to_string()));
    assert_eq!(check_recording_start(""), Err("Invalid recording mode".to_string()));
}

#[test]
fn recording_stop_needs_an_id() {
    assert_eq!(check_recording_stop("abc"), Ok(()));
    assert_eq!(check_recording_stop(""), Err("Invalid recording ID".to_string()));
}

#[test]
fn clipboard_text_must_not_be_empty() {
    assert_eq!(check_clipboard_text("hello"), Ok(()));
    assert_eq!(check_clipboard_text(""), Err("Cannot copy empty text".to_string()));
}
