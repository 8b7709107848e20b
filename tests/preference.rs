use radial_menus::error::{FileError, IoFailure, IoKind};
use radial_menus::preference::{marker_contents, saved_directory, MARKER_FILE_NAME};

fn missing() -> Result<String, IoFailure> {
    Err(IoFailure { kind: IoKind::NotFound, detail: "gone".to_string() })
}

#[test]
fn unset_before_any_save() {
    assert_eq!(saved_directory("/data/radials_dir.txt", missing()).unwrap(), None);
    assert_eq!(MARKER_FILE_NAME, "radials_dir.txt");
}

#[test]
fn last_saved_directory_wins() {
    let mut marker: Option<String> = None;
    for p in ["/first", "  /second/menus \n"] {
        marker = Some(marker_contents(p));
    }
    let read = marker.ok_or(IoFailure { kind: IoKind::NotFound, detail: String::new() });
    assert_eq!(saved_directory("/data/m", read).unwrap(), Some("/second/menus".to_string()));
}

#[test]
fn saved_text_is_the_path_verbatim() {
    assert_eq!(marker_contents(" /a b "), " /a b ");
}

#[test]
fn saved_directory_is_trimmed() {
    let r = saved_directory("/data/m", Ok("\t/Users/me/menus\r\n".to_string())).unwrap();
    assert_eq!(r, Some("/Users/me/menus".to_string()));
}

#[test]
fn unreadable_marker_is_an_error() {
    let read = Err(IoFailure { kind: IoKind::PermissionDenied, detail: "denied".to_string() });
    let e = saved_directory("/data/m", read).unwrap_err();
    assert!(matches!(e, FileError::Read { .. }));
    assert_eq!(e.message(), "read /data/m failed: denied");
}
