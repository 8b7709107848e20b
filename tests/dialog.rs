use radial_menus::dialog::{pick_directory_request, pick_json_file_request, pick_save_json_path_request, picked_path, DialogKind};

#[test]
fn cancelled_pickers_return_none() {
    assert_eq!(picked_path(None).unwrap(), None);
    assert_eq!(picked_path(Some("/a.json".to_string())).unwrap(), Some("/a.json".to_string()));
}

#[test]
fn picker_requests() {
    let d = pick_directory_request();
    assert_eq!(d.kind, DialogKind::PickFolder);
    assert!(d.filter.is_none() && d.title.is_none());
    let f = pick_json_file_request();
    assert_eq!(f.kind, DialogKind::PickFile);
    assert_eq!(f.title.as_deref(), Some("Select a commands JSON"));
    assert_eq!(f.filter, Some(("JSON".to_string(), vec!["json".to_string()])));
    let s = pick_save_json_path_request(Some("menu.json".to_string()));
    assert_eq!(s.kind, DialogKind::SaveFile);
    assert_eq!(s.file_name.as_deref(), Some("menu.json"));
    assert_eq!(s.title.as_deref(), Some("Save radial menu as\u{2026}"));
    assert_eq!(pick_save_json_path_request(None).file_name, None);
}
