use radial_menus::error::{fmt_path, io_err, FileError};

#[test]
fn error_messages() {
    let e = FileError::Write { path: "/a.json".to_string(), detail: "disk full".to_string() };
    assert_eq!(e.message(), "write /a.json failed: disk full");
    let e = FileError::Persist { path: "/m".to_string(), detail: "x".to_string() };
    assert_eq!(e.message(), "persist dir to /m failed: x");
    let e = FileError::CreateAppDataDir { path: "/d".to_string(), detail: "y".to_string() };
    assert_eq!(e.message(), "create app_data_dir /d failed: y");
    let e = FileError::Serialization { detail: "z".to_string() };
    assert_eq!(e.message(), "serialize json failed: z");
    assert_eq!(io_err("boom"), "boom");
    assert_eq!(fmt_path("/p q"), "/p q");
}
