use vstd::prelude::*;
use crate::error::FileError;

verus! {

/// Which native picker to open.
#[derive(Clone, Copy, Debug, PartialEq, Eq, Structural)]
pub enum DialogKind {
    PickFolder,
    PickFile,
    SaveFile,
}

/// A native file picker as it is to be shown.
#[derive(Clone, Debug)]
pub struct DialogRequest {
    pub kind: DialogKind,
    pub title: Option<String>,
    /// A named filter and the extensions it admits.
    pub filter: Option<(String, Vec<String>)>,
    /// The file name the picker starts with.
    pub file_name: Option<String>,
}

/// The filter that admits JSON files only.
pub open spec fn is_json_filter(f: Option<(String, Vec<String>)>) -> bool {
    f is Some && f->Some_0.0@ == "JSON"@ && f->Some_0.1@.len() == 1 && f->Some_0.1@[0]@ == "json"@
}

fn json_filter() -> (r: Option<(String, Vec<String>)>)
    ensures
        is_json_filter(r),
{
    let exts: Vec<String> = vec![String::from_str("json")];
    Some((String::from_str("JSON"), exts))
}

/// The picker for choosing a folder.
pub fn pick_directory_request() -> (r: DialogRequest)
    ensures
        r.kind == DialogKind::PickFolder,
        r.title is None,
        r.filter is None,
        r.file_name is None,
{
    DialogRequest { kind: DialogKind::PickFolder, title: None, filter: None, file_name: None }
}

/// The picker for choosing a JSON file to open.
pub fn pick_json_file_request() -> (r: DialogRequest)
    ensures
        r.kind == DialogKind::PickFile,
        r.title is Some && r.title->Some_0@ == "Select a commands JSON"@,
        is_json_filter(r.filter),
        r.file_name is None,
{
    DialogRequest {
        kind: DialogKind::PickFile,
        title: Some(String::from_str("Select a commands JSON")),
        filter: json_filter(),
        file_name: None,
    }
}

/// The picker for choosing where to save a menu, starting from the
/// suggested file name when there is one.
pub fn pick_save_json_path_request(suggested_name: Option<String>) -> (r: DialogRequest)
    ensures
        r.kind == DialogKind::SaveFile,
        r.title is Some && r.title->Some_0@ == "Save radial menu as\u{2026}"@,
        is_json_filter(r.filter),
        r.file_name == suggested_name,
{
    DialogRequest {
        kind: DialogKind::SaveFile,
        title: Some(String::from_str("Save radial menu as\u{2026}")),
        filter: json_filter(),
        file_name: suggested_name,
    }
}

/// What a picker operation returns for what the user chose: the chosen path,
/// or `None` when the user cancelled, which is no error.
pub fn picked_path(picked: Option<String>) -> (r: Result<Option<String>, FileError>)
    ensures
        r is Ok,
        r->Ok_0 == picked,
{
    Ok(picked)
}

} // verus!
