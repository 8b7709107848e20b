use vstd::prelude::*;

verus! {

/// What kind of failure an I/O operation reported.
#[derive(Clone, Copy, Debug, PartialEq, Eq, Structural)]
pub enum IoKind {
    NotFound,
    PermissionDenied,
    Other,
}

/// An I/O failure as handed over by the caller: its kind and its text.
#[derive(Clone, Debug)]
pub struct IoFailure {
    pub kind: IoKind,
    pub detail: String,
}

/// Every way an operation of this crate can fail.
#[derive(Clone, Debug)]
pub enum FileError {
    /// The per-user application-data directory could not be determined.
    AppDataUnavailable { detail: String },
    /// The application-data directory could not be created.
    CreateAppDataDir { path: String, detail: String },
    /// A directory that had to be created could not be.
    CreateDir { path: String, detail: String },
    /// A file could not be read.
    Read { path: String, cause: IoFailure },
    /// A file was read but does not hold valid JSON.
    MalformedJson { path: String, detail: String },
    /// A document could not be turned into JSON text.
    Serialization { detail: String },
    /// A file could not be written.
    Write { path: String, detail: String },
    /// A directory to be listed does not exist.
    DirectoryNotFound { path: String },
    /// A directory could not be listed.
    ReadDir { path: String, detail: String },
    /// One entry of a directory listing could not be read.
    DirEntry { detail: String },
    /// The remembered directory could not be stored.
    Persist { path: String, detail: String },
    /// The catalog built into the program does not parse.
    EmbeddedCatalog { detail: String },
    /// The operating system refused access to the user's files.
    AccessDenied,
    /// A native dialog could not be shown.
    DialogUnavailable { detail: String },
}

pub open spec fn access_denied_text() -> Seq<char> {
    "File system access required. Please grant permission in System Settings > Privacy & Security > Files and Folders"@
}

impl FileError {
    /// The human-readable text shown for this error.
    pub open spec fn message_spec(&self) -> Seq<char> {
        match self {
            FileError::AppDataUnavailable { detail } => "app_data_dir error: "@ + detail@,
            FileError::CreateAppDataDir { path, detail } => "create app_data_dir "@ + path@ + " failed: "@ + detail@,
            FileError::CreateDir { path, detail } => "create dir "@ + path@ + " failed: "@ + detail@,
            FileError::Read { path, cause } => "read "@ + path@ + " failed: "@ + cause.detail@,
            FileError::MalformedJson { path, detail } => "parse "@ + path@ + " failed: "@ + detail@,
            FileError::Serialization { detail } => "serialize json failed: "@ + detail@,
            FileError::Write { path, detail } => "write "@ + path@ + " failed: "@ + detail@,
            FileError::DirectoryNotFound { path } => "directory "@ + path@ + " does not exist"@,
            FileError::ReadDir { path, detail } => "read_dir "@ + path@ + " failed: "@ + detail@,
            FileError::DirEntry { detail } => "dir entry error: "@ + detail@,
            FileError::Persist { path, detail } => "persist dir to "@ + path@ + " failed: "@ + detail@,
            FileError::EmbeddedCatalog { detail } => "embedded commands.json parse failed: "@ + detail@,
            FileError::AccessDenied => access_denied_text(),
            FileError::DialogUnavailable { detail } => "dialog failed: "@ + detail@,
        }
    }

    /// The human-readable text shown for this error.
    pub fn message(&self) -> (r: String)
        ensures
            r@ == self.message_spec(),
    {
        match self {
            FileError::AppDataUnavailable { detail } => join2("app_data_dir error: ", detail),
            FileError::CreateAppDataDir { path, detail } => join4("create app_data_dir ", path, " failed: ", detail),
            FileError::CreateDir { path, detail } => join4("create dir ", path, " failed: ", detail),
            FileError::Read { path, cause } => join4("read ", path, " failed: ", &cause.detail),
            FileError::MalformedJson { path, detail } => join4("parse ", path, " failed: ", detail),
            FileError::Serialization { detail } => join2("serialize json failed: ", detail),
            FileError::Write { path, detail } => join4("write ", path, " failed: ", detail),
            FileError::DirectoryNotFound { path } => join3("directory ", path, " does not exist"),
            FileError::ReadDir { path, detail } => join4("read_dir ", path, " failed: ", detail),
            FileError::DirEntry { detail } => join2("dir entry error: ", detail),
            FileError::Persist { path, detail } => join4("persist dir to ", path, " failed: ", detail),
            FileError::EmbeddedCatalog { detail } => join2("embedded commands.json parse failed: ", detail),
            FileError::AccessDenied => String::from_str(
                "File system access required. Please grant permission in System Settings > Privacy & Security > Files and Folders",
            ),
            FileError::DialogUnavailable { detail } => join2("dialog failed: ", detail),
        }
    }
}

fn join2(a: &str, b: &str) -> (r: String)
    ensures
        r@ == a@ + b@,
{
    let mut s = String::from_str(a);
    s.append(b);
    s
}

fn join3(a: &str, b: &str, c: &str) -> (r: String)
    ensures
        r@ == a@ + b@ + c@,
{
    let mut s = join2(a, b);
    s.append(c);
    s
}

fn join4(a: &str, b: &str, c: &str, d: &str) -> (r: String)
    ensures
        r@ == a@ + b@ + c@ + d@,
{
    let mut s = join3(a, b, c);
    s.append(d);
    s
}

/// Turns a message into the text form in which errors cross the bridge.
pub fn io_err(msg: &str) -> (r: String)
    ensures
        r@ == msg@,
{
    String::from_str(msg)
}

/// Renders a path for inclusion in a message.
pub fn fmt_path(p: &str) -> (r: String)
    ensures
        r@ == p@,
{
    String::from_str(p)
}

} // verus!
