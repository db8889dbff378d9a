//! File dialogs: the filters offered to the user, and how a failed pick or
//! save is reported.

use vstd::prelude::*;
use vstd::string::*;

verus! {

/// A named group of file extensions offered in a file dialog.
#[derive(Debug, PartialEq, Eq)]
pub struct FileDialogFilter {
    /// The name shown for the group.
    pub name: String,
    /// The extensions of the group, without the dot.
    pub extensions: Vec<String>,
}

/// Where a pick or a save went wrong; the text is the cause as the host
/// gave it.
#[derive(Debug, PartialEq, Eq)]
pub enum FileError {
    /// The task that showed the pick dialog ended abnormally.
    PickTask(String),
    /// The task that showed the save dialog ended abnormally.
    SaveTask(String),
    /// The chosen location is not a path of the file system.
    PathResolve(String),
    /// The data could not be written as JSON.
    Serialize(String),
    /// The file could not be written.
    Write(String),
}

impl FileError {
    /// The words put before the cause.
    pub open spec fn prefix(self) -> Seq<char> {
        match self {
            FileError::PickTask(_) => "文件选择对话框异步任务失败: "@,
            FileError::SaveTask(_) => "文件对话框异步任务失败: "@,
            FileError::PathResolve(_) => "文件路径解析失败: "@,
            FileError::Serialize(_) => "JSON 序列化失败: "@,
            FileError::Write(_) => "文件写入失败: "@,
        }
    }

    /// The cause as the host gave it.
    pub open spec fn cause(self) -> Seq<char> {
        match self {
            FileError::PickTask(c) => c@,
            FileError::SaveTask(c) => c@,
            FileError::PathResolve(c) => c@,
            FileError::Serialize(c) => c@,
            FileError::Write(c) => c@,
        }
    }

    /// The text shown to the user: what failed, then the cause.
    pub fn message(&self) -> (s: String)
        ensures
            s@ == self.prefix() + self.cause(),
    {
        match self {
            FileError::PickTask(c) => String::from_str("文件选择对话框异步任务失败: ").concat(
                c.as_str(),
            ),
            FileError::SaveTask(c) => String::from_str("文件对话框异步任务失败: ").concat(
                c.as_str(),
            ),
            FileError::PathResolve(c) => String::from_str("文件路径解析失败: ").concat(c.as_str()),
            FileError::Serialize(c) => String::from_str("JSON 序列化失败: ").concat(c.as_str()),
            FileError::Write(c) => String::from_str("文件写入失败: ").concat(c.as_str()),
        }
    }
}

/// A JSON value, as the front end hands it over.
#[verifier::external_type_specification]
#[verifier::external_body]
pub struct ExJsonValue(serde_json::Value);

/// Why a value could not be written as JSON.
#[verifier::external_type_specification]
#[verifier::external_body]
pub struct ExJsonError(serde_json::Error);

/// What `serde_json::to_string_pretty` makes of `data`: its pretty-printed
/// JSON text, or `None` where it reports an error.
pub uninterp spec fn pretty_json(data: serde_json::Value) -> Option<Seq<char>>;

/// `serde_json::to_string_pretty` on a `serde_json::Value`. Believed, not
/// proved: the text it returns depends on the value alone, and so does
/// whether it returns one.
#[verifier::external_body]
fn to_pretty_json(data: &serde_json::Value) -> (res: Result<String, serde_json::Error>)
    ensures
        match res {
            Ok(text) => pretty_json(*data) == Some(text@),
            Err(_) => pretty_json(*data) is None,
        },
{
    serde_json::to_string_pretty(data)
}

/// The `Display` text of a `serde_json::Error`. Nothing is claimed of it.
#[verifier::external_body]
fn json_error_text(error: &serde_json::Error) -> (text: String) {
    error.to_string()
}

/// How a file dialog was closed: `None` where the user chose nothing, else
/// the chosen location as a path, or why it is none.
pub type Choice = Option<Result<String, String>>;

/// A file to write once the save dialog is closed.
#[derive(Debug, PartialEq, Eq)]
pub struct SavePlan {
    /// The chosen path.
    pub path: String,
    /// The text to write there.
    pub payload: String,
}

/// Whether `res` is what a closed pick dialog yields: no selection, the
/// chosen path, or the reason why the location is no path.
pub open spec fn is_selection(res: Result<Option<String>, FileError>, picked: Choice) -> bool {
    match picked {
        None => res == Ok::<Option<String>, FileError>(None),
        Some(Ok(path)) => res == Ok::<Option<String>, FileError>(Some(path)),
        Some(Err(cause)) => res == Err::<Option<String>, FileError>(FileError::PathResolve(cause)),
    }
}

/// Whether `res` is what a closed save dialog yields for `data`: nothing to
/// write where the user chose nothing, the reason where the location is no
/// path, else the pretty-printed JSON of `data` for the chosen path.
pub open spec fn is_save_plan(
    res: Result<Option<SavePlan>, FileError>,
    data: serde_json::Value,
    chosen: Choice,
) -> bool {
    match chosen {
        None => res == Ok::<Option<SavePlan>, FileError>(None),
        Some(Err(cause)) => res == Err::<Option<SavePlan>, FileError>(
            FileError::PathResolve(cause),
        ),
        Some(Ok(path)) => match pretty_json(data) {
            Some(text) => {
                &&& res matches Ok(Some(plan))
                &&& plan.path == path
                &&& plan.payload@ == text
            },
            None => res matches Err(FileError::Serialize(_)),
        },
    }
}

/// Whether `res` reports the end of a save to `path`: the path where the
/// file was written, else the reason why it was not.
pub open spec fn is_save_report(
    res: Result<Option<String>, FileError>,
    path: String,
    written: Result<(), String>,
) -> bool {
    match written {
        Ok(_) => res == Ok::<Option<String>, FileError>(Some(path)),
        Err(cause) => res == Err::<Option<String>, FileError>(FileError::Write(cause)),
    }
}

/// What the pick dialog yields once it is closed. Closing it without a
/// choice is no error.
pub fn select_file(picked: Choice) -> (res: Result<Option<String>, FileError>)
    ensures
        is_selection(res, picked),
{
    match picked {
        None => Ok(None),
        Some(Ok(path)) => Ok(Some(path)),
        Some(Err(cause)) => Err(FileError::PathResolve(cause)),
    }
}

/// The text that is written for `data`: its pretty-printed JSON.
pub fn export_payload(data: &serde_json::Value) -> (res: Result<String, FileError>)
    ensures
        match pretty_json(*data) {
            Some(text) => res matches Ok(payload) && payload@ == text,
            None => res matches Err(FileError::Serialize(_)),
        },
{
    match to_pretty_json(data) {
        Ok(text) => Ok(text),
        Err(error) => Err(FileError::Serialize(json_error_text(&error))),
    }
}

/// The file to write at the chosen `path`, given the text that was made of
/// the data, or the reason why no text could be made.
pub fn save_plan(path: String, payload: Result<String, FileError>) -> (res: Result<
    Option<SavePlan>,
    FileError,
>)
    ensures
        match payload {
            Ok(text) => res == Ok::<Option<SavePlan>, FileError>(
                Some(SavePlan { path, payload: text }),
            ),
            Err(e) => res == Err::<Option<SavePlan>, FileError>(e),
        },
{
    match payload {
        Ok(text) => Ok(Some(SavePlan { path, payload: text })),
        Err(e) => Err(e),
    }
}

/// What is to be written once the save dialog is closed. Closing it without
/// a choice is no error and writes nothing; a location that is no path is
/// reported before the data is looked at.
pub fn save_json_to_file(data: &serde_json::Value, chosen: Choice) -> (res: Result<
    Option<SavePlan>,
    FileError,
>)
    ensures
        is_save_plan(res, *data, chosen),
{
    match chosen {
        None => Ok(None),
        Some(Err(cause)) => Err(FileError::PathResolve(cause)),
        Some(Ok(path)) => save_plan(path, export_payload(data)),
    }
}

/// What is to be written for an export of `data`.
pub fn export_to_json(data: &serde_json::Value, chosen: Choice) -> (res: Result<
    Option<SavePlan>,
    FileError,
>)
    ensures
        is_save_plan(res, *data, chosen),
{
    save_json_to_file(data, chosen)
}

/// What is to be written for the chat history `messages`.
pub fn save_chat_history(messages: &serde_json::Value, chosen: Choice) -> (res: Result<
    Option<SavePlan>,
    FileError,
>)
    ensures
        is_save_plan(res, *messages, chosen),
{
    save_json_to_file(messages, chosen)
}

/// The answer of a save once the file system has spoken: the path that was
/// written, or why it was not.
pub fn save_report(path: String, written: Result<(), String>) -> (res: Result<
    Option<String>,
    FileError,
>)
    ensures
        is_save_report(res, path, written),
{
    match written {
        Ok(_) => Ok(Some(path)),
        Err(cause) => Err(FileError::Write(cause)),
    }
}

} // verus!
