use vstd::prelude::*;
use vstd::utf8::{decode_utf8, encode_utf8, encode_utf8_decode_utf8, valid_utf8};
use crate::error::{result_view, BridgeError, BridgeErrorView};

verus! {

/// A file that was opened: where it is and what it holds.
#[derive(Debug, Clone, PartialEq, Eq)]
pub struct OpenResult {
    /// The file's path, as the operating system writes it.
    pub path: String,
    /// The file's whole content, as text.
    pub content: String,
}

/// An [`OpenResult`] as a mathematical value.
pub struct OpenResultView {
    pub path: Seq<char>,
    pub content: Seq<char>,
}

impl View for OpenResult {
    type V = OpenResultView;

    open spec fn view(&self) -> OpenResultView {
        OpenResultView { path: self.path@, content: self.content@ }
    }
}

/// Which files a dialog offers: a label and the extensions that it stands for.
#[derive(Debug, Clone, PartialEq, Eq)]
pub struct FileFilter {
    pub name: String,
    pub extensions: Vec<String>,
}

/// A [`FileFilter`] as a mathematical value.
pub struct FileFilterView {
    pub name: Seq<char>,
    pub extensions: Seq<Seq<char>>,
}

impl View for FileFilter {
    type V = FileFilterView;

    open spec fn view(&self) -> FileFilterView {
        FileFilterView { name: self.name@, extensions: self.extensions.deep_view() }
    }
}

/// The one filter that both dialogs of the editor use: text-like files.
pub open spec fn text_files() -> FileFilterView {
    FileFilterView { name: "Markdown"@, extensions: seq!["md"@, "markdown"@, "txt"@] }
}

/// Builds the filter [`text_files`].
pub fn text_filter() -> (filter: FileFilter)
    ensures
        filter@ == text_files(),
{
    let mut extensions: Vec<String> = Vec::new();
    extensions.push("md".to_string());
    extensions.push("markdown".to_string());
    extensions.push("txt".to_string());
    let filter = FileFilter { name: "Markdown".to_string(), extensions };
    assert(filter.extensions.deep_view() =~= text_files().extensions);
    filter
}

/// What a dialog's answer amounts to: the path that was picked, or
/// `UserCancelled` where the user picked none.
pub open spec fn chosen(choice: Option<Seq<char>>) -> Result<Seq<char>, BridgeErrorView> {
    match choice {
        Some(path) => Ok(path),
        None => Err(BridgeErrorView::UserCancelled),
    }
}

/// A known path may be read only if it names a regular file; any other is
/// `NotFound`.
pub open spec fn located(path: Seq<char>, is_file: bool) -> Result<Seq<char>, BridgeErrorView> {
    if is_file {
        Ok(path)
    } else {
        Err(BridgeErrorView::NotFound)
    }
}

/// What reading the file at `path` amounts to. A read that failed is an
/// `IOError` with the system's message. Bytes that are not UTF-8 are
/// `InvalidEncoding`. Bytes that are UTF-8 are the content, decoded.
pub open spec fn opened(path: Seq<char>, outcome: Result<Seq<u8>, Seq<char>>) -> Result<
    OpenResultView,
    BridgeErrorView,
> {
    match outcome {
        Err(message) => Err(BridgeErrorView::IOError(message)),
        Ok(bytes) => if valid_utf8(bytes) {
            Ok(OpenResultView { path, content: decode_utf8(bytes) })
        } else {
            Err(BridgeErrorView::InvalidEncoding)
        },
    }
}

/// What writing a file amounts to: nothing to report, or an `IOError` with
/// the system's message.
pub open spec fn saved(outcome: Result<(), Seq<char>>) -> Result<(), BridgeErrorView> {
    match outcome {
        Ok(_) => Ok(()),
        Err(message) => Err(BridgeErrorView::IOError(message)),
    }
}

/// As [`saved`], for a path that the user chose: success reports that path.
pub open spec fn saved_at(path: Seq<char>, outcome: Result<(), Seq<char>>) -> Result<
    Seq<char>,
    BridgeErrorView,
> {
    match outcome {
        Ok(_) => Ok(path),
        Err(message) => Err(BridgeErrorView::IOError(message)),
    }
}

/// Asks the host to show the dialog that picks a file to open.
#[derive(Debug, PartialEq, Eq)]
pub struct PickFile {
    pub filter: FileFilter,
}

/// Asks the host whether `path` names a regular file.
#[derive(Debug, PartialEq, Eq)]
pub struct ProbeFile {
    pub path: String,
}

/// Asks the host for the bytes of the file at `path`.
#[derive(Debug, PartialEq, Eq)]
pub struct ReadFile {
    pub path: String,
}

/// Asks the host to write `content` to `path`, over whatever is there.
#[derive(Debug, PartialEq, Eq)]
pub struct WriteFile {
    pub path: String,
    pub content: String,
}

/// Asks the host to show the dialog that picks where to save `content`.
#[derive(Debug, PartialEq, Eq)]
pub struct PickSavePath {
    pub filter: FileFilter,
    pub content: String,
}

/// Asks the host to write `content` to the `path` that the user chose.
#[derive(Debug, PartialEq, Eq)]
pub struct WriteChosen {
    pub path: String,
    pub content: String,
}

/// A write as a mathematical value.
pub struct WriteView {
    pub path: Seq<char>,
    pub content: Seq<char>,
}

impl View for ReadFile {
    type V = Seq<char>;

    open spec fn view(&self) -> Seq<char> {
        self.path@
    }
}

impl View for WriteChosen {
    type V = WriteView;

    open spec fn view(&self) -> WriteView {
        WriteView { path: self.path@, content: self.content@ }
    }
}

/// Wraps `String::from_utf8`, which turns bytes into a `String` without
/// changing them and refuses bytes that are not UTF-8. The contract says so
/// in the terms of `vstd::utf8`: there is a string exactly when the bytes
/// are valid, and the string's encoding is the bytes that came in.
#[verifier::external_body]
fn text_from_utf8(bytes: Vec<u8>) -> (text: Option<String>)
    ensures
        text is Some <==> valid_utf8(bytes@),
        text matches Some(s) ==> encode_utf8(s@) == bytes@,
{
    String::from_utf8(bytes).ok()
}

/// Opening a file through the dialog begins with the dialog.
pub fn open_file() -> (step: PickFile)
    ensures
        step.filter@ == text_files(),
{
    PickFile { filter: text_filter() }
}

impl PickFile {
    /// `choice` is what the dialog returned: the path picked, or `None` if
    /// the user dismissed it. A path is read next, without further checks.
    pub fn resume(self, choice: Option<String>) -> (next: Result<ReadFile, BridgeError>)
        ensures
            result_view(next) == chosen(choice.deep_view()),
    {
        match choice {
            Some(path) => Ok(ReadFile { path }),
            None => Err(BridgeError::UserCancelled),
        }
    }
}

/// Opening a file whose path is known begins with a look at the path.
pub fn open_file_by_path(path: String) -> (step: ProbeFile)
    ensures
        step.path@ == path@,
{
    ProbeFile { path }
}

impl ProbeFile {
    /// `is_file` says whether the path names an existing regular file. Only
    /// then is it read.
    pub fn resume(self, is_file: bool) -> (next: Result<ReadFile, BridgeError>)
        ensures
            result_view(next) == located(self.path@, is_file),
    {
        if is_file {
            Ok(ReadFile { path: self.path })
        } else {
            Err(BridgeError::NotFound)
        }
    }
}

impl ReadFile {
    /// `outcome` is what reading the file gave: its bytes, or the system's
    /// message. The bytes are decoded here.
    pub fn resume(self, outcome: Result<Vec<u8>, String>) -> (result: Result<
        OpenResult,
        BridgeError,
    >)
        ensures
            result_view(result) == opened(self.path@, result_view(outcome)),
    {
        match outcome {
            Err(message) => Err(BridgeError::IOError(message)),
            Ok(bytes) => {
                match text_from_utf8(bytes) {
                    Some(content) => {
                        proof {
                            encode_utf8_decode_utf8(content@);
                        }
                        Ok(OpenResult { path: self.path, content })
                    },
                    None => Err(BridgeError::InvalidEncoding),
                }
            },
        }
    }
}

/// Saving to a known path is one write.
pub fn save_file(path: String, content: String) -> (step: WriteFile)
    ensures
        step.path@ == path@,
        step.content@ == content@,
{
    WriteFile { path, content }
}

impl WriteFile {
    /// `outcome` is what the write gave. A failure is reported as it is:
    /// nothing is retried or rolled back.
    pub fn resume(self, outcome: Result<(), String>) -> (result: Result<(), BridgeError>)
        ensures
            result_view(result) == saved(result_view(outcome)),
    {
        match outcome {
            Ok(_) => Ok(()),
            Err(message) => Err(BridgeError::IOError(message)),
        }
    }
}

/// Saving under a new name begins with the dialog.
pub fn save_file_as(content: String) -> (step: PickSavePath)
    ensures
        step.filter@ == text_files(),
        step.content@ == content@,
{
    PickSavePath { filter: text_filter(), content }
}

impl PickSavePath {
    /// `choice` is what the dialog returned. The content goes to the path
    /// that was picked.
    pub fn resume(self, choice: Option<String>) -> (next: Result<WriteChosen, BridgeError>)
        ensures
            result_view(next) == match chosen(choice.deep_view()) {
                Ok(path) => Ok(WriteView { path, content: self.content@ }),
                Err(error) => Err(error),
            },
    {
        match choice {
            Some(path) => Ok(WriteChosen { path, content: self.content }),
            None => Err(BridgeError::UserCancelled),
        }
    }
}

impl WriteChosen {
    /// `outcome` is what the write gave. On success the user interface
    /// learns the path.
    pub fn resume(self, outcome: Result<(), String>) -> (result: Result<String, BridgeError>)
        ensures
            result_view(result) == saved_at(self.path@, result_view(outcome)),
    {
        match outcome {
            Ok(_) => Ok(self.path),
            Err(message) => Err(BridgeError::IOError(message)),
        }
    }
}

} // verus!
