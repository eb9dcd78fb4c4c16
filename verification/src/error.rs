use vstd::prelude::*;

verus! {

/// Why an operation of the bridge did not succeed.
#[derive(Debug, Clone, PartialEq, Eq)]
pub enum BridgeError {
    /// The user dismissed a dialog. An expected outcome, not a fault.
    UserCancelled,
    /// A path that was to be opened names no regular file.
    NotFound,
    /// A file's bytes are not UTF-8 text.
    InvalidEncoding,
    /// Any other failure of the file system or the platform, with the
    /// message that it gave.
    IOError(String),
    /// There is no main window to act on.
    WindowUnavailable,
}

/// A [`BridgeError`] as a mathematical value.
pub enum BridgeErrorView {
    UserCancelled,
    NotFound,
    InvalidEncoding,
    IOError(Seq<char>),
    WindowUnavailable,
}

impl View for BridgeError {
    type V = BridgeErrorView;

    open spec fn view(&self) -> BridgeErrorView {
        match self {
            BridgeError::UserCancelled => BridgeErrorView::UserCancelled,
            BridgeError::NotFound => BridgeErrorView::NotFound,
            BridgeError::InvalidEncoding => BridgeErrorView::InvalidEncoding,
            BridgeError::IOError(message) => BridgeErrorView::IOError(message@),
            BridgeError::WindowUnavailable => BridgeErrorView::WindowUnavailable,
        }
    }
}

impl BridgeErrorView {
    /// The text that the user interface receives for this failure. The four
    /// named failures have fixed texts; an `IOError` passes on the message it
    /// carries.
    pub open spec fn message(self) -> Seq<char> {
        match self {
            BridgeErrorView::UserCancelled => "Cancelled"@,
            BridgeErrorView::NotFound => "File not found"@,
            BridgeErrorView::InvalidEncoding => "File is not valid UTF-8 text."@,
            BridgeErrorView::IOError(message) => message,
            BridgeErrorView::WindowUnavailable => "No main window"@,
        }
    }
}

impl BridgeError {
    /// The text that crosses the boundary to the user interface.
    pub fn message(&self) -> (text: String)
        ensures
            text@ == self@.message(),
    {
        match self {
            BridgeError::UserCancelled => "Cancelled".to_string(),
            BridgeError::NotFound => "File not found".to_string(),
            BridgeError::InvalidEncoding => "File is not valid UTF-8 text.".to_string(),
            BridgeError::IOError(message) => message.clone(),
            BridgeError::WindowUnavailable => "No main window".to_string(),
        }
    }
}

/// A `Result` with both sides taken by their views.
pub open spec fn result_view<T: View, E: View>(result: Result<T, E>) -> Result<T::V, E::V> {
    match result {
        Ok(value) => Ok(value@),
        Err(error) => Err(error@),
    }
}

} // verus!
