use vstd::prelude::*;
use crate::error::{result_view, BridgeError, BridgeErrorView};

verus! {

/// The label of the one window that the bridge acts on.
pub open spec fn main_window() -> Seq<char> {
    "main"@
}

/// Asks the host for the window with this label.
#[derive(Debug, PartialEq, Eq)]
pub struct FindWindow {
    pub label: String,
}

/// Asks the host whether the window is fullscreen now.
#[derive(Debug, PartialEq, Eq)]
pub struct QueryFullscreen {}

/// Asks the host to put the window into this state.
#[derive(Debug, PartialEq, Eq)]
pub struct SetFullscreen {
    pub fullscreen: bool,
}

impl View for QueryFullscreen {
    type V = ();

    open spec fn view(&self) -> () {
        ()
    }
}

/// A window that cannot be found is `WindowUnavailable`.
pub open spec fn resolved(present: bool) -> Result<(), BridgeErrorView> {
    if present {
        Ok(())
    } else {
        Err(BridgeErrorView::WindowUnavailable)
    }
}

/// The state to switch to: the opposite of the current one. A window that
/// does not tell its state counts as not fullscreen.
pub open spec fn toggled(current: Option<bool>) -> bool {
    match current {
        Some(fullscreen) => !fullscreen,
        None => true,
    }
}

/// What setting the state to `fullscreen` amounts to: the new state, or an
/// `IOError` with the platform's message.
pub open spec fn applied(fullscreen: bool, outcome: Result<(), Seq<char>>) -> Result<
    bool,
    BridgeErrorView,
> {
    match outcome {
        Ok(_) => Ok(fullscreen),
        Err(message) => Err(BridgeErrorView::IOError(message)),
    }
}

/// Toggling fullscreen begins with finding the main window.
pub fn toggle_fullscreen() -> (step: FindWindow)
    ensures
        step.label@ == main_window(),
{
    FindWindow { label: "main".to_string() }
}

impl FindWindow {
    /// `present` says whether the host has such a window.
    pub fn resume(self, present: bool) -> (next: Result<QueryFullscreen, BridgeError>)
        ensures
            result_view(next) == resolved(present),
    {
        if present {
            Ok(QueryFullscreen {  })
        } else {
            Err(BridgeError::WindowUnavailable)
        }
    }
}

impl QueryFullscreen {
    /// `current` is the window's state, or `None` if the query failed.
    pub fn resume(self, current: Option<bool>) -> (next: SetFullscreen)
        ensures
            next.fullscreen == toggled(current),
    {
        let now = match current {
            Some(fullscreen) => fullscreen,
            None => false,
        };
        SetFullscreen { fullscreen: !now }
    }
}

impl SetFullscreen {
    /// `outcome` is what the platform said to the change.
    pub fn resume(self, outcome: Result<(), String>) -> (result: Result<bool, BridgeError>)
        ensures
            result_view(result) == applied(self.fullscreen, result_view(outcome)),
    {
        match outcome {
            Ok(_) => Ok(self.fullscreen),
            Err(message) => Err(BridgeError::IOError(message)),
        }
    }
}

} // verus!
