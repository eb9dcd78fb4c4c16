use vstd::prelude::*;

verus! {

/// Asks the host to end the process with this status, at once. Nothing can
/// follow: the request has no answer to resume with.
#[derive(Debug, PartialEq, Eq)]
pub struct Exit {
    pub status: i32,
}

/// The status of a process that ended as it should.
pub const SUCCESS: i32 = 0;

/// Closing the editor ends the process with success. Nothing is flushed or
/// confirmed first; the user interface sees to unsaved work before it asks.
pub fn exit_app() -> (step: Exit)
    ensures
        step.status == SUCCESS,
{
    Exit { status: SUCCESS }
}

} // verus!
