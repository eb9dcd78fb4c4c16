use vstd::prelude::*;
use vstd::utf8::{encode_utf8, encode_utf8_decode_utf8};
use vstd::string::StringSliceAdditionalSpecFns;

verus! {

/// The requests that the user interface can make, one for each operation.
#[derive(Debug, Clone, Copy, PartialEq, Eq)]
pub enum Command {
    ExitApp,
    OpenFile,
    OpenFileByPath,
    SaveFile,
    SaveFileAs,
    GetAppInfo,
    ToggleFullscreen,
}

impl Command {
    /// The name under which the user interface asks for this operation.
    pub open spec fn wire_name(self) -> Seq<char> {
        match self {
            Command::ExitApp => "exit_app"@,
            Command::OpenFile => "open_file"@,
            Command::OpenFileByPath => "open_file_by_path"@,
            Command::SaveFile => "save_file"@,
            Command::SaveFileAs => "save_file_as"@,
            Command::GetAppInfo => "get_app_info"@,
            Command::ToggleFullscreen => "toggle_fullscreen"@,
        }
    }

    /// Returns [`Command::wire_name`].
    pub fn name(&self) -> (name: &'static str)
        ensures
            name@ == self.wire_name(),
    {
        match self {
            Command::ExitApp => "exit_app",
            Command::OpenFile => "open_file",
            Command::OpenFileByPath => "open_file_by_path",
            Command::SaveFile => "save_file",
            Command::SaveFileAs => "save_file_as",
            Command::GetAppInfo => "get_app_info",
            Command::ToggleFullscreen => "toggle_fullscreen",
        }
    }

    /// Looks a request up by its name. The result is the command that has
    /// this name, and `None` where no command has it.
    pub fn from_name(name: &str) -> (command: Option<Command>)
        ensures
            forall|c: Command| command == Some(c) <==> name@ == c.wire_name(),
    {
        let command = if same_text(name, "exit_app") {
            Some(Command::ExitApp)
        } else if same_text(name, "open_file") {
            Some(Command::OpenFile)
        } else if same_text(name, "open_file_by_path") {
            Some(Command::OpenFileByPath)
        } else if same_text(name, "save_file") {
            Some(Command::SaveFile)
        } else if same_text(name, "save_file_as") {
            Some(Command::SaveFileAs)
        } else if same_text(name, "get_app_info") {
            Some(Command::GetAppInfo)
        } else if same_text(name, "toggle_fullscreen") {
            Some(Command::ToggleFullscreen)
        } else {
            None
        };
        proof {
            names_differ();
            assert forall|c: Command| command == Some(c) <==> name@ == c.wire_name() by {
                if let Some(found) = command {
                    assert(name@ == found.wire_name());
                }
            }
        }
        command
    }
}

/// No two commands share a name, so a name routes to at most one operation.
pub proof fn names_differ()
    ensures
        forall|a: Command, b: Command| a.wire_name() == b.wire_name() ==> a == b,
{
    reveal_strlit("exit_app");
    reveal_strlit("open_file");
    reveal_strlit("open_file_by_path");
    reveal_strlit("save_file");
    reveal_strlit("save_file_as");
    reveal_strlit("get_app_info");
    reveal_strlit("toggle_fullscreen");
    assert forall|a: Command, b: Command| a.wire_name() == b.wire_name() implies a == b by {
        let x = a.wire_name();
        let y = b.wire_name();
        assert(x.len() == y.len());
        assert(x[0] == y[0]);
    }
}

/// Whether two strings hold the same text, found by comparing their bytes.
fn same_text(a: &str, b: &str) -> (same: bool)
    ensures
        same == (a@ == b@),
{
    let x = a.as_bytes();
    let y = b.as_bytes();
    proof {
        encode_utf8_decode_utf8(a@);
        encode_utf8_decode_utf8(b@);
    }
    if x.len() != y.len() {
        return false;
    }
    let mut i: usize = 0;
    while i < x.len()
        invariant
            i <= x.len(),
            x.len() == y.len(),
            x@ == encode_utf8(a@),
            y@ == encode_utf8(b@),
            forall|j: int| 0 <= j < i ==> x@[j] == y@[j],
        decreases x.len() - i,
    {
        if x[i] != y[i] {
            return false;
        }
        i = i + 1;
    }
    assert(x@ =~= y@);
    true
}

} // verus!
