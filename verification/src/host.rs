use vstd::prelude::*;
use vstd::utf8::{encode_utf8, encode_utf8_decode_utf8, encode_utf8_valid_utf8, valid_utf8};
use crate::error::BridgeErrorView;
use crate::file_gateway::{chosen, located, opened, saved, saved_at, OpenResultView};
use crate::window::{applied, resolved, toggled};

verus! {

/// The main window, as far as the bridge deals with it.
pub struct Window {
    /// Whether the window fills the screen.
    pub fullscreen: bool,
    /// Whether the window tells its state when asked.
    pub answers: bool,
    /// The platform's message, if it refuses to change the state.
    pub refusal: Option<Seq<char>>,
}

/// A host for the bridge's requests, reduced to what decides their answers.
/// It is the setting of the laws below, not a description of any operating
/// system: this host keeps what is written to it and refuses a write whole
/// or not at all, and nobody else touches its files or its window.
pub struct Host {
    /// The paths that name a regular file.
    pub regular: Set<Seq<char>>,
    /// What reading each path gives: the bytes there, or a complaint.
    pub read: spec_fn(Seq<char>) -> Result<Seq<u8>, Seq<char>>,
    /// Whether a write to each path is taken, and the complaint if not.
    pub write: spec_fn(Seq<char>) -> Result<(), Seq<char>>,
    /// What the user picks in a dialog; `None` when they dismiss it.
    pub choice: Option<Seq<char>>,
    /// The main window, if there is one.
    pub window: Option<Window>,
}

impl Window {
    /// What the window says when asked for its state.
    pub open spec fn report(self) -> Option<bool> {
        if self.answers {
            Some(self.fullscreen)
        } else {
            None
        }
    }

    /// What the platform says when asked to change the state.
    pub open spec fn verdict(self) -> Result<(), Seq<char>> {
        match self.refusal {
            None => Ok(()),
            Some(message) => Err(message),
        }
    }

    /// The window after it was asked to take the state `fullscreen`.
    pub open spec fn set(self, fullscreen: bool) -> Window {
        if self.refusal is None {
            Window { fullscreen, ..self }
        } else {
            self
        }
    }
}

impl Host {
    /// The host after it was asked to write `content` to `path`. A write
    /// that is taken makes `path` a regular file that reads back as the
    /// UTF-8 encoding of `content`; all other paths stay as they were.
    pub open spec fn put(self, path: Seq<char>, content: Seq<char>) -> Host {
        if (self.write)(path) is Ok {
            Host {
                regular: self.regular.insert(path),
                read: |other: Seq<char>|
                    if other == path {
                        Ok(encode_utf8(content))
                    } else {
                        (self.read)(other)
                    },
                ..self
            }
        } else {
            self
        }
    }
}

/// `open_file`, carried out on `host`: the dialog, then the read.
pub open spec fn open_file_on(host: Host) -> Result<OpenResultView, BridgeErrorView> {
    match chosen(host.choice) {
        Ok(path) => opened(path, (host.read)(path)),
        Err(error) => Err(error),
    }
}

/// `open_file_by_path`, carried out on `host`: the look at the path, then
/// the read.
pub open spec fn open_file_by_path_on(host: Host, path: Seq<char>) -> Result<
    OpenResultView,
    BridgeErrorView,
> {
    match located(path, host.regular.contains(path)) {
        Ok(found) => opened(found, (host.read)(found)),
        Err(error) => Err(error),
    }
}

/// `save_file`, carried out on `host`: the host afterwards, and the reply.
pub open spec fn save_file_on(host: Host, path: Seq<char>, content: Seq<char>) -> (
    Host,
    Result<(), BridgeErrorView>,
) {
    (host.put(path, content), saved((host.write)(path)))
}

/// `save_file_as`, carried out on `host`: the dialog, then the write.
pub open spec fn save_file_as_on(host: Host, content: Seq<char>) -> (
    Host,
    Result<Seq<char>, BridgeErrorView>,
) {
    match chosen(host.choice) {
        Ok(path) => (host.put(path, content), saved_at(path, (host.write)(path))),
        Err(error) => (host, Err(error)),
    }
}

/// `toggle_fullscreen`, carried out on `host`: find the window, ask for its
/// state, set the opposite.
pub open spec fn toggle_fullscreen_on(host: Host) -> (Host, Result<bool, BridgeErrorView>) {
    match (resolved(host.window is Some), host.window) {
        (Ok(_), Some(window)) => {
            let next = toggled(window.report());
            (Host { window: Some(window.set(next)), ..host }, applied(next, window.verdict()))
        },
        (Err(error), _) => (host, Err(error)),
        (Ok(_), None) => (host, Err(BridgeErrorView::WindowUnavailable)),
    }
}

/// Text that was saved to a path comes back unchanged when that path is
/// opened next, wherever the host takes the write.
pub proof fn saved_text_opens_unchanged(host: Host, path: Seq<char>, content: Seq<char>)
    requires
        (host.write)(path) is Ok,
    ensures
        save_file_on(host, path, content).1 == Ok::<(), BridgeErrorView>(()),
        open_file_by_path_on(save_file_on(host, path, content).0, path) == Ok::<
            OpenResultView,
            BridgeErrorView,
        >(OpenResultView { path, content }),
{
    encode_utf8_valid_utf8(content);
    encode_utf8_decode_utf8(content);
}

/// Opening a path that names no regular file is `NotFound`, whatever a read
/// of that path would have given.
pub proof fn missing_path_is_not_found(host: Host, path: Seq<char>)
    requires
        !host.regular.contains(path),
    ensures
        open_file_by_path_on(host, path) == Err::<OpenResultView, BridgeErrorView>(
            BridgeErrorView::NotFound,
        ),
{
}

/// A file whose bytes are not UTF-8 opens as `InvalidEncoding`, by its path
/// and through the dialog alike.
pub proof fn bad_bytes_are_invalid_encoding(host: Host, path: Seq<char>, bytes: Seq<u8>)
    requires
        (host.read)(path) == Ok::<Seq<u8>, Seq<char>>(bytes),
        !valid_utf8(bytes),
    ensures
        host.regular.contains(path) ==> open_file_by_path_on(host, path) == Err::<
            OpenResultView,
            BridgeErrorView,
        >(BridgeErrorView::InvalidEncoding),
        host.choice == Some(path) ==> open_file_on(host) == Err::<
            OpenResultView,
            BridgeErrorView,
        >(BridgeErrorView::InvalidEncoding),
{
}

/// Saving under a new name reports the path that the user chose, and that
/// path then opens as exactly the content that was saved.
pub proof fn saved_as_opens_unchanged(host: Host, path: Seq<char>, content: Seq<char>)
    requires
        host.choice == Some(path),
        (host.write)(path) is Ok,
    ensures
        save_file_as_on(host, content).1 == Ok::<Seq<char>, BridgeErrorView>(path),
        open_file_by_path_on(save_file_as_on(host, content).0, path) == Ok::<
            OpenResultView,
            BridgeErrorView,
        >(OpenResultView { path, content }),
{
    encode_utf8_valid_utf8(content);
    encode_utf8_decode_utf8(content);
}

/// Toggling twice brings the window back to the state it was in, where the
/// window tells its state and the platform does not refuse the change. The
/// first call reports the opposite state, the second the state at the start.
pub proof fn two_toggles_restore(host: Host, window: Window)
    requires
        host.window == Some(window),
        window.answers,
        window.refusal is None,
    ensures
        toggle_fullscreen_on(host).1 == Ok::<bool, BridgeErrorView>(!window.fullscreen),
        toggle_fullscreen_on(toggle_fullscreen_on(host).0).1 == Ok::<bool, BridgeErrorView>(
            window.fullscreen,
        ),
        toggle_fullscreen_on(toggle_fullscreen_on(host).0).0.window == Some(window),
{
}

} // verus!
