//! The native side of the Quill text editor, without the I/O.
//!
//! The user interface asks for files to be opened and saved, for the window
//! to go fullscreen and back, for the application's name and version, and for
//! the process to end. Each operation is split here into the steps that the
//! host has to carry out (show a dialog, read a file, set a window flag) and
//! the decisions between them, which this crate makes and proves.

pub mod app_info;
pub mod error;
pub mod file_gateway;
pub mod process;
pub mod window;
pub mod dispatch;
pub mod host;
