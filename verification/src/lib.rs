//! Desktop integration for an embedding application: the batch file-transfer
//! engine (cancellation, measurement, progress, conflict resolution, execution),
//! the recycle-bin matching rules, and the decisions behind dialogs, clipboard,
//! devices and child processes. Everything here is computation on plain values;
//! the caller performs the operating-system calls that these functions decide on.

pub mod registry;
pub mod batch;
pub mod usage;
pub mod text;
pub mod progress;
pub mod conflict;
pub mod machine;
pub mod executor;
pub mod recycle_bin;
pub mod fs;
pub mod dialog;
pub mod device;
pub mod process;
pub mod clipboard;
pub mod shell;
pub mod file_time;
pub mod bulk_move;
pub mod mime;
pub mod media;
pub mod volumes;
pub mod util;
pub mod drag_drop;
pub mod webview2;

use vstd::prelude::*;

verus! {

/// What the file system says of one file or directory. Times are in
/// milliseconds since 1970.
#[derive(Debug, Clone, Copy, PartialEq, Eq, Structural)]
pub struct FileAttribute {
    pub is_directory: bool,
    pub is_read_only: bool,
    pub is_hidden: bool,
    pub is_system: bool,
    pub is_device: bool,
    pub is_symbolic_link: bool,
    pub is_file: bool,
    pub ctime_ms: u64,
    pub mtime_ms: u64,
    pub atime_ms: u64,
    pub birthtime_ms: u64,
    pub size: u64,
}

/// A drive or partition that is mounted.
#[derive(Debug)]
pub struct Volume {
    pub mount_point: String,
    pub volume_label: String,
    pub available_units: u64,
    pub total_units: u64,
}

/// What is meant to happen to the paths on the clipboard or in a drag.
#[derive(Debug, Clone, Copy, PartialEq, Eq, Structural)]
pub enum Operation {
    /// Nothing is asked for.
    NoOperation,
    Copy,
    Move,
}

/// Paths on the clipboard with the operation meant for them.
#[derive(Debug)]
pub struct ClipboardData {
    pub operation: Operation,
    pub urls: Vec<String>,
}

/// One entry of a directory.
#[derive(Debug)]
pub struct Dirent {
    pub name: String,
    pub parent_path: String,
    pub full_path: String,
    pub attributes: FileAttribute,
    pub mime_type: String,
}

/// An application that can open a file.
#[derive(Debug)]
pub struct AppInfo {
    pub path: String,
    pub name: String,
    pub icon: String,
}

/// An icon as RGBA pixels, row by row.
#[derive(Debug)]
pub struct RgbaIcon {
    pub rgba: Vec<u8>,
    pub width: u32,
    pub height: u32,
}

/// A button of a window's thumbnail toolbar.
#[derive(Debug)]
pub struct ThumbButton {
    pub id: String,
    pub tool_tip: Option<String>,
    /// The path of the button's icon.
    pub icon: String,
}

} // verus!
