//! Files dropped on a web view.

use vstd::prelude::*;

verus! {

/// Files were dropped: their paths.
#[derive(Debug)]
pub struct FileDropEvent {
    pub paths: Vec<String>,
}

/// The message with which the page announces dropped files.
pub open spec fn is_drop_message(message: Seq<char>) -> bool {
    message == "getPathForFiles"@
}

/// The event for a message of the page, if it announces dropped files and any
/// of them has a path.
pub fn drop_handler(message: &String, paths: Vec<String>) -> (event: Option<FileDropEvent>)
    ensures
        match event {
            Some(e) => is_drop_message(message@) && paths@.len() > 0 && e.paths == paths,
            None => !is_drop_message(message@) || paths@.len() == 0,
        },
{
    let expected = "getPathForFiles".to_owned();
    if *message == expected && paths.len() > 0 {
        Some(FileDropEvent { paths })
    } else {
        None
    }
}

} // verus!
