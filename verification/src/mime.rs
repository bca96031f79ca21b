//! The media type of a file, guessed from the extension of its name.

use crate::recycle_bin::RecycleBinEntry;
use crate::{Dirent, FileAttribute};
use vstd::prelude::*;

verus! {

/// The media type that `mime_guess` lists first for an extension, without
/// parameters; `None` for an extension it does not list.
pub uninterp spec fn mime_of_extension(extension: Seq<char>) -> Option<Seq<char>>;

/// `mime_guess::from_ext`, then `MimeGuess::first` and `Mime::essence_str`:
/// looks the extension up in the crate's table, whatever the case of its
/// letters, and hands out the first media type listed for it. The result
/// depends on the extension alone. The empty extension is not looked up.
#[verifier::external_body]
fn guess_from_ext(extension: &str) -> (mime: Option<String>)
    ensures
        match mime {
            Some(m) => mime_of_extension(extension@) == Some(m@),
            None => mime_of_extension(extension@) is None,
        },
        extension@.len() == 0 ==> mime is None,
{
    match mime_guess::from_ext(extension).first() {
        Some(m) => Some(m.essence_str().to_string()),
        None => None,
    }
}

/// The position of the last `wanted` in `text`; -1 where there is none.
pub open spec fn last_index_of(text: Seq<char>, wanted: char) -> int
    decreases text.len(),
{
    if text.len() == 0 {
        -1
    } else if text.last() == wanted {
        text.len() - 1
    } else {
        last_index_of(text.drop_last(), wanted)
    }
}

/// What follows the last `/` of a path; the whole path where it has none.
pub open spec fn final_name(path: Seq<char>) -> Seq<char> {
    path.subrange(last_index_of(path, '/') + 1, path.len() as int)
}

/// The extension of a file name: what follows its last dot. A name without a
/// dot has none, nor has a name whose only dot is its first character, nor
/// has `..`.
pub open spec fn extension_of_name(name: Seq<char>) -> Option<Seq<char>> {
    let dot = last_index_of(name, '.');
    if dot <= 0 || name == seq!['.', '.'] {
        None
    } else {
        Some(name.subrange(dot + 1, name.len() as int))
    }
}

/// Whether a path reads the same on every platform and ends in the name of a
/// file: it holds no backslash and no colon, does not begin with two slashes,
/// and what follows its last slash is neither empty nor a single dot.
pub open spec fn is_portable(path: Seq<char>) -> bool {
    &&& forall|i: int| 0 <= i < path.len() ==> path[i] != '\\' && path[i] != ':'
    &&& !(path.len() >= 2 && path[0] == '/' && path[1] == '/')
    &&& final_name(path).len() > 0
    &&& final_name(path) != seq!['.']
}

/// `Path::extension` of std, as text: the extension of the path's file name,
/// if it has one. What counts as the file name follows the path syntax of the
/// platform; for a path that reads the same on every platform the file name
/// is what follows the last slash, and its extension is as std documents it:
/// what follows the last dot, and none where there is no dot, where the only
/// dot comes first, or where the name is `..`.
#[verifier::external_body]
fn path_extension(path: &str) -> (extension: Option<String>)
    ensures
        is_portable(path@) ==> text_of(extension) == extension_of_name(final_name(path@)),
{
    match std::path::Path::new(path).extension() {
        Some(e) => e.to_str().map(str::to_owned),
        None => None,
    }
}

/// The media type for an extension, as text: empty where there is no
/// extension or none is known for it.
pub open spec fn mime_text(extension: Option<Seq<char>>) -> Seq<char> {
    match extension {
        Some(e) => match mime_of_extension(e) {
            Some(m) => m,
            None => Seq::empty(),
        },
        None => Seq::empty(),
    }
}

/// The view of an optional text.
pub open spec fn text_of(text: Option<String>) -> Option<Seq<char>> {
    match text {
        Some(t) => Some(t@),
        None => None,
    }
}

/// The media type of a file with this extension; empty where the file has no
/// extension or no media type is known for it.
pub fn mime_type_of(extension: &Option<String>) -> (mime: String)
    ensures
        mime@ == mime_text(text_of(*extension)),
{
    match extension {
        Some(e) => match guess_from_ext(e.as_str()) {
            Some(m) => m,
            None => String::new(),
        },
        None => String::new(),
    }
}

/// The media type of the file at `file_path`, guessed from the extension of
/// its name; empty where none is known. The file is not looked at. The name is
/// what the platform takes for the last part of the path; for a path that
/// reads the same on every platform, it is what follows the last slash.
pub fn get_mime_type(file_path: &str) -> (mime: String)
    ensures
        exists|extension: Option<Seq<char>>| mime@ == #[trigger] mime_text(extension),
        is_portable(file_path@) ==> mime@ == mime_text(
            extension_of_name(final_name(file_path@)),
        ),
{
    let extension = path_extension(file_path);
    let mime = mime_type_of(&extension);
    assert(mime@ == mime_text(text_of(extension)));
    mime
}

/// The directory entry for what was found at `full_path`. The media type is
/// guessed only where it is asked for.
pub fn dirent(
    name: String,
    parent_path: String,
    full_path: String,
    attributes: FileAttribute,
    with_mime_type: bool,
) -> (entry: Dirent)
    ensures
        entry.name == name,
        entry.parent_path == parent_path,
        entry.full_path == full_path,
        entry.attributes == attributes,
        !with_mime_type ==> entry.mime_type@.len() == 0,
        with_mime_type ==> exists|extension: Option<Seq<char>>|
            entry.mime_type@ == #[trigger] mime_text(extension),
        with_mime_type && is_portable(full_path@) ==> entry.mime_type@ == mime_text(
            extension_of_name(final_name(full_path@)),
        ),
{
    let mime_type = if with_mime_type {
        get_mime_type(full_path.as_str())
    } else {
        String::new()
    };
    Dirent { name, parent_path, full_path, attributes, mime_type }
}

/// The entry for an item that the recycle bin lists, with the media type
/// guessed from the path it was deleted from.
pub fn recycle_bin_entry(
    trash_identifier: String,
    original_path: String,
    deleted_at: u64,
    attributes: FileAttribute,
) -> (entry: RecycleBinEntry)
    ensures
        entry.trash_identifier == trash_identifier,
        entry.original_path == original_path,
        entry.deleted_at == deleted_at,
        entry.attributes == attributes,
        exists|extension: Option<Seq<char>>| entry.mime_type@ == #[trigger] mime_text(extension),
        is_portable(original_path@) ==> entry.mime_type@ == mime_text(
            extension_of_name(final_name(original_path@)),
        ),
{
    let mime_type = get_mime_type(original_path.as_str());
    RecycleBinEntry { trash_identifier, original_path, deleted_at, attributes, mime_type }
}

} // verus!
