//! Small things about paths and names.

use vstd::prelude::*;
use vstd::string::{StrSliceExecFns, StringExecFns, StringSliceAdditionalSpecFns};

verus! {

/// Paths of this many bytes and more need the long-path prefix.
pub const MAX_PATH: usize = 260;

/// The position of the first `wanted` in `text`, if there is one.
pub open spec fn first_of(text: Seq<char>, wanted: char, at: int) -> bool {
    &&& 0 <= at < text.len()
    &&& text[at] == wanted
    &&& forall|k: int| 0 <= k < at ==> text[k] != wanted
}

/// Finds the first `wanted` in `text`.
pub fn find_char(text: &str, wanted: char) -> (found: Option<usize>)
    ensures
        match found {
            Some(at) => first_of(text@, wanted, at as int),
            None => forall|k: int| 0 <= k < text@.len() ==> text@[k] != wanted,
        },
{
    let n = text.unicode_len();
    let mut i: usize = 0;
    while i < n
        invariant
            0 <= i <= n,
            n == text@.len(),
            forall|k: int| 0 <= k < i ==> text@[k] != wanted,
        decreases n - i,
    {
        if text.get_char(i) == wanted {
            return Some(i);
        }
        i = i + 1;
    }
    None
}

/// The URI of a local file: `file://` and the path.
pub fn file_uri(path: &str) -> (uri: String)
    ensures
        uri@ == "file://"@ + path@,
{
    let mut uri = String::new();
    uri.append("file://");
    uri.append(path);
    assert(uri@ =~= "file://"@ + path@);
    uri
}

/// Whether `text` begins with two backslashes.
pub open spec fn is_network_path(text: Seq<char>) -> bool {
    text.len() >= 2 && text[0] == '\\' && text[1] == '\\'
}

/// A path as the system calls for long paths want it: a path of `MAX_PATH`
/// bytes or more gets the prefix `\\?\`, a network path of that length
/// `\\?\UNC\` in place of its two backslashes. A shorter path stays as it is.
pub open spec fn prefixed_path(path: Seq<char>, bytes: int) -> Seq<char> {
    if bytes < MAX_PATH {
        path
    } else if is_network_path(path) {
        "\\\\?\\UNC\\"@ + path.subrange(2, path.len() as int)
    } else {
        "\\\\?\\"@ + path
    }
}

/// Prefixes a path that is too long for the plain system calls.
pub fn prefixed(path: &str) -> (result: String)
    ensures
        result@ == prefixed_path(path@, path.spec_bytes().len() as int),
{
    if path.as_bytes().len() >= MAX_PATH {
        let n = path.unicode_len();
        if n >= 2 && path.get_char(0) == '\\' && path.get_char(1) == '\\' {
            let mut result = String::new();
            result.append("\\\\?\\UNC\\");
            result.append(path.substring_char(2, n));
            assert(result@ =~= "\\\\?\\UNC\\"@ + path@.subrange(2, path@.len() as int));
            result
        } else {
            let mut result = String::new();
            result.append("\\\\?\\");
            result.append(path);
            assert(result@ =~= "\\\\?\\"@ + path@);
            result
        }
    } else {
        path.to_owned()
    }
}

} // verus!
