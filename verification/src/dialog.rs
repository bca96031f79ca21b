//! What the message, open and save dialogs are asked to show, and how their
//! answers are read.

use vstd::prelude::*;
use vstd::string::StrSliceExecFns;

verus! {

/// The kind of message a dialog carries.
#[derive(Debug, Clone, Copy, PartialEq, Eq, Structural)]
pub enum MessageDialogKind {
    Info,
    Warning,
    Error,
}

/// A message dialog: up to three buttons, and which of them cancels.
#[derive(Debug)]
pub struct MessageDialogOptions {
    pub title: Option<String>,
    pub kind: Option<MessageDialogKind>,
    pub buttons: Vec<String>,
    pub message: String,
    /// The position of the button that cancels, where the caller names it.
    pub cancel_id: Option<u32>,
}

/// What an open dialog lets the user pick.
#[derive(Debug, Clone, Copy, PartialEq, Eq, Structural)]
pub enum OpenProperty {
    OpenFile,
    OpenDirectory,
    MultiSelections,
}

#[derive(Debug)]
pub struct OpenDialogOptions {
    pub title: Option<String>,
    pub default_path: Option<String>,
    pub filters: Option<Vec<FileFilter>>,
    pub properties: Option<Vec<OpenProperty>>,
}

#[derive(Debug)]
pub struct SaveDialogOptions {
    pub title: Option<String>,
    pub default_path: Option<String>,
    pub filters: Option<Vec<FileFilter>>,
}

/// A named group of file extensions.
#[derive(Debug)]
pub struct FileFilter {
    pub name: String,
    pub extensions: Vec<String>,
}

/// What a file dialog came back with.
#[derive(Debug)]
pub struct FileDialogResult {
    pub canceled: bool,
    pub file_paths: Vec<String>,
}

/// How a message dialog was answered.
#[derive(Debug)]
pub enum MessageDialogResult {
    Okay,
    Cancel,
    Yes,
    No,
    /// A button with a label of the caller's, by that label.
    Custom(String),
}

/// The buttons that a message dialog is given.
#[derive(Debug)]
pub enum MessageButtons {
    Okay,
    OkCustom(String),
    OkCancelCustom(String, String),
    YesNoCancelCustom(String, String, String),
}

/// What a file dialog is asked to pick.
#[derive(Debug, Clone, Copy, PartialEq, Eq, Structural)]
pub struct PickMode {
    /// Several items rather than one.
    pub multiple: bool,
    /// Files rather than directories.
    pub files: bool,
}

/// Whether each text of `texts` reads as the text of `strs` at its place.
pub open spec fn same_texts(texts: Seq<String>, strs: Seq<&str>) -> bool {
    &&& texts.len() == strs.len()
    &&& forall|i: int| 0 <= i < texts.len() ==> (#[trigger] texts[i])@ == strs[i]@
}

impl FileFilter {
    /// A filter called `name` for `extensions`, in their order.
    pub fn new(name: &str, extensions: &[&str]) -> (filter: Self)
        ensures
            filter.name@ == name@,
            same_texts(filter.extensions@, extensions@),
    {
        let mut owned: Vec<String> = Vec::new();
        let mut i: usize = 0;
        while i < extensions.len()
            invariant
                0 <= i <= extensions.len(),
                owned.len() == i,
                forall|k: int| 0 <= k < i ==> (#[trigger] owned@[k])@ == extensions@[k]@,
            decreases extensions.len() - i,
        {
            owned.push(extensions[i].to_owned());
            i = i + 1;
        }
        FileFilter { name: name.to_owned(), extensions: owned }
    }
}

impl Default for FileDialogResult {
    /// A dialog that was cancelled: nothing was picked.
    fn default() -> (result: Self)
        ensures
            result.canceled,
            result.file_paths@.len() == 0,
    {
        FileDialogResult { canceled: true, file_paths: Vec::new() }
    }
}

/// What a dialog came back with: the paths that were picked, or a cancelled
/// dialog where nothing was.
pub fn dialog_result(picked: Option<Vec<String>>) -> (result: FileDialogResult)
    ensures
        result.canceled == picked is None,
        match picked {
            Some(paths) => result.file_paths == paths,
            None => result.file_paths@.len() == 0,
        },
{
    match picked {
        Some(paths) => FileDialogResult { canceled: false, file_paths: paths },
        None => FileDialogResult { canceled: true, file_paths: Vec::new() },
    }
}

/// The level at which a message is shown: its kind, and `Info` where it has
/// none.
pub fn get_level(kind: &Option<MessageDialogKind>) -> (level: MessageDialogKind)
    ensures
        level == match *kind {
            Some(k) => k,
            None => MessageDialogKind::Info,
        },
{
    match kind {
        Some(k) => *k,
        None => MessageDialogKind::Info,
    }
}

/// An ASCII capital letter as its small letter; any other character as it is.
pub open spec fn ascii_lower(c: char) -> char {
    if 'A' <= c && c <= 'Z' {
        ((c as u8) + 32) as char
    } else {
        c
    }
}

/// Whether two texts are equal up to the case of their ASCII letters.
pub open spec fn same_ignoring_ascii_case(a: Seq<char>, b: Seq<char>) -> bool {
    &&& a.len() == b.len()
    &&& forall|i: int| 0 <= i < a.len() ==> ascii_lower(#[trigger] a[i]) == ascii_lower(b[i])
}

fn lower(c: char) -> (l: char)
    ensures
        l == ascii_lower(c),
{
    if 'A' <= c && c <= 'Z' {
        ((c as u8) + 32) as char
    } else {
        c
    }
}

/// Compares two texts, taking `A` to `Z` for `a` to `z`.
pub fn eq_ignore_ascii_case(a: &str, b: &str) -> (same: bool)
    ensures
        same == same_ignoring_ascii_case(a@, b@),
{
    let n = a.unicode_len();
    if n != b.unicode_len() {
        return false;
    }
    let mut i: usize = 0;
    while i < n
        invariant
            0 <= i <= n,
            n == a@.len(),
            n == b@.len(),
            forall|k: int| 0 <= k < i ==> ascii_lower(#[trigger] a@[k]) == ascii_lower(b@[k]),
        decreases n - i,
    {
        if lower(a.get_char(i)) != lower(b.get_char(i)) {
            return false;
        }
        i = i + 1;
    }
    true
}

/// Whether a button with this label stands for "no, do not": it reads `Cancel`
/// or `No`, in any case of letters.
pub open spec fn declines(label: Seq<char>) -> bool {
    same_ignoring_ascii_case(label, "Cancel"@) || same_ignoring_ascii_case(label, "No"@)
}

/// The position of the button that cancels where the caller has not named
/// one: the first that declines.
pub open spec fn first_declining(buttons: Seq<String>, i: int) -> bool {
    &&& 0 <= i < buttons.len()
    &&& declines(buttons[i]@)
    &&& forall|k: int| 0 <= k < i ==> !declines((#[trigger] buttons[k])@)
}

/// The label of the button that counts as cancelling. Where the caller names
/// the button, it is that one, and no label if there is no such button. Else
/// it is the first button that reads `Cancel` or `No`, and no label if none
/// does.
pub fn cancel_label(options: &MessageDialogOptions) -> (label: String)
    ensures
        match options.cancel_id {
            Some(id) => if id < options.buttons@.len() {
                label@ == options.buttons@[id as int]@
            } else {
                label@.len() == 0
            },
            None => {
                ||| exists|i: int|
                    first_declining(options.buttons@, i) && label@ == (
                    #[trigger] options.buttons@[i])@
                ||| label@.len() == 0 && forall|k: int|
                    0 <= k < options.buttons@.len() ==> !declines((#[trigger] options.buttons@[k])@)
            },
        },
{
    match options.cancel_id {
        Some(id) => {
            let at = id as usize;
            if at < options.buttons.len() {
                options.buttons[at].clone()
            } else {
                String::new()
            }
        },
        None => {
            let mut i: usize = 0;
            while i < options.buttons.len()
                invariant
                    0 <= i <= options.buttons.len(),
                    options.cancel_id is None,
                    forall|k: int| 0 <= k < i ==> !declines((#[trigger] options.buttons@[k])@),
                decreases options.buttons.len() - i,
            {
                let button = options.buttons[i].as_str();
                if eq_ignore_ascii_case(button, "Cancel") || eq_ignore_ascii_case(button, "No") {
                    assert(first_declining(options.buttons@, i as int));
                    return options.buttons[i].clone();
                }
                i = i + 1;
            }
            String::new()
        },
    }
}

/// Reads the answer of a message dialog: whether the user agreed. A button
/// with a label of the caller's agrees unless it is the one that cancels.
pub fn parse_result(cancel_label: String, result: MessageDialogResult) -> (agreed: bool)
    ensures
        agreed == match result {
            MessageDialogResult::Okay => true,
            MessageDialogResult::Cancel => false,
            MessageDialogResult::Yes => true,
            MessageDialogResult::No => false,
            MessageDialogResult::Custom(label) => cancel_label@ != label@,
        },
{
    match result {
        MessageDialogResult::Okay => true,
        MessageDialogResult::Cancel => false,
        MessageDialogResult::Yes => true,
        MessageDialogResult::No => false,
        MessageDialogResult::Custom(label) => cancel_label != label,
    }
}

/// The buttons of a message dialog: one, two or three labels of the caller's
/// make one, two or three buttons; any other number makes a plain OK.
pub fn message_buttons(buttons: &Vec<String>) -> (set: MessageButtons)
    ensures
        match set {
            MessageButtons::Okay => buttons@.len() == 0 || buttons@.len() > 3,
            MessageButtons::OkCustom(a) => buttons@.len() == 1 && a@ == buttons@[0]@,
            MessageButtons::OkCancelCustom(a, b) => buttons@.len() == 2 && a@ == buttons@[0]@ && b@
                == buttons@[1]@,
            MessageButtons::YesNoCancelCustom(a, b, c) => buttons@.len() == 3 && a@ == buttons@[0]@
                && b@ == buttons@[1]@ && c@ == buttons@[2]@,
        },
{
    if buttons.len() == 1 {
        MessageButtons::OkCustom(buttons[0].clone())
    } else if buttons.len() == 2 {
        MessageButtons::OkCancelCustom(buttons[0].clone(), buttons[1].clone())
    } else if buttons.len() == 3 {
        MessageButtons::YesNoCancelCustom(
            buttons[0].clone(),
            buttons[1].clone(),
            buttons[2].clone(),
        )
    } else {
        MessageButtons::Okay
    }
}

/// Whether `wanted` is among `properties`.
pub open spec fn has_property(properties: Seq<OpenProperty>, wanted: OpenProperty) -> bool {
    exists|i: int| 0 <= i < properties.len() && #[trigger] properties[i] == wanted
}

fn contains_property(properties: &Vec<OpenProperty>, wanted: OpenProperty) -> (found: bool)
    ensures
        found == has_property(properties@, wanted),
{
    let mut i: usize = 0;
    while i < properties.len()
        invariant
            0 <= i <= properties.len(),
            forall|k: int| 0 <= k < i ==> #[trigger] properties@[k] != wanted,
        decreases properties.len() - i,
    {
        if properties[i] == wanted {
            return true;
        }
        i = i + 1;
    }
    false
}

/// What an open dialog picks, by its properties.
pub open spec fn pick_mode_of(properties: Option<Vec<OpenProperty>>) -> PickMode {
    match properties {
        Some(p) => PickMode {
            multiple: has_property(p@, OpenProperty::MultiSelections),
            files: has_property(p@, OpenProperty::OpenFile),
        },
        None => PickMode { multiple: false, files: true },
    }
}

/// What an open dialog picks: several items where `MultiSelections` is asked
/// for, files where `OpenFile` is. Without properties it picks one file.
pub fn pick_mode(options: &OpenDialogOptions) -> (mode: PickMode)
    ensures
        mode == pick_mode_of(options.properties),
{
    match &options.properties {
        Some(p) => PickMode {
            multiple: contains_property(p, OpenProperty::MultiSelections),
            files: contains_property(p, OpenProperty::OpenFile),
        },
        None => PickMode { multiple: false, files: true },
    }
}

/// What a save dialog is set up with.
#[derive(Debug)]
pub struct SaveDialogSetup {
    /// The title; empty where the caller gives none.
    pub title: String,
    /// Where the dialog starts and what it proposes, as the caller gave it.
    pub default_path: Option<String>,
    pub filters: Vec<FileFilter>,
}

/// Sets up a save dialog from its options. The filters are those of the
/// caller, or the one filter `All Files (*.*)` without extensions where the
/// caller gives none.
pub fn save_filters(options: SaveDialogOptions) -> (setup: SaveDialogSetup)
    ensures
        setup.default_path == options.default_path,
        match options.title {
            Some(t) => setup.title == t,
            None => setup.title@.len() == 0,
        },
        match options.filters {
            Some(f) => setup.filters == f,
            None => setup.filters@.len() == 1 && setup.filters@[0].name@ == "All Files (*.*)"@
                && setup.filters@[0].extensions@.len() == 0,
        },
{
    let title = match options.title {
        Some(t) => t,
        None => String::new(),
    };
    let filters = match options.filters {
        Some(f) => f,
        None => {
            let mut shown: Vec<FileFilter> = Vec::new();
            shown.push(FileFilter { name: "All Files (*.*)".to_owned(), extensions: Vec::new() });
            shown
        },
    };
    SaveDialogSetup { title, default_path: options.default_path, filters }
}

} // verus!
