//! The thumbnail toolbar of a window and the words of a window message.

use crate::util::{find_char, first_of};
use crate::{AppInfo, RgbaIcon, ThumbButton};
use vstd::prelude::*;
use vstd::string::{StrSliceExecFns, StringExecFns};

verus! {

/// A thumbnail toolbar always has this many places.
pub const THUMB_BUTTON_LIMIT: usize = 7;

/// The notification code of a click on a thumbnail button.
pub const THBN_CLICKED: u16 = 0x1800;

/// One place of the thumbnail toolbar.
#[derive(Debug)]
pub enum ThumbSlot {
    /// A place that shows nothing, kept so that a later button can take it.
    Hidden { id: u32 },
    /// A place that shows a button of the caller's.
    Shown { id: u32, button: ThumbButton },
}

/// The low 16 bits of a message word.
#[allow(non_snake_case)]
pub fn LOWORD(dword: u32) -> (word: u16)
    ensures
        word == dword % 0x1_0000,
{
    assert(dword & 0xFFFF == dword % 0x1_0000) by (bit_vector);
    (dword & 0xFFFF) as u16
}

/// The high 16 bits of a message word.
#[allow(non_snake_case)]
pub fn HIWORD(dword: u32) -> (word: u16)
    ensures
        word == dword / 0x1_0000,
{
    assert((dword & 0xFFFF_0000) >> 16 == dword / 0x1_0000) by (bit_vector);
    ((dword & 0xFFFF_0000) >> 16) as u16
}

/// Whether `slots` are the toolbar for `buttons`: seven places, numbered from
/// zero, the first of them showing the buttons in their order and the rest
/// hidden.
pub open spec fn lays_out(slots: Seq<ThumbSlot>, buttons: Seq<ThumbButton>) -> bool {
    &&& slots.len() == THUMB_BUTTON_LIMIT
    &&& forall|i: int|
        0 <= i < slots.len() ==> #[trigger] slots[i] == if i < buttons.len() {
            ThumbSlot::Shown { id: i as u32, button: buttons[i] }
        } else {
            ThumbSlot::Hidden { id: i as u32 }
        }
}

fn copy_of_button(button: &ThumbButton) -> (copy: ThumbButton)
    ensures
        copy == *button,
{
    ThumbButton {
        id: button.id.clone(),
        tool_tip: match &button.tool_tip {
            Some(tip) => Some(tip.clone()),
            None => None,
        },
        icon: button.icon.clone(),
    }
}

/// Lays out the thumbnail toolbar for `buttons`. There are always seven
/// places, so that later buttons can replace earlier ones; buttons beyond the
/// seventh are not shown.
pub fn set_thumbar_buttons(buttons: &Vec<ThumbButton>) -> (slots: Vec<ThumbSlot>)
    ensures
        lays_out(slots@, buttons@),
{
    let mut slots: Vec<ThumbSlot> = Vec::new();
    let mut i: usize = 0;
    while i < THUMB_BUTTON_LIMIT
        invariant
            0 <= i <= THUMB_BUTTON_LIMIT,
            slots.len() == i,
            forall|k: int|
                0 <= k < i ==> #[trigger] slots@[k] == if k < buttons.len() {
                    ThumbSlot::Shown { id: k as u32, button: buttons@[k] }
                } else {
                    ThumbSlot::Hidden { id: k as u32 }
                },
        decreases THUMB_BUTTON_LIMIT - i,
    {
        if i >= buttons.len() {
            slots.push(ThumbSlot::Hidden { id: i as u32 });
        } else {
            slots.push(ThumbSlot::Shown { id: i as u32, button: copy_of_button(&buttons[i]) });
        }
        i = i + 1;
    }
    slots
}

/// Whether `slot` shows a button at place number `place`.
pub open spec fn shows(slot: ThumbSlot, place: int) -> bool {
    match slot {
        ThumbSlot::Shown { id, .. } => id == place,
        ThumbSlot::Hidden { .. } => false,
    }
}

/// Whether `i` is the first of `slots` that shows a button at `place`.
pub open spec fn first_showing(slots: Seq<ThumbSlot>, place: int, i: int) -> bool {
    &&& 0 <= i < slots.len()
    &&& shows(slots[i], place)
    &&& forall|k: int| 0 <= k < i ==> !shows(#[trigger] slots[k], place)
}

/// The button that a command message reports as clicked: the message must
/// carry the click notification in its high word, and its low word must be the
/// number of a place that shows a button.
pub fn clicked_button(slots: &Vec<ThumbSlot>, wparam: u32) -> (id: Option<String>)
    ensures
        match id {
            Some(button_id) => {
                &&& wparam / 0x1_0000 == THBN_CLICKED
                &&& exists|i: int|
                    first_showing(slots@, (wparam % 0x1_0000) as int, i) && (
                    #[trigger] slots@[i])->Shown_button.id == button_id
            },
            None => {
                ||| wparam / 0x1_0000 != THBN_CLICKED
                ||| forall|i: int|
                    0 <= i < slots@.len() ==> !shows(#[trigger] slots@[i], (wparam % 0x1_0000) as int)
            },
        },
{
    if HIWORD(wparam) != THBN_CLICKED {
        return None;
    }
    let wanted: u32 = LOWORD(wparam) as u32;
    let mut i: usize = 0;
    while i < slots.len()
        invariant
            0 <= i <= slots.len(),
            wanted == wparam % 0x1_0000,
            wparam / 0x1_0000 == THBN_CLICKED,
            forall|k: int| 0 <= k < i ==> !shows(#[trigger] slots@[k], wanted as int),
        decreases slots.len() - i,
    {
        if let ThumbSlot::Shown { id, button } = &slots[i] {
            if *id == wanted {
                assert(first_showing(slots@, wanted as int, i as int));
                return Some(button.id.clone());
            }
        }
        i = i + 1;
    }
    None
}

/// Whether an icon location names a packaged application: it begins with `@`.
pub fn is_uwp(icon_location: &str) -> (packaged: bool)
    ensures
        packaged == (icon_location@.len() > 0 && icon_location@[0] == '@'),
{
    icon_location.unicode_len() > 0 && icon_location.get_char(0) == '@'
}

/// The application id in an icon location: what stands between the first `{`
/// and the first `?`, where the `?` comes after the `{`.
pub open spec fn model_id_in(input: Seq<char>, id: Seq<char>) -> bool {
    exists|start: int, end: int|
        #![trigger first_of(input, '{', start), first_of(input, '?', end)]
        first_of(input, '{', start) && first_of(input, '?', end) && start < end && id
            == input.subrange(start + 1, end)
}

/// Takes the application id out of the icon location of a packaged
/// application. `None` where the location holds no `{` followed by a `?`.
pub fn extract_app_user_model_id(input: &str) -> (id: Option<String>)
    ensures
        match id {
            Some(text) => model_id_in(input@, text@),
            None => forall|text: Seq<char>| !model_id_in(input@, text),
        },
{
    match find_char(input, '{') {
        Some(start) => match find_char(input, '?') {
            Some(end) => {
                if start < end {
                    let text = input.substring_char(start + 1, end).to_owned();
                    assert(first_of(input@, '{', start as int) && first_of(input@, '?', end as int));
                    Some(text)
                } else {
                    assert forall|text: Seq<char>| !model_id_in(input@, text) by {
                        if model_id_in(input@, text) {
                            let (s0, e0) = choose|s0: int, e0: int|
                                #![trigger first_of(input@, '{', s0), first_of(input@, '?', e0)]
                                first_of(input@, '{', s0) && first_of(input@, '?', e0) && s0 < e0
                                    && text == input@.subrange(s0 + 1, e0);
                            assert(s0 == start && e0 == end);
                        }
                    }
                    None
                }
            },
            None => None,
        },
        None => None,
    }
}

/// What a file operation came to: a failure counts as success where the
/// user aborted the operation.
pub fn execute(failure: Option<String>, aborted: bool) -> (result: Result<(), String>)
    ensures
        match failure {
            Some(message) => if aborted {
                result is Ok
            } else {
                result == Err::<(), String>(message)
            },
            None => result is Ok,
        },
{
    match failure {
        Some(message) => if aborted {
            Ok(())
        } else {
            Err(message)
        },
        None => Ok(()),
    }
}

/// The application that opens a file, as it is listed. A packaged application
/// is started through the applications folder by its id, any other by its
/// path.
pub fn app_info(path: String, name: String, icon: String, model_id: Option<String>) -> (app: AppInfo)
    ensures
        app.name == name,
        app.icon == icon,
        match model_id {
            Some(id) => app.path@ == "shell:AppsFolder\\"@ + id@,
            None => app.path == path,
        },
{
    let path = match model_id {
        Some(id) => {
            let mut started = String::new();
            started.append("shell:AppsFolder\\");
            started.append(id.as_str());
            assert(started@ =~= "shell:AppsFolder\\"@ + id@);
            started
        },
        None => path,
    };
    AppInfo { path, name, icon }
}

/// Bytes that the pixels of an icon take: four for each pixel. `None` where
/// that many cannot be held in memory.
pub fn rgba_buffer_len(width: u32, height: u32) -> (len: Option<usize>)
    ensures
        match len {
            Some(n) => n == 4 * (width * height),
            None => 4 * (width * height) > usize::MAX,
        },
{
    assert(0 <= width * height <= 0xFFFF_FFFF * 0xFFFF_FFFF) by (nonlinear_arith)
        requires
            0 <= width <= 0xFFFF_FFFF,
            0 <= height <= 0xFFFF_FFFF,
    ;
    let wide: u128 = 4 * ((width as u128) * (height as u128));
    if wide > usize::MAX as u128 {
        None
    } else {
        Some(wide as usize)
    }
}

/// The icon that was read, if there are four bytes for each of its pixels.
pub fn rgba_icon(rgba: Vec<u8>, width: u32, height: u32) -> (icon: Option<RgbaIcon>)
    ensures
        icon is Some <==> rgba@.len() == 4 * (width * height),
        icon matches Some(i) ==> i.rgba == rgba && i.width == width && i.height == height,
{
    let len = rgba.len();
    match rgba_buffer_len(width, height) {
        Some(n) => {
            if len == n {
                Some(RgbaIcon { rgba, width, height })
            } else {
                None
            }
        },
        None => None,
    }
}

} // verus!
