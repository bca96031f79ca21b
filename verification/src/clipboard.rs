//! What the clipboard holds and what is meant to happen to it.

use crate::{ClipboardData, Operation};
use vstd::prelude::*;

verus! {

/// The drop effect "copy".
pub const DROPEFFECT_COPY: u32 = 1;

/// The drop effect "move".
pub const DROPEFFECT_MOVE: u32 = 2;

/// The drop effect "none".
pub const DROPEFFECT_NONE: u32 = 0;

/// Whether text is on the clipboard: in the ANSI or in the Unicode format.
pub fn is_text_available(ansi: bool, unicode: bool) -> (available: bool)
    ensures
        available == (ansi || unicode),
{
    ansi || unicode
}

/// The operation that a preferred drop effect asks for: copy where the copy
/// bit is set, else move where the move bit is set, else none.
pub open spec fn operation_of(drop_effect: u32) -> Operation {
    if drop_effect & DROPEFFECT_COPY != 0 {
        Operation::Copy
    } else if drop_effect & DROPEFFECT_MOVE != 0 {
        Operation::Move
    } else {
        Operation::NoOperation
    }
}

/// Reads the operation from the preferred drop effect on the clipboard; no
/// operation where the clipboard names none.
pub fn get_preferred_drop_effect(drop_effect: Option<u32>) -> (operation: Operation)
    ensures
        operation == match drop_effect {
            Some(effect) => operation_of(effect),
            None => Operation::NoOperation,
        },
{
    match drop_effect {
        Some(effect) => {
            if (effect & DROPEFFECT_COPY) != 0 {
                Operation::Copy
            } else if (effect & DROPEFFECT_MOVE) != 0 {
                Operation::Move
            } else {
                Operation::NoOperation
            }
        },
        None => Operation::NoOperation,
    }
}

/// The drop effect that is written for an operation. Read back it gives the
/// operation.
pub fn drop_effect_of(operation: Operation) -> (effect: u32)
    ensures
        effect == match operation {
            Operation::Copy => DROPEFFECT_COPY,
            Operation::Move => DROPEFFECT_MOVE,
            Operation::NoOperation => DROPEFFECT_NONE,
        },
        operation_of(effect) == operation,
{
    assert(1u32 & 1u32 != 0) by (bit_vector);
    assert(2u32 & 1u32 == 0) by (bit_vector);
    assert(2u32 & 2u32 != 0) by (bit_vector);
    assert(0u32 & 1u32 == 0) by (bit_vector);
    assert(0u32 & 2u32 == 0) by (bit_vector);
    match operation {
        Operation::Copy => DROPEFFECT_COPY,
        Operation::Move => DROPEFFECT_MOVE,
        Operation::NoOperation => DROPEFFECT_NONE,
    }
}

/// What was read from the clipboard: the paths on it and the operation meant
/// for them; nothing where no paths are on it.
pub fn read_uris(urls: Option<Vec<String>>, drop_effect: Option<u32>) -> (data: ClipboardData)
    ensures
        match urls {
            Some(u) => data.urls == u && data.operation == match drop_effect {
                Some(effect) => operation_of(effect),
                None => Operation::NoOperation,
            },
            None => data.urls@.len() == 0 && data.operation == Operation::NoOperation,
        },
{
    match urls {
        Some(u) => ClipboardData { operation: get_preferred_drop_effect(drop_effect), urls: u },
        None => ClipboardData { operation: Operation::NoOperation, urls: Vec::new() },
    }
}

} // verus!
