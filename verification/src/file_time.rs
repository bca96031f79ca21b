//! Times and attributes as the Windows file system hands them out.
//!
//! A file time counts intervals of 100 nanoseconds since 1601 in two 32-bit
//! halves; the library speaks of milliseconds since 1970.

use crate::FileAttribute;
use vstd::prelude::*;

verus! {

/// Milliseconds from 1601 to 1970.
pub const EPOCH_DIFFERENCE: u64 = 11644473600000;

/// Intervals of 100 nanoseconds in a millisecond.
pub const INTERVALS_PER_MS: u64 = 10000;

/// The latest time, in milliseconds since 1970, that a file time can hold.
pub const LATEST_MS: u64 = 1833029933770955;

pub const FILE_ATTRIBUTE_READONLY: u32 = 0x1;

pub const FILE_ATTRIBUTE_HIDDEN: u32 = 0x2;

pub const FILE_ATTRIBUTE_SYSTEM: u32 = 0x4;

pub const FILE_ATTRIBUTE_DIRECTORY: u32 = 0x10;

pub const FILE_ATTRIBUTE_DEVICE: u32 = 0x40;

pub const FILE_ATTRIBUTE_REPARSE_POINT: u32 = 0x400;

/// What kind of thing a directory entry is.
#[derive(Debug, Clone, Copy, PartialEq, Eq, Structural)]
pub enum FileType {
    Device,
    Link,
    Dir,
    File,
}

/// What a directory search reports of one entry.
#[derive(Debug, Clone, Copy, PartialEq, Eq, Structural)]
pub struct FindData {
    pub attributes: u32,
    pub creation_low: u32,
    pub creation_high: u32,
    pub last_access_low: u32,
    pub last_access_high: u32,
    pub last_write_low: u32,
    pub last_write_high: u32,
    pub size_low: u32,
    pub size_high: u32,
}

/// The number that two 32-bit halves make.
pub open spec fn joined(low: u32, high: u32) -> nat {
    (high as nat) * 0x1_0000_0000 + low as nat
}

/// A file time in milliseconds since 1970; zero for a time before 1970.
pub open spec fn msecs_of(low: u32, high: u32) -> nat {
    let since_1601 = joined(low, high) / INTERVALS_PER_MS as nat;
    if since_1601 >= EPOCH_DIFFERENCE {
        (since_1601 - EPOCH_DIFFERENCE) as nat
    } else {
        0
    }
}

fn join(low: u32, high: u32) -> (whole: u64)
    ensures
        whole == joined(low, high),
{
    assert(((high as u64) << 32) | (low as u64) == (high as u64) * 0x1_0000_0000 + (low as u64))
        by (bit_vector);
    ((high as u64) << 32) | (low as u64)
}

/// Converts a file time to milliseconds since 1970. A time before 1970 gives
/// zero.
pub fn to_msecs_from_file_time(low: u32, high: u32) -> (msecs: u64)
    ensures
        msecs == msecs_of(low, high),
{
    let ticks = join(low, high);
    let milliseconds = ticks / INTERVALS_PER_MS;
    milliseconds.saturating_sub(EPOCH_DIFFERENCE)
}

/// Converts milliseconds since 1970 to the two halves of a file time, the low
/// one first. `None` for a time later than a file time can hold. Converted
/// back, the halves give the milliseconds.
pub fn to_file_time(time: u64) -> (halves: Option<(u32, u32)>)
    ensures
        halves is Some <==> time <= LATEST_MS,
        halves matches Some((low, high)) ==> {
            &&& joined(low, high) == (time + EPOCH_DIFFERENCE) * INTERVALS_PER_MS
            &&& msecs_of(low, high) == time
        },
{
    if time > LATEST_MS {
        return None;
    }
    let intervals: u64 = (time + EPOCH_DIFFERENCE) * INTERVALS_PER_MS;
    let low = (intervals & 0xFFFF_FFFF) as u32;
    let high = (intervals >> 32) as u32;
    assert((intervals >> 32) * 0x1_0000_0000 + (intervals & 0xFFFF_FFFF) == intervals)
        by (bit_vector);
    assert(intervals >> 32 <= 0xFFFF_FFFF) by (bit_vector);
    assert(intervals & 0xFFFF_FFFF <= 0xFFFF_FFFF) by (bit_vector);
    Some((low, high))
}

/// The kind of an entry by its attribute bits: a device, else a directory,
/// else a link where it is a reparse point or a shortcut file, else a file.
pub open spec fn file_type_of(attr: u32, is_shortcut: bool) -> FileType {
    if attr & FILE_ATTRIBUTE_DEVICE != 0 {
        FileType::Device
    } else if attr & FILE_ATTRIBUTE_DIRECTORY != 0 {
        FileType::Dir
    } else if attr & FILE_ATTRIBUTE_REPARSE_POINT != 0 || is_shortcut {
        FileType::Link
    } else {
        FileType::File
    }
}

/// Tells the kind of an entry from its attribute bits. `is_shortcut`: the
/// entry's name ends in `.lnk`.
pub fn get_file_type(attr: u32, is_shortcut: bool) -> (file_type: FileType)
    ensures
        file_type == file_type_of(attr, is_shortcut),
{
    if attr & FILE_ATTRIBUTE_DEVICE != 0 {
        return FileType::Device;
    }
    if attr & FILE_ATTRIBUTE_DIRECTORY != 0 {
        return FileType::Dir;
    }
    if attr & FILE_ATTRIBUTE_REPARSE_POINT != 0 || is_shortcut {
        return FileType::Link;
    }
    FileType::File
}

/// What a link resolves to, where the entry is one. A link that could not be
/// read counts as a plain file; one that could is a directory where its
/// target has no working directory, else a file.
pub fn get_link_path(loaded: bool, working_directory_empty: bool) -> (resolved: (FileType, bool))
    ensures
        resolved == if !loaded {
            (FileType::File, false)
        } else if working_directory_empty {
            (FileType::Dir, true)
        } else {
            (FileType::File, true)
        },
{
    if !loaded {
        (FileType::File, false)
    } else if working_directory_empty {
        (FileType::Dir, true)
    } else {
        (FileType::File, true)
    }
}

/// The attributes of an entry. `file_type` and `is_symbolic_link` are the
/// entry's kind after a link was resolved.
pub fn get_attribute(data: &FindData, file_type: FileType, is_symbolic_link: bool) -> (attributes:
    FileAttribute)
    ensures
        attributes == (FileAttribute {
            is_directory: file_type == FileType::Dir,
            is_read_only: data.attributes & FILE_ATTRIBUTE_READONLY != 0,
            is_hidden: data.attributes & FILE_ATTRIBUTE_HIDDEN != 0,
            is_system: data.attributes & FILE_ATTRIBUTE_SYSTEM != 0,
            is_device: file_type == FileType::Device,
            is_symbolic_link,
            is_file: file_type == FileType::File,
            ctime_ms: 0,
            mtime_ms: msecs_of(data.last_write_low, data.last_write_high) as u64,
            atime_ms: msecs_of(data.last_access_low, data.last_access_high) as u64,
            birthtime_ms: msecs_of(data.creation_low, data.creation_high) as u64,
            size: joined(data.size_low, data.size_high) as u64,
        }),
{
    FileAttribute {
        is_directory: file_type == FileType::Dir,
        is_read_only: data.attributes & FILE_ATTRIBUTE_READONLY != 0,
        is_hidden: data.attributes & FILE_ATTRIBUTE_HIDDEN != 0,
        is_system: data.attributes & FILE_ATTRIBUTE_SYSTEM != 0,
        is_device: file_type == FileType::Device,
        is_symbolic_link,
        is_file: file_type == FileType::File,
        ctime_ms: 0,
        mtime_ms: to_msecs_from_file_time(data.last_write_low, data.last_write_high),
        atime_ms: to_msecs_from_file_time(data.last_access_low, data.last_access_high),
        birthtime_ms: to_msecs_from_file_time(data.creation_low, data.creation_high),
        size: join(data.size_low, data.size_high),
    }
}

} // verus!
