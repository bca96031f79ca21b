//! The volumes of the machine, read from the block device listing that
//! `lsblk --json` prints.

use crate::Volume;
use vstd::prelude::*;
use vstd::string::{StrSliceExecFns, StringExecFns};

verus! {

/// One partition of a block device, as far as the listing is read.
#[derive(Debug)]
pub struct Partition {
    /// `mountpoint`, where it is a text.
    pub mountpoint: Option<String>,
    /// `size`, where it is a number that fits 64 bits.
    pub size: Option<u64>,
    /// `fsavail`, where it is a number that fits 64 bits.
    pub fsavail: Option<u64>,
}

/// One block device, as far as the listing is read.
#[derive(Debug)]
pub struct BlockDevice {
    /// `type`, where it is a text.
    pub kind: Option<String>,
    /// `label` as JSON text, where it is not null.
    pub label: Option<String>,
    /// `vendor`, where it is a text.
    pub vendor: Option<String>,
    /// `model`, where it is a text.
    pub model: Option<String>,
    /// `children`, where it is an array.
    pub children: Option<Vec<Partition>>,
}

/// A partition as plain values.
pub struct PartitionView {
    pub mountpoint: Option<Seq<char>>,
    pub size: Option<u64>,
    pub fsavail: Option<u64>,
}

/// A block device as plain values.
pub struct BlockDeviceView {
    pub kind: Option<Seq<char>>,
    pub label: Option<Seq<char>>,
    pub vendor: Option<Seq<char>>,
    pub model: Option<Seq<char>>,
    pub children: Option<Seq<PartitionView>>,
}

/// A volume as plain values.
pub struct VolumeView {
    pub mount_point: Seq<char>,
    pub volume_label: Seq<char>,
    pub available_units: u64,
    pub total_units: u64,
}

/// The view of an optional text.
pub open spec fn text_view(text: Option<String>) -> Option<Seq<char>> {
    match text {
        Some(t) => Some(t@),
        None => None,
    }
}

impl View for Partition {
    type V = PartitionView;

    open spec fn view(&self) -> PartitionView {
        PartitionView {
            mountpoint: text_view(self.mountpoint),
            size: self.size,
            fsavail: self.fsavail,
        }
    }
}

/// The views of partitions.
pub open spec fn partition_views(partitions: Seq<Partition>) -> Seq<PartitionView> {
    Seq::new(partitions.len(), |i: int| partitions[i]@)
}

impl View for BlockDevice {
    type V = BlockDeviceView;

    open spec fn view(&self) -> BlockDeviceView {
        BlockDeviceView {
            kind: text_view(self.kind),
            label: text_view(self.label),
            vendor: text_view(self.vendor),
            model: text_view(self.model),
            children: match self.children {
                Some(c) => Some(partition_views(c@)),
                None => None,
            },
        }
    }
}

/// The views of block devices.
pub open spec fn device_views(devices: Seq<BlockDevice>) -> Seq<BlockDeviceView> {
    Seq::new(devices.len(), |i: int| devices[i]@)
}

/// The view of a volume.
pub open spec fn volume_view(volume: Volume) -> VolumeView {
    VolumeView {
        mount_point: volume.mount_point@,
        volume_label: volume.volume_label@,
        available_units: volume.available_units,
        total_units: volume.total_units,
    }
}

/// The views of volumes.
pub open spec fn volume_views(volumes: Seq<Volume>) -> Seq<VolumeView> {
    Seq::new(volumes.len(), |i: int| volume_view(volumes[i]))
}

/// What `serde_json` reads from a text: the error's message where the text is
/// not JSON, else the members of `blockdevices` where that is an array. Of
/// each member its `type`, `label`, `vendor`, `model` and `children` are read,
/// of each child its `mountpoint`, `size` and `fsavail`.
pub uninterp spec fn block_devices_of(output: Seq<char>) -> Result<
    Option<Seq<BlockDeviceView>>,
    Seq<char>,
>;

/// `serde_json::Value`: a JSON value. Nothing is seen of what it holds.
#[verifier::external_type_specification]
#[verifier::external_body]
pub struct ExJsonValue(serde_json::Value);

/// The members of a JSON value that are read of a partition: `Value`'s index
/// by key, then `as_str` and `as_u64`.
#[verifier::external_body]
fn partition_of(value: &serde_json::Value) -> Partition {
    Partition {
        mountpoint: value["mountpoint"].as_str().map(str::to_owned),
        size: value["size"].as_u64(),
        fsavail: value["fsavail"].as_u64(),
    }
}

/// The members of a JSON value that are read of a block device: `Value`'s
/// index by key, then `as_str`, `as_array`, and `to_string` for a label that is
/// not null.
#[verifier::external_body]
fn block_device_of(value: &serde_json::Value) -> BlockDevice {
    BlockDevice {
        kind: value["type"].as_str().map(str::to_owned),
        label: match &value["label"] {
            serde_json::Value::Null => None,
            other => Some(other.to_string()),
        },
        vendor: value["vendor"].as_str().map(str::to_owned),
        model: value["model"].as_str().map(str::to_owned),
        children: value["children"].as_array().map(|a| a.iter().map(partition_of).collect()),
    }
}

/// `serde_json::from_str` to a `Value`, then the members of `blockdevices`
/// read as block devices. What comes back depends on the text alone: the
/// error's message for a text that is not JSON, nothing where `blockdevices`
/// is not an array.
#[verifier::external_body]
fn read_block_devices(output: &str) -> (listing: Result<Option<Vec<BlockDevice>>, String>)
    ensures
        match listing {
            Ok(Some(devices)) => block_devices_of(output@) == Ok::<
                Option<Seq<BlockDeviceView>>,
                Seq<char>,
            >(Some(device_views(devices@))),
            Ok(None) => block_devices_of(output@) == Ok::<Option<Seq<BlockDeviceView>>, Seq<char>>(
                None,
            ),
            Err(message) => block_devices_of(output@) == Err::<
                Option<Seq<BlockDeviceView>>,
                Seq<char>,
            >(message@),
        },
{
    let data: serde_json::Value = serde_json::from_str(output).map_err(|e| e.to_string())?;
    Ok(data["blockdevices"].as_array().map(|a| a.iter().map(block_device_of).collect()))
}

/// Whether `needle` occurs in `text` at position `at`.
pub open spec fn occurs_at(text: Seq<char>, needle: Seq<char>, at: int) -> bool {
    &&& 0 <= at
    &&& at + needle.len() <= text.len()
    &&& text.subrange(at, at + needle.len()) == needle
}

/// Whether `needle` occurs in `text`.
pub open spec fn occurs_in(text: Seq<char>, needle: Seq<char>) -> bool {
    exists|at: int| occurs_at(text, needle, at)
}

fn matches_at(text: &str, needle: &str, at: usize, text_len: usize, needle_len: usize) -> (found: bool)
    requires
        text_len == text@.len(),
        needle_len == needle@.len(),
        at + needle_len <= text_len,
    ensures
        found == occurs_at(text@, needle@, at as int),
{
    let mut k: usize = 0;
    while k < needle_len
        invariant
            0 <= k <= needle_len,
            text_len == text@.len(),
            needle_len == needle@.len(),
            at + needle_len <= text_len,
            forall|m: int| 0 <= m < k ==> text@[at + m] == needle@[m],
        decreases needle_len - k,
    {
        if text.get_char(at + k) != needle.get_char(k) {
            assert(text@.subrange(at as int, at + needle_len)[k as int] != needle@[k as int]);
            return false;
        }
        k = k + 1;
    }
    assert(text@.subrange(at as int, at + needle_len) =~= needle@);
    true
}

/// Whether `needle` occurs in `text`.
pub fn contains_text(text: &str, needle: &str) -> (found: bool)
    ensures
        found == occurs_in(text@, needle@),
{
    let text_len = text.unicode_len();
    let needle_len = needle.unicode_len();
    if needle_len > text_len {
        return false;
    }
    let limit: usize = text_len - needle_len;
    let mut at: usize = 0;
    loop
        invariant
            0 <= at <= limit,
            limit == text_len - needle_len,
            text_len == text@.len(),
            needle_len == needle@.len(),
            forall|m: int| 0 <= m < at ==> !occurs_at(text@, needle@, m),
        decreases limit - at,
    {
        if matches_at(text, needle, at, text_len, needle_len) {
            return true;
        }
        if at == limit {
            return false;
        }
        at = at + 1;
    }
}

/// A sum, or the largest 64-bit number where it is larger.
pub open spec fn capped_sum(a: u64, b: u64) -> u64 {
    if a + b > u64::MAX {
        u64::MAX
    } else {
        (a + b) as u64
    }
}

/// A number that may be missing; zero where it is.
pub open spec fn or_zero(n: Option<u64>) -> u64 {
    match n {
        Some(v) => v,
        None => 0,
    }
}

/// The mount point of a device after its first `k` partitions were looked at:
/// the mount point of the last of them that has one without `boot` in it.
pub open spec fn mount_point_of(partitions: Seq<PartitionView>, k: int) -> Seq<char>
    decreases k,
{
    if k <= 0 {
        Seq::empty()
    } else {
        match partitions[k - 1].mountpoint {
            Some(m) => if occurs_in(m, "boot"@) {
                mount_point_of(partitions, k - 1)
            } else {
                m
            },
            None => mount_point_of(partitions, k - 1),
        }
    }
}

/// The bytes of the first `k` partitions, as far as 64 bits hold them.
pub open spec fn total_of(partitions: Seq<PartitionView>, k: int) -> u64
    decreases k,
{
    if k <= 0 {
        0
    } else {
        capped_sum(total_of(partitions, k - 1), or_zero(partitions[k - 1].size))
    }
}

/// The free bytes of the first `k` partitions, as far as 64 bits hold them.
pub open spec fn available_of(partitions: Seq<PartitionView>, k: int) -> u64
    decreases k,
{
    if k <= 0 {
        0
    } else {
        capped_sum(available_of(partitions, k - 1), or_zero(partitions[k - 1].fsavail))
    }
}

/// A text that may be missing; empty where it is.
pub open spec fn or_empty(text: Option<Seq<char>>) -> Seq<char> {
    match text {
        Some(t) => t,
        None => Seq::empty(),
    }
}

/// The volume that a disk stands for: mounted where the last of its
/// partitions outside `boot` is, as large as its partitions together, and
/// labelled with its label, vendor and model in a row.
pub open spec fn volume_of(device: BlockDeviceView) -> VolumeView {
    let partitions = match device.children {
        Some(c) => c,
        None => Seq::empty(),
    };
    VolumeView {
        mount_point: mount_point_of(partitions, partitions.len() as int),
        volume_label: or_empty(device.label) + or_empty(device.vendor) + or_empty(device.model),
        available_units: available_of(partitions, partitions.len() as int),
        total_units: total_of(partitions, partitions.len() as int),
    }
}

/// Whether a device is a disk.
pub open spec fn is_disk(device: BlockDeviceView) -> bool {
    device.kind == Some("disk"@)
}

/// The volumes of the first `k` devices: one for each disk, in their order.
pub open spec fn volumes_through(devices: Seq<BlockDeviceView>, k: int) -> Seq<VolumeView>
    decreases k,
{
    if k <= 0 {
        Seq::empty()
    } else if is_disk(devices[k - 1]) {
        volumes_through(devices, k - 1).push(volume_of(devices[k - 1]))
    } else {
        volumes_through(devices, k - 1)
    }
}

fn is_kind(kind: &Option<String>, wanted: &str) -> (same: bool)
    ensures
        same == (text_view(*kind) == Some(wanted@)),
{
    match kind {
        Some(k) => {
            let n = wanted.unicode_len();
            if k.as_str().unicode_len() != n {
                return false;
            }
            let same = matches_at(k.as_str(), wanted, 0, n, n);
            assert(k@.subrange(0, n as int) =~= k@);
            same
        },
        None => false,
    }
}

fn push_optional(text: &mut String, piece: &Option<String>)
    ensures
        final(text)@ == old(text)@ + or_empty(text_view(*piece)),
{
    match piece {
        Some(p) => {
            text.append(p.as_str());
        },
        None => {
            assert(text@ =~= old(text)@ + Seq::<char>::empty());
        },
    }
}

/// The volume that a disk stands for.
pub fn volume(device: &BlockDevice) -> (volume: Volume)
    ensures
        volume_view(volume) == volume_of(device@),
{
    let mut available_units: u64 = 0;
    let mut total_units: u64 = 0;
    let mut mount_point = String::new();
    if let Some(children) = &device.children {
        let mut i: usize = 0;
        while i < children.len()
            invariant
                0 <= i <= children.len(),
                mount_point@ == mount_point_of(partition_views(children@), i as int),
                total_units == total_of(partition_views(children@), i as int),
                available_units == available_of(partition_views(children@), i as int),
            decreases children.len() - i,
        {
            let child = &children[i];
            assert(partition_views(children@)[i as int] == child@);
            if let Some(child_mount_point) = &child.mountpoint {
                if !contains_text(child_mount_point.as_str(), "boot") {
                    mount_point = child_mount_point.clone();
                }
            }
            total_units = total_units.saturating_add(
                match child.size {
                    Some(v) => v,
                    None => 0,
                },
            );
            available_units = available_units.saturating_add(
                match child.fsavail {
                    Some(v) => v,
                    None => 0,
                },
            );
            i = i + 1;
        }
    }
    let mut volume_label = String::new();
    push_optional(&mut volume_label, &device.label);
    push_optional(&mut volume_label, &device.vendor);
    push_optional(&mut volume_label, &device.model);
    assert(volume_label@ =~= or_empty(device@.label) + or_empty(device@.vendor) + or_empty(
        device@.model,
    ));
    Volume { mount_point, volume_label, available_units, total_units }
}

/// The volumes of a listing: one for each disk, in the order of the listing.
pub fn volumes(devices: &Vec<BlockDevice>) -> (volumes: Vec<Volume>)
    ensures
        volume_views(volumes@) == volumes_through(device_views(devices@), devices@.len() as int),
{
    let mut volumes: Vec<Volume> = Vec::new();
    let mut i: usize = 0;
    while i < devices.len()
        invariant
            0 <= i <= devices.len(),
            volume_views(volumes@) == volumes_through(device_views(devices@), i as int),
        decreases devices.len() - i,
    {
        let ghost before = volumes@;
        assert(device_views(devices@)[i as int] == devices@[i as int]@);
        if is_kind(&devices[i].kind, "disk") {
            let v = volume(&devices[i]);
            volumes.push(v);
            assert(volume_views(volumes@) =~= volume_views(before).push(volume_view(v)));
        }
        i = i + 1;
    }
    volumes
}

/// What `list_volumes` returns for what was read from a listing.
pub open spec fn listed_volumes(
    listing: Result<Option<Seq<BlockDeviceView>>, Seq<char>>,
) -> Result<Seq<VolumeView>, Seq<char>> {
    match listing {
        Ok(Some(devices)) => Ok(volumes_through(devices, devices.len() as int)),
        Ok(None) => Err("No block devices are listed"@),
        Err(message) => Err(message),
    }
}

/// The view of the result of `list_volumes`.
pub open spec fn result_view(result: Result<Vec<Volume>, String>) -> Result<
    Seq<VolumeView>,
    Seq<char>,
> {
    match result {
        Ok(volumes) => Ok(volume_views(volumes@)),
        Err(message) => Err(message@),
    }
}

/// The volumes for a listing that was read: an error where the text was not
/// JSON or lists no block devices.
pub fn volumes_of_listing(listing: Result<Option<Vec<BlockDevice>>, String>) -> (result: Result<
    Vec<Volume>,
    String,
>)
    ensures
        result_view(result) == listed_volumes(
            match listing {
                Ok(Some(devices)) => Ok(Some(device_views(devices@))),
                Ok(None) => Ok(None),
                Err(message) => Err(message@),
            },
        ),
{
    match listing {
        Ok(Some(devices)) => Ok(volumes(&devices)),
        Ok(None) => Err("No block devices are listed".to_owned()),
        Err(message) => Err(message),
    }
}

/// Lists the volumes of the machine from what `lsblk --json` printed: one
/// volume for each disk.
pub fn list_volumes(output: &str) -> (result: Result<Vec<Volume>, String>)
    ensures
        result_view(result) == listed_volumes(block_devices_of(output@)),
{
    volumes_of_listing(read_block_devices(output))
}

/// The label of a drive that has none of its own, by the kind of drive.
pub open spec fn drive_label_of(drive_type: u32) -> Seq<char> {
    if drive_type == 2 {
        "Removable Drive"@
    } else if drive_type == 3 {
        "Disk Drive"@
    } else if drive_type == 4 {
        "Network Drive"@
    } else {
        "Unknown"@
    }
}

/// The volume for a drive as Windows reports it. A drive without a label is
/// labelled by its kind; a drive that is not mounted has no size.
pub fn drive_volume(mount_point: String, volume_label: String, drive_type: u32, available: u64, total: u64) -> (volume:
    Volume)
    ensures
        volume.mount_point == mount_point,
        volume.volume_label@ == if volume_label@.len() == 0 {
            drive_label_of(drive_type)
        } else {
            volume_label@
        },
        volume.available_units == if mount_point@.len() == 0 {
            0
        } else {
            available
        },
        volume.total_units == if mount_point@.len() == 0 {
            0
        } else {
            total
        },
{
    let volume_label = if volume_label.as_str().unicode_len() == 0 {
        if drive_type == 2 {
            "Removable Drive".to_owned()
        } else if drive_type == 3 {
            "Disk Drive".to_owned()
        } else if drive_type == 4 {
            "Network Drive".to_owned()
        } else {
            "Unknown".to_owned()
        }
    } else {
        volume_label
    };
    if mount_point.as_str().unicode_len() == 0 {
        Volume { mount_point, volume_label, available_units: 0, total_units: 0 }
    } else {
        Volume { mount_point, volume_label, available_units: available, total_units: total }
    }
}

} // verus!
