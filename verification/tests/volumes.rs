use nonstd::volumes::{
    contains_text, drive_volume, list_volumes, volume, volumes, BlockDevice, Partition,
};

const LISTING: &str = r#"{
   "blockdevices": [
      {"name":"loop0", "type":"loop", "fstype":null, "label":null, "vendor":null, "model":null, "size":4096, "mountpoint":"/snap/x", "fsavail":0},
      {"name":"sda", "type":"disk", "fstype":null, "label":null, "vendor":"ATA     ", "model":"Samsung SSD 860", "size":500107862016, "mountpoint":null, "fsavail":null,
         "children": [
            {"name":"sda1", "type":"part", "fstype":"vfat", "label":null, "vendor":null, "model":null, "size":536870912, "mountpoint":"/boot/efi", "fsavail":526000000},
            {"name":"sda2", "type":"part", "fstype":"ext4", "label":null, "vendor":null, "model":null, "size":499569943040, "mountpoint":"/", "fsavail":300000000000}
         ]
      },
      {"name":"sdb", "type":"disk", "fstype":"exfat", "label":"STICK", "vendor":"Kingston", "model":"DataTraveler", "size":15000000000, "mountpoint":"/media/stick", "fsavail":1000}
   ]
}"#;

#[test]
fn disks_of_a_listing_are_volumes() {
    let volumes = list_volumes(LISTING).unwrap();
    assert_eq!(volumes.len(), 2);
    assert_eq!(volumes[0].mount_point, "/");
    assert_eq!(volumes[0].volume_label, "ATA     Samsung SSD 860");
    assert_eq!(volumes[0].total_units, 536870912 + 499569943040);
    assert_eq!(volumes[0].available_units, 526000000 + 300000000000);
    assert_eq!(volumes[1].mount_point, "");
    assert_eq!(volumes[1].volume_label, "\"STICK\"KingstonDataTraveler");
    assert_eq!(volumes[1].total_units, 0);
    assert_eq!(volumes[1].available_units, 0);
}

#[test]
fn text_that_is_not_json_is_an_error() {
    let error = list_volumes("{\"blockdevices\": [").unwrap_err();
    assert!(error.contains("EOF"));
    assert!(list_volumes("").is_err());
    assert!(list_volumes("lsblk: not found").is_err());
}

#[test]
fn listing_without_block_devices_is_an_error() {
    assert_eq!(list_volumes("{}").unwrap_err(), "No block devices are listed");
    assert_eq!(list_volumes("{\"blockdevices\": 3}").unwrap_err(), "No block devices are listed");
    assert_eq!(list_volumes("[]").unwrap_err(), "No block devices are listed");
    assert!(list_volumes("{\"blockdevices\": []}").unwrap().is_empty());
}

#[test]
fn odd_members_read_as_missing() {
    let listing = r#"{"blockdevices": [
        {"type":"disk", "label":7, "vendor":8, "model":"M", "children":[
            {"mountpoint":null, "size":"12", "fsavail":-3},
            {"mountpoint":"/data", "size":1.5, "fsavail":18446744073709551615},
            {"mountpoint":"/reboot", "size":10, "fsavail":1}
        ]},
        {"type":"disk", "children":"none"},
        {"type":5},
        "disk"
    ]}"#;
    let volumes = list_volumes(listing).unwrap();
    assert_eq!(volumes.len(), 2);
    assert_eq!(volumes[0].mount_point, "/data");
    assert_eq!(volumes[0].volume_label, "7M");
    assert_eq!(volumes[0].total_units, 10);
    assert_eq!(volumes[0].available_units, u64::MAX);
    assert_eq!(volumes[1].mount_point, "");
    assert_eq!(volumes[1].volume_label, "");
}

fn partition(mountpoint: Option<&str>, size: Option<u64>, fsavail: Option<u64>) -> Partition {
    Partition { mountpoint: mountpoint.map(|m| m.to_string()), size, fsavail }
}

fn disk(children: Option<Vec<Partition>>) -> BlockDevice {
    BlockDevice {
        kind: Some("disk".to_string()),
        label: None,
        vendor: Some("V".to_string()),
        model: None,
        children,
    }
}

#[test]
fn volume_is_mounted_at_its_last_partition_outside_boot() {
    let device = disk(Some(vec![
        partition(Some("/"), Some(1), Some(1)),
        partition(Some("/home"), Some(2), None),
        partition(Some("/boot"), None, Some(4)),
        partition(None, Some(8), Some(8)),
    ]));
    let v = volume(&device);
    assert_eq!(v.mount_point, "/home");
    assert_eq!(v.total_units, 11);
    assert_eq!(v.available_units, 13);
    assert_eq!(v.volume_label, "V");
    assert_eq!(volume(&disk(None)).mount_point, "");
    assert_eq!(volume(&disk(Some(Vec::new()))).total_units, 0);
}

#[test]
fn sizes_stop_at_the_largest_number() {
    let device = disk(Some(vec![
        partition(None, Some(u64::MAX - 1), Some(u64::MAX)),
        partition(None, Some(5), Some(0)),
    ]));
    let v = volume(&device);
    assert_eq!(v.total_units, u64::MAX);
    assert_eq!(v.available_units, u64::MAX);
}

#[test]
fn only_disks_become_volumes() {
    let mut part = disk(None);
    part.kind = Some("part".to_string());
    let mut unknown = disk(None);
    unknown.kind = None;
    let mut capital = disk(None);
    capital.kind = Some("Disk".to_string());
    let mut longer = disk(None);
    longer.kind = Some("disks".to_string());
    let devices = vec![part, disk(None), unknown, capital, longer, disk(None)];
    assert_eq!(volumes(&devices).len(), 2);
    assert!(volumes(&Vec::new()).is_empty());
}

#[test]
fn text_is_searched_for_a_piece() {
    assert!(contains_text("/boot/efi", "boot"));
    assert!(contains_text("boot", "boot"));
    assert!(contains_text("/reboot", "boot"));
    assert!(contains_text("abc", ""));
    assert!(contains_text("", ""));
    assert!(!contains_text("", "boot"));
    assert!(!contains_text("/boo/t", "boot"));
    assert!(!contains_text("boo", "boot"));
    assert!(!contains_text("/Boot", "boot"));
    assert!(contains_text("äboot", "boot"));
}

#[test]
fn drive_without_a_label_is_named_by_its_kind() {
    assert_eq!(drive_volume("E:\\".to_string(), String::new(), 2, 1, 2).volume_label, "Removable Drive");
    assert_eq!(drive_volume("C:\\".to_string(), String::new(), 3, 1, 2).volume_label, "Disk Drive");
    assert_eq!(drive_volume("Z:\\".to_string(), String::new(), 4, 1, 2).volume_label, "Network Drive");
    assert_eq!(drive_volume("D:\\".to_string(), String::new(), 5, 1, 2).volume_label, "Unknown");
    assert_eq!(drive_volume("D:\\".to_string(), String::new(), 0, 1, 2).volume_label, "Unknown");
    assert_eq!(drive_volume("C:\\".to_string(), "System".to_string(), 3, 1, 2).volume_label, "System");
}

#[test]
fn drive_that_is_not_mounted_has_no_size() {
    let mounted = drive_volume("C:\\".to_string(), "System".to_string(), 3, 10, 20);
    assert_eq!(mounted.mount_point, "C:\\");
    assert_eq!(mounted.available_units, 10);
    assert_eq!(mounted.total_units, 20);
    let unmounted = drive_volume(String::new(), "Recovery".to_string(), 3, 10, 20);
    assert_eq!(unmounted.mount_point, "");
    assert_eq!(unmounted.volume_label, "Recovery");
    assert_eq!(unmounted.available_units, 0);
    assert_eq!(unmounted.total_units, 0);
}
