use fix_automation::blkdev::{
    collect_block_devices, get_disks, is_esp, is_partition, mount_info, parent, size_scale,
    uuid_from_links, BlockDevice, DiskInfo, SizeScale, SysfsEntry,
};

fn device(name: &str, fstype: Option<&str>, parttype: Option<&str>) -> BlockDevice {
    BlockDevice {
        name: name.into(),
        size: "1G".into(),
        fstype: fstype.map(|s| s.into()),
        parttype: parttype.map(|s| s.into()),
        label: None,
        uuid: Some(format!("uuid-{name}")),
        mountpoint: None,
        children: None,
    }
}

fn with_children(mut d: BlockDevice, children: Vec<BlockDevice>) -> BlockDevice {
    d.children = Some(children);
    d
}

fn sysfs(name: &str) -> SysfsEntry {
    SysfsEntry { name: name.into(), size: "8G".into() }
}

fn names(disks: &[DiskInfo]) -> Vec<&str> {
    disks.iter().map(|d| d.name.as_str()).collect()
}

#[test]
fn disk_info_is_efi_only_for_vfat() {
    let d = DiskInfo {
        name: "sda1".into(),
        size: "1G".into(),
        fstype: Some("ext4".into()),
        label: None,
        uuid: None,
        mountpoint: None,
        is_efi: false,
        contents: None,
    };
    assert!(!d.is_efi);
}

#[test]
fn esp_guid_is_detected_case_insensitive() {
    assert!(is_esp(Some("C12A7328-F81F-11D2-BA4B-00A0C93EC93B"), Some("vfat")));
    assert!(is_esp(Some("c12a7328-f81f-11d2-ba4b-00a0c93ec93b"), Some("vfat")));
}

#[test]
fn mbr_efi_type_0xef_is_detected() {
    assert!(is_esp(Some("0xef"), Some("vfat")));
}

#[test]
fn fat_data_partition_on_gpt_is_not_esp() {
    assert!(!is_esp(Some("ebd0a0a2-b9e5-4433-87c0-68b6b72699c7"), Some("vfat")));
}

#[test]
fn unknown_parttype_falls_back_to_vfat_heuristic() {
    assert!(is_esp(None, Some("vfat")));
    assert!(!is_esp(None, Some("ext4")));
    assert!(!is_esp(None, None));
}

#[test]
fn esp_type_needs_no_filesystem() {
    assert!(is_esp(Some("0XEF"), None));
    assert!(!is_esp(Some("0xef0"), Some("vfat")));
}

#[test]
fn uuid_matching_from_by_uuid_links() {
    let links = vec![
        ("aaaa-1111".to_string(), "sda1".to_string()),
        ("bbbb-2222".to_string(), "nvme0n1p2".to_string()),
    ];
    assert_eq!(uuid_from_links("nvme0n1p2", links.clone()), Some("bbbb-2222".to_string()));
    assert_eq!(uuid_from_links("sdb9", links.clone()), None);
    assert_eq!(uuid_from_links("anything", Vec::new()), None);
}

#[test]
fn uuid_from_links_takes_first_match() {
    let links = vec![
        ("first".to_string(), "sda1".to_string()),
        ("second".to_string(), "sda1".to_string()),
    ];
    assert_eq!(uuid_from_links("sda1", links), Some("first".to_string()));
}

#[test]
fn lsblk_lists_partitions_of_disks_and_bare_devices() {
    let devs = vec![
        with_children(
            device("sda", None, None),
            vec![
                device("sda1", Some("vfat"), Some("c12a7328-f81f-11d2-ba4b-00a0c93ec93b")),
                device("sda2", Some("ext4"), Some("0fc63daf-8483-4772-8e79-3d69d8477de4")),
            ],
        ),
        device("sr0", None, None),
    ];
    let (disks, seen) = collect_block_devices(&devs);
    assert_eq!(names(&disks), vec!["sda1", "sda2", "sr0"]);
    assert_eq!(seen, vec!["sda1".to_string(), "sda2".to_string(), "sr0".to_string()]);
    assert!(disks[0].is_efi);
    assert_eq!(disks[0].contents.as_deref(), Some("Scanning..."));
    assert!(!disks[1].is_efi);
    assert_eq!(disks[1].contents, None);
    assert_eq!(disks[1].uuid.as_deref(), Some("uuid-sda2"));
}

#[test]
fn disk_with_empty_children_lists_itself() {
    let devs = vec![with_children(device("vdb", Some("ext4"), None), Vec::new())];
    let (disks, _) = collect_block_devices(&devs);
    assert_eq!(names(&disks), vec!["vdb"]);
}

#[test]
fn get_disks_adds_sysfs_devices_lsblk_missed() {
    let devs = vec![with_children(device("sda", None, None), vec![device("sda1", Some("ext4"), None)])];
    let entries = vec![sysfs("sda1"), sysfs("loop0"), sysfs("ram1"), sysfs("zram0"), sysfs("dm-0"), sysfs("nvme0n1"), sysfs("nvme0n1")];
    let disks = get_disks(Some(devs), entries);
    assert_eq!(names(&disks), vec!["sda1", "nvme0n1"]);
    assert_eq!(disks[1].size, "8G");
    assert_eq!(disks[1].fstype, None);
    assert!(!disks[1].is_efi);
}

#[test]
fn get_disks_is_empty_without_lsblk() {
    assert!(get_disks(None, vec![sysfs("sda")]).is_empty());
}

#[test]
fn get_disks_lists_a_name_once() {
    let devs = vec![
        with_children(device("sda", None, None), vec![device("sda1", Some("ext4"), None)]),
        device("sda1", Some("xfs"), None),
    ];
    let disks = get_disks(Some(devs), vec![sysfs("sda1")]);
    assert_eq!(names(&disks), vec!["sda1"]);
    assert_eq!(disks[0].fstype.as_deref(), Some("ext4"));
}

#[test]
fn size_scale_picks_decimal_unit() {
    assert_eq!(size_scale(0), SizeScale::Mega);
    assert_eq!(size_scale(536_870_912), SizeScale::Mega);
    assert_eq!(size_scale(999_999_999), SizeScale::Mega);
    assert_eq!(size_scale(1_000_000_000), SizeScale::Giga);
    assert_eq!(size_scale(999_999_999_999), SizeScale::Giga);
    assert_eq!(size_scale(1_000_000_000_000), SizeScale::Tera);
    assert_eq!(size_scale(u64::MAX), SizeScale::Tera);
}

#[test]
fn parent_strips_partition_number() {
    assert_eq!(parent("sda1"), "sda");
    assert_eq!(parent("sda12"), "sda");
    assert_eq!(parent("nvme0n1p1"), "nvme0n1");
    assert_eq!(parent("mmcblk0p2"), "mmcblk0");
    assert_eq!(parent("sdp1"), "sdp");
    assert_eq!(parent("vda"), "vda");
    assert_eq!(parent("123"), "123");
    assert_eq!(parent(""), "");
}

#[test]
fn partitions_are_names_with_digits() {
    assert!(is_partition("sda1"));
    assert!(is_partition("nvme0n1"));
    assert!(!is_partition("sda"));
    assert!(!is_partition(""));
}

#[test]
fn mount_info_reads_proc_mounts() {
    let mounts = "proc /proc proc rw 0 0\n/dev/sda1 /boot/efi vfat rw 0 0\n/dev/sda2 / ext4 rw 0 0\n/dev/sda1 /other ext2 rw 0 0\n";
    assert_eq!(
        mount_info("sda1", mounts),
        (Some("vfat".to_string()), Some("/boot/efi".to_string()))
    );
    assert_eq!(mount_info("sda2", mounts), (Some("ext4".to_string()), Some("/".to_string())));
    assert_eq!(mount_info("sdb1", mounts), (None, None));
}

#[test]
fn mount_info_skips_short_lines() {
    let mounts = "/dev/sda1 /mnt\n  /dev/sda1   /data   xfs  \n";
    assert_eq!(mount_info("sda1", mounts), (Some("xfs".to_string()), Some("/data".to_string())));
}
