use fix_automation::fstab::{FstabAuditor, FstabError, FstabIssue, LivePartition};

fn live(path: &str, uuid: &str, fstype: &str, mount: Option<&str>) -> LivePartition {
    LivePartition {
        path: path.into(),
        uuid: uuid.into(),
        fstype: fstype.into(),
        current_mount: mount.map(|m| m.into()),
    }
}

#[test]
fn missing_fstab_is_an_error() {
    let r = FstabAuditor::audit_fstab(None, &[]);
    assert_eq!(r.unwrap_err(), FstabError::Missing);
    assert_eq!(
        FstabError::Missing.message(),
        "The target /etc/fstab configuration file is missing completely."
    );
}

#[test]
fn matching_fstab_has_no_issues() {
    let devs = [live("/dev/sda2", "1111", "ext4", Some("/"))];
    let text = "# /etc/fstab\n\nUUID=1111 / ext4 defaults 0 1\n";
    assert!(FstabAuditor::audit_fstab(Some(text), &devs).unwrap().is_empty());
}

#[test]
fn quoted_uuid_is_matched() {
    let devs = [live("/dev/sda2", "1111", "ext4", None)];
    let text = "UUID=\"1111\" / ext4 defaults 0 1\nUUID='1111' /home ext4 defaults 0 2\n";
    assert!(FstabAuditor::audit_fstab(Some(text), &devs).unwrap().is_empty());
}

#[test]
fn unknown_uuid_reports_the_partition_now_mounted_there() {
    let devs = [live("/dev/sda2", "2222", "ext4", Some("/"))];
    let text = "UUID=1111 / ext4 defaults 0 1\nUUID=3333 /data xfs defaults 0 2\n";
    let issues = FstabAuditor::audit_fstab(Some(text), &devs).unwrap();
    assert_eq!(issues.len(), 2);
    match &issues[0] {
        FstabIssue::UuidMismatch { mount_point, expected_uuid, live_uuid } => {
            assert_eq!(mount_point, "/");
            assert_eq!(expected_uuid, "1111");
            assert_eq!(live_uuid.as_deref(), Some("2222"));
        }
        other => panic!("unexpected issue {other:?}"),
    }
    match &issues[1] {
        FstabIssue::UuidMismatch { live_uuid, .. } => assert_eq!(live_uuid, &None),
        other => panic!("unexpected issue {other:?}"),
    }
}

#[test]
fn filesystem_type_mismatch_is_reported() {
    let devs = [live("/dev/sda2", "1111", "btrfs", None)];
    let text = "/dev/sda2 / ext4 defaults 0 1\nUUID=1111 /other none bind 0 0\n";
    let issues = FstabAuditor::audit_fstab(Some(text), &devs).unwrap();
    assert_eq!(issues.len(), 1);
    match &issues[0] {
        FstabIssue::UnusualFsType { mount_point, fstab_type, live_type } => {
            assert_eq!(mount_point, "/");
            assert_eq!(fstab_type, "ext4");
            assert_eq!(live_type, "btrfs");
        }
        other => panic!("unexpected issue {other:?}"),
    }
}

#[test]
fn unlisted_device_paths_and_labels_are_not_checked() {
    let devs = [live("/dev/sda2", "1111", "ext4", None)];
    let text = "/dev/sdb1 /mnt ext4 defaults 0 0\nLABEL=root / ext4 defaults 0 1\nshort line\n";
    assert!(FstabAuditor::audit_fstab(Some(text), &devs).unwrap().is_empty());
}

#[test]
fn undeclared_swap_is_reported() {
    let devs = [live("/dev/sda2", "1111", "ext4", None), live("/dev/sda3", "5555", "swap", None)];
    let text = "UUID=1111 / ext4 defaults 0 1\n";
    let issues = FstabAuditor::audit_fstab(Some(text), &devs).unwrap();
    assert_eq!(issues.len(), 1);
    match &issues[0] {
        FstabIssue::MissingSwap { live_swap_uuid } => assert_eq!(live_swap_uuid, "5555"),
        other => panic!("unexpected issue {other:?}"),
    }
}

#[test]
fn declared_swap_silences_swap_check() {
    let devs = [live("/dev/sda3", "5555", "swap", None)];
    let text = "UUID=9999 none swap sw 0 0\n";
    let issues = FstabAuditor::audit_fstab(Some(text), &devs).unwrap();
    // The stale swap UUID is still a mismatch, but the swap is declared.
    assert_eq!(issues.len(), 1);
    assert!(matches!(issues[0], FstabIssue::UuidMismatch { .. }));
}
