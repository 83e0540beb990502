use fix_automation::blkdev::{first_line, probe_partition, proc_disk, proc_partitions};
use fix_automation::text::{chars_of, parse_u64};

const PARTITIONS: &str = "major minor  #blocks  name\n\n   7        0      56704 loop0\n   8        0  488386584 sda\n   8        1     524288 sda1\n   8        2  487860224 sda2\n 253        0   10240 dm-0\n   1        0       4096 ram0\n 252        0     102400 zram0\n   8        1     524288 sda1\n 259        0 12x nvme0n1\n bad line\n";

#[test]
fn proc_partitions_skips_header_and_virtual_devices() {
    let ps = proc_partitions(PARTITIONS);
    let got: Vec<(&str, u64)> = ps.iter().map(|p| (p.name.as_str(), p.blocks)).collect();
    assert_eq!(got, vec![("sda", 488386584), ("sda1", 524288), ("sda2", 487860224), ("nvme0n1", 0)]);
}

#[test]
fn proc_partitions_of_short_text_is_empty() {
    assert!(proc_partitions("").is_empty());
    assert!(proc_partitions("major minor #blocks name\n\n").is_empty());
    assert!(proc_partitions("8 0 100 sda\n8 1 50 sda1\n").is_empty());
}

#[test]
fn parse_u64_follows_str_parse() {
    for text in ["0", "42", "+7", "007", "18446744073709551615", "18446744073709551616", "", "+", "-1", " 1", "1a", "99999999999999999999999"] {
        assert_eq!(parse_u64(&chars_of(text)), text.parse::<u64>().ok(), "text={text:?}");
    }
}

#[test]
fn first_line_is_trimmed() {
    assert_eq!(first_line("  MAJOR=8 \nMINOR=0\n"), Some("MAJOR=8".to_string()));
    assert_eq!(first_line(""), None);
    assert_eq!(first_line("\n"), Some(String::new()));
}

#[test]
fn probe_partition_combines_mounts_uevent_and_links() {
    let mounts = "/dev/sda1 /boot/efi vfat rw 0 0\n";
    let links = vec![("AAAA-BBBB".to_string(), "sda1".to_string())];
    let (fstype, mountpoint, label, uuid, is_efi) =
        probe_partition("sda1", mounts, Some("MAJOR=8\nMINOR=0\n"), links);
    assert_eq!(fstype.as_deref(), Some("vfat"));
    assert_eq!(mountpoint.as_deref(), Some("/boot/efi"));
    assert_eq!(label.as_deref(), Some("MAJOR=8"));
    assert_eq!(uuid.as_deref(), Some("AAAA-BBBB"));
    assert!(is_efi);
}

#[test]
fn probe_partition_without_information() {
    let (fstype, mountpoint, label, uuid, is_efi) = probe_partition("sdb3", "", None, Vec::new());
    assert_eq!(fstype, None);
    assert_eq!(mountpoint, None);
    assert_eq!(label.as_deref(), Some("sdb3"));
    assert_eq!(uuid, None);
    assert!(!is_efi);
    let (_, _, label, _, _) = probe_partition("sdb3", "", Some(""), Vec::new());
    assert_eq!(label.as_deref(), Some("sdb3"));
}

#[test]
fn proc_disk_probes_partitions_only() {
    let mounts = "/dev/sda1 /boot vfat rw 0 0\n/dev/sda /x ext4 rw 0 0\n";
    let links = vec![("U1".to_string(), "sda1".to_string()), ("U0".to_string(), "sda".to_string())];
    let d = proc_disk("sda1".into(), "512M".into(), mounts, Some("MAJOR=8\n"), links.clone());
    assert_eq!(d.fstype.as_deref(), Some("vfat"));
    assert_eq!(d.label.as_deref(), Some("MAJOR=8"));
    assert_eq!(d.uuid.as_deref(), Some("U1"));
    assert!(d.is_efi);
    let d = proc_disk("sda".into(), "500G".into(), mounts, Some("MAJOR=8\n"), links);
    assert_eq!(d.size, "500G");
    assert_eq!((d.fstype, d.label, d.uuid, d.mountpoint, d.is_efi), (None, None, None, None, false));
}
