use fix_automation::mounts::{bind_mounts, submounts_deepest_first};

const MOUNTS: &str = "/dev/sda2 /mnt ext4 rw 0 0\n/dev/sda1 /mnt/boot/efi vfat rw 0 0\ndev /mnt/dev devtmpfs rw 0 0\nproc /mnt/proc proc rw 0 0\nsys /mnt/sys sysfs rw 0 0\nrun /mnt/run tmpfs rw 0 0\ndevpts /mnt/dev/pts devpts rw 0 0\n/dev/sdb1 /mntx ext4 rw 0 0\nproc /proc proc rw 0 0\n";

#[test]
fn submounts_are_unmounted_deepest_first() {
    let order = submounts_deepest_first(MOUNTS, "/mnt");
    assert_eq!(
        order,
        vec!["/mnt/boot/efi", "/mnt/dev/pts", "/mnt/proc", "/mnt/dev", "/mnt/sys", "/mnt/run"]
    );
}

#[test]
fn the_directory_itself_is_not_a_submount() {
    assert!(submounts_deepest_first("/dev/sda2 /mnt ext4 rw 0 0\nbad\n", "/mnt").is_empty());
    assert!(submounts_deepest_first("", "/mnt").is_empty());
}

#[test]
fn kernel_filesystems_are_bound_into_mnt() {
    let b = bind_mounts();
    let pairs: Vec<(&str, &str)> = b.iter().map(|(s, t)| (s.as_str(), t.as_str())).collect();
    assert_eq!(
        pairs,
        vec![("/dev", "/mnt/dev"), ("/proc", "/mnt/proc"), ("/run", "/mnt/run"), ("/sys", "/mnt/sys")]
    );
}

#[test]
fn a_sibling_directory_is_not_a_submount() {
    let mounts = "/dev/sda2 /mnt ext4 rw 0 0\n/dev/sda1 /mnt/boot/efi vfat rw 0 0\n/dev/sdb1 /mnt2 ext4 rw 0 0\n";
    assert_eq!(submounts_deepest_first(mounts, "/mnt"), vec!["/mnt/boot/efi"]);
}
