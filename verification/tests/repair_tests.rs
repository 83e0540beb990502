use fix_automation::app::{Action, LogKind, LogLine};
use fix_automation::blkdev::DiskInfo;
use fix_automation::host::{decimal_string, join2, join3, IoFailure, Op, Reply, Request};
use fix_automation::repair::{
    diagnosis_summary, run, run_diagnosis, DiagnosisPhase, RepairPhase, RepairRun,
};

fn disk(name: &str, uuid: &str, fstype: &str) -> DiskInfo {
    DiskInfo {
        name: name.into(),
        size: "20G".into(),
        fstype: Some(fstype.into()),
        label: None,
        uuid: Some(uuid.into()),
        mountpoint: None,
        is_efi: false,
        contents: None,
    }
}

fn line(kind: LogKind, text: &str) -> (LogKind, String) {
    (kind, text.to_string())
}

fn logs(req: &Request) -> Vec<(LogKind, String)> {
    req.logs.iter().map(|l: &LogLine| (l.kind.clone(), l.text.clone())).collect()
}

fn op_name(op: &Op) -> String {
    match op {
        Op::Mount(d) => format!("mount {d}"),
        Op::MountEfi(d) => format!("mount-efi {d}"),
        Op::MountBind => "bind".to_string(),
        Op::Umount(d) => format!("umount {d}"),
        Op::ReadFile(p) => format!("read {p}"),
        Op::FileExists(p) => format!("exists {p}"),
        Op::RunInChroot(p, a) => format!("chroot {p} {}", a.join(" ")),
        Op::CreateDirAll(p) => format!("mkdir {p}"),
        Op::WriteFile(p, _) => format!("write {p}"),
        Op::AppendFile(p, _) => format!("append {p}"),
        Op::Finish => "finish".to_string(),
    }
}

#[test]
fn fstab_repair_walks_through_every_step() {
    let root = disk("sda2", "1111", "ext4");
    let (mut job, req) = run(Action::FixFstab, root, None, false);
    assert_eq!(logs(&req), vec![line(LogKind::Step, "mounting root partition")]);
    assert_eq!(op_name(&req.op), "mount /dev/sda2");

    let req = job.resume(Reply::Ack);
    assert_eq!(
        logs(&req),
        vec![
            line(LogKind::Success, "mounted /dev/sda2 \u{2192} /mnt"),
            line(LogKind::Step, "bind mounting /dev /proc /sys /run"),
        ]
    );
    assert_eq!(op_name(&req.op), "bind");

    let req = job.resume(Reply::Ack);
    assert_eq!(op_name(&req.op), "read etc/os-release");

    let req = job.resume(Reply::Content(Ok("ID=arch\n".into())));
    assert_eq!(
        logs(&req),
        vec![line(LogKind::Success, "detected: Arch Linux"), line(LogKind::Step, "auditing /etc/fstab")]
    );
    assert_eq!(op_name(&req.op), "exists etc/fstab");

    let req = job.resume(Reply::Exists(true));
    assert!(req.logs.is_empty());
    assert_eq!(op_name(&req.op), "read etc/fstab");

    let req = job.resume(Reply::Content(Ok("UUID=9999 / ext4 defaults 0 1\nUUID=1111 /x btrfs d 0 0\n".into())));
    assert_eq!(
        logs(&req),
        vec![
            line(LogKind::Warn, "found 2 issues in fstab"),
            line(LogKind::Step, "unmounting all filesystems"),
        ]
    );
    assert_eq!(op_name(&req.op), "umount /mnt");

    let req = job.resume(Reply::Ack);
    assert_eq!(
        logs(&req),
        vec![line(LogKind::Success, "repair complete \u{2014} safe to reboot"), line(LogKind::Done, "")]
    );
    assert_eq!(op_name(&req.op), "finish");
    assert!(matches!(job.phase, RepairPhase::Finished));
}

#[test]
fn uefi_repair_mounts_the_esp() {
    let (mut job, _) = run(Action::OpenChrootShell, disk("nvme0n1p2", "1", "ext4"), Some(disk("nvme0n1p1", "2", "vfat")), true);
    let req = job.resume(Reply::Ack);
    assert_eq!(op_name(&req.op), "mount-efi /dev/nvme0n1p1");
    let req = job.resume(Reply::Ack);
    assert_eq!(logs(&req)[0], line(LogKind::Success, "mounted /dev/nvme0n1p1 \u{2192} /mnt/boot/efi"));
    assert_eq!(op_name(&req.op), "bind");
}

#[test]
fn bios_repair_does_not_mount_the_esp() {
    let (mut job, _) = run(Action::OpenChrootShell, disk("sda2", "1", "ext4"), Some(disk("sda1", "2", "vfat")), false);
    let req = job.resume(Reply::Ack);
    assert_eq!(op_name(&req.op), "bind");
}

#[test]
fn chroot_shell_only_explains_and_unmounts() {
    let (mut job, _) = run(Action::OpenChrootShell, disk("sda2", "1", "ext4"), None, false);
    job.resume(Reply::Ack);
    job.resume(Reply::Ack);
    let req = job.resume(Reply::Content(Err(IoFailure::other("no file".to_string()))));
    assert_eq!(
        logs(&req),
        vec![
            line(LogKind::Success, "detected: Generic Linux Environment"),
            line(LogKind::Warn, "chroot shell \u{2014} switch to TTY and run: chroot /mnt"),
            line(LogKind::Step, "unmounting all filesystems"),
        ]
    );
    assert_eq!(op_name(&req.op), "umount /mnt");
}

#[test]
fn unimplemented_action_is_reported() {
    let (mut job, _) = run(Action::PartitionManager, disk("sda2", "1", "ext4"), None, false);
    job.resume(Reply::Ack);
    job.resume(Reply::Ack);
    let req = job.resume(Reply::Content(Ok("ID=fedora\n".into())));
    assert_eq!(logs(&req)[1], line(LogKind::Warn, "this action is not yet implemented"));
}

#[test]
fn grub_repair_failure_is_reported_then_unmounts() {
    let (mut job, _) = run(Action::FixGrub, disk("sda2", "1", "ext4"), None, false);
    job.resume(Reply::Ack);
    job.resume(Reply::Ack);
    let req = job.resume(Reply::Content(Ok("ID=ubuntu\n".into())));
    assert_eq!(
        logs(&req),
        vec![line(LogKind::Success, "detected: Debian/Ubuntu Family"), line(LogKind::Step, "running GRUB repair")]
    );
    assert_eq!(op_name(&req.op), "exists usr/bin/grub-install");
    let req = job.resume(Reply::Exists(false));
    assert_eq!(
        logs(&req),
        vec![
            line(
                LogKind::Error,
                "GRUB repair failed: Required binary 'usr/bin/grub-install' is missing inside the target environment."
            ),
            line(LogKind::Step, "unmounting all filesystems"),
        ]
    );
    assert_eq!(op_name(&req.op), "umount /mnt");
    assert!(matches!(job.phase, RepairPhase::Unmount));
}

#[test]
fn grub_repair_success_is_reported() {
    let (mut job, _) = run(Action::FixGrubAndFstab, disk("sda2", "1", "ext4"), None, false);
    job.resume(Reply::Ack);
    job.resume(Reply::Ack);
    job.resume(Reply::Content(Ok("ID=gentoo\n".into())));
    job.resume(Reply::Exists(true));
    let req = job.resume(Reply::Exists(true));
    assert_eq!(op_name(&req.op), "chroot grub-install --target=i386-pc /dev/sda --recheck");
    job.resume(Reply::Status(Ok(true)));
    job.resume(Reply::Exists(true));
    let req = job.resume(Reply::Content(Ok("GRUB_DISABLE_OS_PROBER=false\n".into())));
    assert_eq!(op_name(&req.op), "chroot grub-mkconfig -o /boot/grub/grub.cfg");
    let req = job.resume(Reply::Status(Ok(true)));
    assert_eq!(
        logs(&req),
        vec![line(LogKind::Success, "GRUB repair completed"), line(LogKind::Step, "auditing /etc/fstab")]
    );
    assert_eq!(op_name(&req.op), "exists etc/fstab");
    assert!(matches!(job.phase, RepairPhase::FstabExists));
    job.resume(Reply::Exists(true));
    let req = job.resume(Reply::Content(Ok("UUID=1 / ext4 defaults 0 1\n".into())));
    assert_eq!(
        logs(&req),
        vec![
            line(LogKind::Success, "fstab validated \u{2014} no issues found"),
            line(LogKind::Step, "unmounting all filesystems"),
        ]
    );
}

#[test]
fn missing_fstab_is_reported_in_repair() {
    let (mut job, _) = run(Action::FixFstab, disk("sda2", "1", "ext4"), None, false);
    job.resume(Reply::Ack);
    job.resume(Reply::Ack);
    job.resume(Reply::Content(Ok("ID=arch\n".into())));
    let req = job.resume(Reply::Exists(false));
    assert_eq!(
        logs(&req)[0],
        line(LogKind::Error, "fstab audit failed: The target /etc/fstab configuration file is missing completely.")
    );
}

#[test]
fn valid_fstab_is_reported_in_repair() {
    let (mut job, _) = run(Action::FixFstab, disk("sda2", "1111", "ext4"), None, false);
    job.resume(Reply::Ack);
    job.resume(Reply::Ack);
    job.resume(Reply::Content(Ok("ID=arch\n".into())));
    job.resume(Reply::Exists(true));
    let req = job.resume(Reply::Content(Ok("UUID=1111 / ext4 defaults 0 1\n".into())));
    assert_eq!(logs(&req)[0], line(LogKind::Success, "fstab validated \u{2014} no issues found"));
}

#[test]
fn repair_start_is_the_same_as_run() {
    let (job, req) = RepairRun::start(Action::FixGrub, disk("vda1", "1", "ext4"), None, true);
    assert!(matches!(job.phase, RepairPhase::MountRoot));
    assert!(job.is_uefi);
    assert_eq!(op_name(&req.op), "mount /dev/vda1");
}

#[test]
fn diagnosis_of_healthy_system_recommends_nothing() {
    let root = disk("sda2", "1111", "ext4");
    let disks = vec![disk("sda2", "1111", "ext4")];
    let (mut job, req) = run_diagnosis(root, None, false, disks);
    assert_eq!(op_name(&req.op), "mount /dev/sda2");
    let req = job.resume(Reply::Ack);
    assert_eq!(op_name(&req.op), "read etc/os-release");
    let req = job.resume(Reply::Content(Ok("ID=fedora\n".into())));
    assert_eq!(
        logs(&req),
        vec![line(LogKind::Success, "detected: Fedora Linux"), line(LogKind::Step, "checking GRUB installation")]
    );
    assert_eq!(op_name(&req.op), "exists usr/bin/grub2-install");
    let req = job.resume(Reply::Exists(true));
    assert_eq!(op_name(&req.op), "exists usr/bin/grub2-mkconfig");
    let req = job.resume(Reply::Exists(true));
    assert_eq!(
        logs(&req),
        vec![line(LogKind::Success, "GRUB binaries found"), line(LogKind::Step, "auditing /etc/fstab")]
    );
    job.resume(Reply::Exists(true));
    let req = job.resume(Reply::Content(Ok("UUID=1111 / ext4 defaults 0 1\n".into())));
    assert_eq!(
        logs(&req),
        vec![line(LogKind::Success, "fstab is valid"), line(LogKind::Output, "unmounting filesystems")]
    );
    let req = job.resume(Reply::Ack);
    assert_eq!(req.logs.len(), 3);
    assert_eq!(req.logs[0].text, "diagnosis complete");
    match &req.logs[1].kind {
        LogKind::DiagnosisResult(summary, rec) => {
            assert_eq!(summary, &vec!["Diagnosis: No major issues found. Select an action manually.".to_string()]);
            assert_eq!(*rec, None);
        }
        other => panic!("unexpected line {other:?}"),
    }
    assert_eq!(req.logs[2].kind, LogKind::Done);
    assert_eq!(op_name(&req.op), "finish");
    assert_eq!(job.phase, DiagnosisPhase::Finished);
}

#[test]
fn diagnosis_of_broken_system_recommends_both_repairs() {
    let (mut job, _) = run_diagnosis(disk("sda2", "1111", "ext4"), None, false, vec![]);
    job.resume(Reply::Ack);
    job.resume(Reply::Content(Ok("ID=arch\n".into())));
    let req = job.resume(Reply::Exists(false));
    assert_eq!(
        logs(&req),
        vec![line(LogKind::Warn, "GRUB binaries are missing or corrupted"), line(LogKind::Step, "auditing /etc/fstab")]
    );
    let req = job.resume(Reply::Exists(false));
    assert_eq!(logs(&req)[0], line(LogKind::Warn, "could not read /etc/fstab"));
    let req = job.resume(Reply::Ack);
    match &req.logs[1].kind {
        LogKind::DiagnosisResult(summary, rec) => {
            assert_eq!(summary, &vec!["Diagnosis: GRUB is missing and fstab contains errors.".to_string()]);
            assert_eq!(*rec, Some(Action::FixGrubAndFstab));
        }
        other => panic!("unexpected line {other:?}"),
    }
    assert!(job.grub_broken && job.fstab_broken);
}

#[test]
fn diagnosis_counts_fstab_issues() {
    let (mut job, _) = run_diagnosis(disk("sda2", "1111", "ext4"), None, false, vec![disk("sda2", "1111", "xfs")]);
    job.resume(Reply::Ack);
    job.resume(Reply::Content(Ok("ID=arch\n".into())));
    job.resume(Reply::Exists(true));
    job.resume(Reply::Exists(true));
    job.resume(Reply::Exists(true));
    let req = job.resume(Reply::Content(Ok("UUID=1111 / ext4 defaults 0 1\n".into())));
    assert_eq!(logs(&req)[0], line(LogKind::Warn, "found 1 issues in fstab"));
    assert!(job.fstab_broken);
    assert!(!job.grub_broken);
}

#[test]
fn diagnosis_summary_matches_findings() {
    assert_eq!(diagnosis_summary(true, false).1, Some(Action::FixGrub));
    assert_eq!(diagnosis_summary(false, true).1, Some(Action::FixFstab));
    assert_eq!(
        diagnosis_summary(false, true).0,
        vec!["Diagnosis: /etc/fstab contains invalid UUIDs or mounts.".to_string()]
    );
    assert_eq!(diagnosis_summary(true, false).0, vec!["Diagnosis: GRUB installation is broken or missing.".to_string()]);
}

#[test]
fn decimal_and_join_helpers() {
    assert_eq!(decimal_string(0), "0");
    assert_eq!(decimal_string(1234567890), "1234567890");
    assert_eq!(decimal_string(usize::MAX), usize::MAX.to_string());
    assert_eq!(join2("ab", "cd"), "abcd");
    assert_eq!(join3("a", "", "c"), "ac");
}

/// Replies that carry a job to its end the straight way, counting step lines.
fn steps_of_run(action: Action, efi: Option<DiskInfo>, is_uefi: bool) -> usize {
    let (mut job, req) = run(action, disk("sda2", "1", "ext4"), efi, is_uefi);
    let mut steps = req.logs.iter().filter(|l| l.kind == LogKind::Step).count();
    let mut op = req.op;
    loop {
        let reply = match op {
            Op::Finish => break,
            Op::ReadFile(ref p) if p == "etc/os-release" => Reply::Content(Ok("ID=arch\n".into())),
            Op::ReadFile(_) => Reply::Content(Ok("GRUB_DISABLE_OS_PROBER=false\nUUID=1 / ext4 d 0 1\n".into())),
            Op::FileExists(_) => Reply::Exists(true),
            Op::RunInChroot(_, _) => Reply::Status(Ok(true)),
            Op::CreateDirAll(_) | Op::WriteFile(_, _) | Op::AppendFile(_, _) => Reply::Written(Ok(())),
            _ => Reply::Ack,
        };
        let req = job.resume(reply);
        steps += req.logs.iter().filter(|l| l.kind == LogKind::Step).count();
        op = req.op;
    }
    steps
}

#[test]
fn repair_step_lines_stay_within_the_total() {
    assert_eq!(steps_of_run(Action::FixGrub, None, false), 5);
    assert_eq!(steps_of_run(Action::FixGrub, Some(disk("sda1", "2", "vfat")), true), 6);
    assert_eq!(steps_of_run(Action::FixGrubAndFstab, Some(disk("sda1", "2", "vfat")), true), 7);
    assert_eq!(steps_of_run(Action::FixFstab, None, true), 5);
    assert_eq!(steps_of_run(Action::OpenChrootShell, Some(disk("sda1", "2", "vfat")), true), 5);
    // The one path that passes its total of five.
    assert_eq!(steps_of_run(Action::FixFstab, Some(disk("sda1", "2", "vfat")), true), 6);
}

#[test]
fn diagnosis_sends_four_step_lines() {
    let (mut job, req) = run_diagnosis(disk("sda2", "1", "ext4"), None, false, vec![]);
    let mut steps = req.logs.iter().filter(|l| l.kind == LogKind::Step).count();
    for reply in [
        Reply::Ack,
        Reply::Content(Ok("ID=arch\n".into())),
        Reply::Exists(true),
        Reply::Exists(true),
        Reply::Exists(true),
        Reply::Content(Ok(String::new())),
        Reply::Ack,
    ] {
        assert!(job.accepts(&reply));
        let req = job.resume(reply);
        steps += req.logs.iter().filter(|l| l.kind == LogKind::Step).count();
    }
    assert_eq!(steps, 4);
    assert!(!job.accepts(&Reply::Ack));
}

#[test]
fn a_repair_accepts_only_the_reply_it_asked_for() {
    let (job, _) = run(Action::FixGrub, disk("sda2", "1", "ext4"), None, false);
    assert!(job.accepts(&Reply::Ack));
    assert!(!job.accepts(&Reply::Exists(true)));
}
