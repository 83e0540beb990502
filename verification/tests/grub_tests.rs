use fix_automation::distros::{detect, ArchLinux, Debian, DetectedDistro, Fedora};
use fix_automation::grub::{
    check_presence_of_grub, grub_binary_paths, os_prober_edit, os_prober_enabled_content, BootType,
    GrubPhase, GrubRepair, GrubStep, ProberEdit,
};
use fix_automation::host::{IoFailure, Op, Reply};

fn efi() -> BootType {
    BootType::Efi { efi_mount_inside_chroot: "/boot/efi".into() }
}

fn run_op(step: GrubStep) -> Op {
    match step {
        GrubStep::Run(op) => op,
        GrubStep::Done(r) => panic!("repair ended early: {r:?}"),
    }
}

fn done(step: GrubStep) -> Result<(), IoFailure> {
    match step {
        GrubStep::Done(r) => r,
        GrubStep::Run(_) => panic!("repair did not end"),
    }
}

fn chroot_cmd(op: Op) -> (String, Vec<String>) {
    match op {
        Op::RunInChroot(p, a) => (p, a),
        _ => panic!("expected a program to run"),
    }
}

fn exists_path(op: Op) -> String {
    match op {
        Op::FileExists(p) => p,
        _ => panic!("expected an existence check"),
    }
}

#[test]
fn os_prober_creates_baseline_when_missing() {
    let content = os_prober_enabled_content(None);
    assert!(content.contains("GRUB_DISABLE_OS_PROBER=false"));
}

#[test]
fn os_prober_flips_true_to_false() {
    let content = os_prober_enabled_content(Some("GRUB_TIMEOUT=5\nGRUB_DISABLE_OS_PROBER=true\n"));
    assert!(content.contains("GRUB_DISABLE_OS_PROBER=false"));
    assert!(!content.contains("GRUB_DISABLE_OS_PROBER=true"));
    assert!(content.contains("GRUB_TIMEOUT=5"));
}

#[test]
fn os_prober_appends_when_absent() {
    let content = os_prober_enabled_content(Some("GRUB_TIMEOUT=5\n"));
    assert!(content.contains("GRUB_TIMEOUT=5"));
    assert!(content.contains("GRUB_DISABLE_OS_PROBER=false"));
}

#[test]
fn os_prober_noop_when_already_enabled() {
    assert_eq!(
        os_prober_enabled_content(Some("GRUB_DISABLE_OS_PROBER=false\n")),
        "GRUB_DISABLE_OS_PROBER=false\n"
    );
}

#[test]
fn os_prober_edit_flips_every_disabling_line() {
    match os_prober_edit("A\nGRUB_DISABLE_OS_PROBER=true\nGRUB_DISABLE_OS_PROBER=true\n") {
        ProberEdit::Rewrite(text) => {
            assert_eq!(text, "A\nGRUB_DISABLE_OS_PROBER=false\nGRUB_DISABLE_OS_PROBER=false\n")
        }
        _ => panic!("expected a rewrite"),
    }
    assert!(matches!(os_prober_edit(""), ProberEdit::Append));
    assert!(matches!(os_prober_edit("GRUB_DISABLE_OS_PROBER=false"), ProberEdit::Keep));
}

#[test]
fn os_prober_appendix_text() {
    assert_eq!(
        os_prober_enabled_content(Some("X=1")),
        "X=1\n# Enabled programmatically by Fix-Automation rescue tool\nGRUB_DISABLE_OS_PROBER=false\n"
    );
}

#[test]
fn presence_check_passes_when_bins_exist() {
    assert!(check_presence_of_grub(&DetectedDistro::Arch(ArchLinux), true, true).is_ok());
}

#[test]
fn presence_check_fails_on_missing_mkconfig() {
    let err = check_presence_of_grub(&DetectedDistro::Arch(ArchLinux), true, false).unwrap_err();
    assert!(err.not_found);
    assert_eq!(
        err.message,
        "Required binary 'usr/bin/grub-mkconfig' is missing inside the target environment."
    );
}

#[test]
fn presence_check_fails_when_nothing_exists() {
    let err = check_presence_of_grub(&DetectedDistro::Arch(ArchLinux), false, false).unwrap_err();
    assert!(err.message.contains("usr/bin/grub-install"));
}

#[test]
fn fedora_checks_grub2_binaries() {
    let (install, mkconfig) = grub_binary_paths(&DetectedDistro::Fedora(Fedora));
    assert_eq!(install, "usr/bin/grub2-install");
    assert_eq!(mkconfig, "usr/bin/grub2-mkconfig");
}

#[test]
fn arch_efi_repair_runs_every_step_in_order() {
    let (mut m, op) = GrubRepair::start(DetectedDistro::Arch(ArchLinux), efi());
    assert_eq!(exists_path(op), "usr/bin/grub-install");

    let op = run_op(m.resume(Reply::Exists(true)));
    assert_eq!(exists_path(op), "usr/bin/grub-mkconfig");

    let (p, a) = chroot_cmd(run_op(m.resume(Reply::Exists(true))));
    assert_eq!(p, "mkinitcpio");
    assert_eq!(a, vec!["-P".to_string()]);

    let (p, a) = chroot_cmd(run_op(m.resume(Reply::Status(Ok(true)))));
    assert_eq!(p, "grub-install");
    assert_eq!(a, vec!["--target=x86_64-efi", "--efi-directory=/boot/efi", "--bootloader-id=GRUB", "--recheck"]);

    let op = run_op(m.resume(Reply::Status(Ok(true))));
    assert_eq!(exists_path(op), "etc/default/grub");

    match run_op(m.resume(Reply::Exists(true))) {
        Op::ReadFile(p) => assert_eq!(p, "etc/default/grub"),
        _ => panic!("expected a read"),
    }
    match run_op(m.resume(Reply::Content(Ok("GRUB_DISABLE_OS_PROBER=true\n".into())))) {
        Op::WriteFile(p, c) => {
            assert_eq!(p, "etc/default/grub");
            assert_eq!(c, "GRUB_DISABLE_OS_PROBER=false\n");
        }
        _ => panic!("expected a write"),
    }
    let (p, a) = chroot_cmd(run_op(m.resume(Reply::Written(Ok(())))));
    assert_eq!(p, "grub-mkconfig");
    assert_eq!(a, vec!["-o", "/boot/grub/grub.cfg"]);

    assert!(done(m.resume(Reply::Status(Ok(true)))).is_ok());
    assert_eq!(m.phase, GrubPhase::Finished);
}

#[test]
fn debian_bios_repair_writes_baseline_and_runs_hook() {
    let bios = BootType::Bios { target_disk: "/dev/sda".into() };
    let (mut m, _) = GrubRepair::start(DetectedDistro::Debian(Debian), bios);
    m.resume(Reply::Exists(true));
    let (p, a) = chroot_cmd(run_op(m.resume(Reply::Exists(true))));
    assert_eq!(p, "update-initramfs");
    assert_eq!(a, vec!["-u", "-k", "all"]);
    let (_, a) = chroot_cmd(run_op(m.resume(Reply::Status(Ok(true)))));
    assert_eq!(a, vec!["--target=i386-pc", "/dev/sda", "--recheck"]);
    m.resume(Reply::Status(Ok(true)));
    match run_op(m.resume(Reply::Exists(false))) {
        Op::CreateDirAll(p) => assert_eq!(p, "etc/default"),
        _ => panic!("expected a directory"),
    }
    match run_op(m.resume(Reply::Written(Ok(())))) {
        Op::WriteFile(p, c) => {
            assert_eq!(p, "etc/default/grub");
            assert!(c.contains("GRUB_DISABLE_OS_PROBER=false"));
            assert!(c.contains("GRUB_TIMEOUT=5"));
        }
        _ => panic!("expected the baseline"),
    }
    m.resume(Reply::Written(Ok(())));
    let (p, a) = chroot_cmd(run_op(m.resume(Reply::Status(Ok(true)))));
    assert_eq!(p, "update-grub");
    assert!(a.is_empty());
    let err = done(m.resume(Reply::Status(Ok(false)))).unwrap_err();
    assert_eq!(err.message, "update-grub failed");
}

#[test]
fn unknown_family_skips_initramfs() {
    let d = detect(Some("ID=gentoo\nNAME=Gentoo\n"));
    let (mut m, _) = GrubRepair::start(d, efi());
    m.resume(Reply::Exists(true));
    let (p, _) = chroot_cmd(run_op(m.resume(Reply::Exists(true))));
    assert_eq!(p, "grub-install");
    assert_eq!(m.phase, GrubPhase::Install);
}

#[test]
fn failed_installer_ends_repair() {
    let (mut m, _) = GrubRepair::start(DetectedDistro::Fedora(Fedora), efi());
    m.resume(Reply::Exists(true));
    m.resume(Reply::Exists(true));
    m.resume(Reply::Status(Ok(true)));
    let err = done(m.resume(Reply::Status(Ok(false)))).unwrap_err();
    assert_eq!(err.message, "grub2-install execution failed");
    assert!(!err.not_found);
}

#[test]
fn failed_initramfs_and_missing_installer_end_repair() {
    let (mut m, _) = GrubRepair::start(DetectedDistro::Arch(ArchLinux), efi());
    let err = done(m.resume(Reply::Exists(false))).unwrap_err();
    assert!(err.not_found);
    assert!(err.message.contains("grub-install"));

    let (mut m, _) = GrubRepair::start(DetectedDistro::Arch(ArchLinux), efi());
    m.resume(Reply::Exists(true));
    m.resume(Reply::Exists(true));
    let err = done(m.resume(Reply::Status(Ok(false)))).unwrap_err();
    assert_eq!(err.message, "Initramfs regeneration failed");
}

#[test]
fn unreadable_default_grub_ends_repair_with_its_error() {
    let (mut m, _) = GrubRepair::start(DetectedDistro::Arch(ArchLinux), efi());
    m.resume(Reply::Exists(true));
    m.resume(Reply::Exists(true));
    m.resume(Reply::Status(Ok(true)));
    m.resume(Reply::Status(Ok(true)));
    m.resume(Reply::Exists(true));
    let failure = IoFailure::other("permission denied".to_string());
    let err = done(m.resume(Reply::Content(Err(failure)))).unwrap_err();
    assert_eq!(err.message, "permission denied");
}

#[test]
fn default_grub_without_prober_setting_is_appended_to() {
    let (mut m, _) = GrubRepair::start(DetectedDistro::Arch(ArchLinux), efi());
    m.resume(Reply::Exists(true));
    m.resume(Reply::Exists(true));
    m.resume(Reply::Status(Ok(true)));
    m.resume(Reply::Status(Ok(true)));
    m.resume(Reply::Exists(true));
    match run_op(m.resume(Reply::Content(Ok("GRUB_TIMEOUT=5\n".into())))) {
        Op::AppendFile(p, c) => {
            assert_eq!(p, "etc/default/grub");
            assert!(c.contains("GRUB_DISABLE_OS_PROBER=false"));
        }
        _ => panic!("expected an append"),
    }
}

#[test]
fn commented_out_setting_does_not_count() {
    // The commented-out default that Debian and Ubuntu ship.
    let content = os_prober_enabled_content(Some("GRUB_TIMEOUT=5\n#GRUB_DISABLE_OS_PROBER=false\n"));
    assert_eq!(
        content,
        "GRUB_TIMEOUT=5\n#GRUB_DISABLE_OS_PROBER=false\n\n# Enabled programmatically by Fix-Automation rescue tool\nGRUB_DISABLE_OS_PROBER=false\n"
    );
    assert!(content.lines().any(|l| l.trim() == "GRUB_DISABLE_OS_PROBER=false"));
    assert!(matches!(os_prober_edit("#GRUB_DISABLE_OS_PROBER=true\n"), ProberEdit::Append));
    assert!(matches!(os_prober_edit("GRUB_DISABLE_OS_PROBER=falsey\n"), ProberEdit::Append));
}

#[test]
fn disabling_line_is_flipped_even_beside_a_comment() {
    match os_prober_edit("#GRUB_DISABLE_OS_PROBER=false\nGRUB_DISABLE_OS_PROBER=true \n") {
        ProberEdit::Rewrite(text) => {
            assert_eq!(text, "#GRUB_DISABLE_OS_PROBER=false\nGRUB_DISABLE_OS_PROBER=false \n")
        }
        _ => panic!("expected a rewrite"),
    }
}

#[test]
fn indented_setting_counts() {
    assert!(matches!(os_prober_edit("  GRUB_DISABLE_OS_PROBER=false\n"), ProberEdit::Keep));
    assert_eq!(
        os_prober_enabled_content(Some("X=1\n\tGRUB_DISABLE_OS_PROBER=false\n")),
        "X=1\n\tGRUB_DISABLE_OS_PROBER=false\n"
    );
    match os_prober_edit("X=1\n \tGRUB_DISABLE_OS_PROBER=true\n") {
        ProberEdit::Rewrite(text) => assert_eq!(text, "X=1\n \tGRUB_DISABLE_OS_PROBER=false\n"),
        _ => panic!("expected a rewrite"),
    }
    assert!(matches!(os_prober_edit("# GRUB_DISABLE_OS_PROBER=false\n"), ProberEdit::Append));
}
