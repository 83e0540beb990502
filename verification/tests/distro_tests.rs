use fix_automation::distros::{
    detect, family_from_ids, parse_os_release, ArchLinux, Debian, DetectedDistro, Distro, Family,
    Fedora, UnknownDistro,
};

#[test]
fn detect_arch_by_id() {
    let d = detect(Some("ID=arch\nNAME=\"Arch Linux\"\n"));
    assert_eq!(d.name(), "Arch Linux");
    assert_eq!(d.initramfs_cmd(), vec!["mkinitcpio", "-P"]);
    assert_eq!(d.grub_install_bin(), "grub-install");
}

#[test]
fn detect_arch_by_id_like() {
    assert_eq!(detect(Some("ID=endeavouros\nID_LIKE=\"arch\"\n")).name(), "Arch Linux");
}

#[test]
fn detect_debian_family() {
    for id in ["debian", "ubuntu"] {
        let text = format!("ID={id}\n");
        assert_eq!(detect(Some(&text)).name(), "Debian/Ubuntu Family", "id={id}");
    }
}

#[test]
fn unrecognized_id_falls_back_to_unknown() {
    assert_eq!(detect(Some("ID=linuxmint\n")).name(), "Generic Linux Environment");
}

#[test]
fn detect_debian_by_id_like() {
    assert_eq!(detect(Some("ID=kali\nID_LIKE=\"debian\"\n")).name(), "Debian/Ubuntu Family");
}

#[test]
fn debian_uses_update_grub_hook_paths() {
    let d = Debian;
    assert_eq!(d.initramfs_cmd(), vec!["update-initramfs", "-u", "-k", "all"]);
    assert_eq!(d.grub_config_path(), "/boot/grub/grub.cfg");
}

#[test]
fn detect_fedora_family() {
    for id in ["fedora", "rhel"] {
        let text = format!("ID={id}\n");
        assert_eq!(detect(Some(&text)).name(), "Fedora Linux", "id={id}");
    }
}

#[test]
fn fedora_uses_grub2_layout() {
    let d = Fedora;
    assert_eq!(d.grub_install_bin(), "grub2-install");
    assert_eq!(d.grub_mkconfig_bin(), "grub2-mkconfig");
    assert_eq!(d.grub_config_path(), "/boot/grub2/grub.cfg");
    assert_eq!(d.initramfs_cmd(), vec!["dracut", "--regenerate-all", "--force"]);
}

#[test]
fn missing_os_release_falls_back_to_unknown() {
    let d = detect(None);
    assert_eq!(d.name(), "Generic Linux Environment");
    assert!(d.initramfs_cmd().is_empty());
}

#[test]
fn unknown_distro_parses_name_from_release() {
    let d = detect(Some("ID=nixos\nNAME=\"NixOS\"\n"));
    assert_eq!(d.name(), "NixOS");
    assert!(d.initramfs_cmd().is_empty());
}

#[test]
fn quoted_values_parsed_case_insensitive() {
    assert_eq!(detect(Some("ID=\"ARCH\"\n")).name(), "Arch Linux");
}

#[test]
fn comments_and_garbage_lines_ignored() {
    assert_eq!(detect(Some("# comment\nNOEQUALSHERE\nID=arch\n")).name(), "Arch Linux");
}

#[test]
fn arch_post_grub_hook_is_noop() {
    assert!(ArchLinux.post_grub_hook().is_none());
    assert!(Fedora.post_grub_hook().is_none());
}

#[test]
fn debian_runs_update_grub_after_mkconfig() {
    assert_eq!(Debian.post_grub_hook(), Some("update-grub"));
}

#[test]
fn every_family_keeps_default_grub_in_etc() {
    assert_eq!(ArchLinux.default_grub_file_path(), "etc/default/grub");
    assert_eq!(Debian.default_grub_file_path(), "etc/default/grub");
    let u = UnknownDistro::new(None);
    assert_eq!(u.default_grub_file_path(), "etc/default/grub");
    assert_eq!(u.grub_install_bin(), "grub-install");
    assert_eq!(u.grub_config_path(), "/boot/grub/grub.cfg");
}

#[test]
fn unknown_distro_without_name_is_generic() {
    assert_eq!(UnknownDistro::new(Some("ID=void\n")).detected_name, "Generic Linux Environment");
    assert_eq!(UnknownDistro::new(Some("PRETTY_NAME=\"Void\"\nNAME=\"Void Linux\"\nNAME=x\n")).detected_name, "Void Linux");
}

#[test]
fn os_release_values_are_unquoted_and_lowercased() {
    let (id, id_like) = parse_os_release("ID=Ubuntu\nID_LIKE=\"Debian\"\n");
    assert_eq!(id.iter().collect::<String>(), "ubuntu");
    assert_eq!(id_like.iter().collect::<String>(), "debian");
    let (id, id_like) = parse_os_release("ID=first\n  ID = 'Second' \n");
    assert_eq!(id.iter().collect::<String>(), "second");
    assert!(id_like.is_empty());
}

#[test]
fn os_release_later_assignment_wins() {
    let (id, id_like) = parse_os_release("ID=ubuntu\nID_LIKE=\"debian\"\nID=other\n");
    assert_eq!(id.iter().collect::<String>(), "other");
    assert_eq!(id_like.iter().collect::<String>(), "debian");
}

#[test]
fn family_checks_arch_then_debian_then_fedora() {
    let chars = |s: &str| s.chars().collect::<Vec<char>>();
    assert_eq!(family_from_ids(&chars("fedora"), &chars("debian")), Family::Debian);
    assert_eq!(family_from_ids(&chars("ubuntu"), &chars("arch")), Family::Arch);
    assert_eq!(family_from_ids(&chars("manjaro"), &chars("arch")), Family::Arch);
    assert_eq!(family_from_ids(&chars("rocky"), &chars("rhel centos fedora")), Family::Fedora);
    assert_eq!(family_from_ids(&chars("gentoo"), &chars("")), Family::Other);
}

#[test]
fn detected_distro_dispatches_to_family() {
    assert!(matches!(detect(Some("ID=arch\n")), DetectedDistro::Arch(_)));
    assert!(matches!(detect(Some("ID=ubuntu\n")), DetectedDistro::Debian(_)));
    assert!(matches!(detect(Some("ID=rhel\n")), DetectedDistro::Fedora(_)));
    assert!(matches!(detect(Some("ID=gentoo\n")), DetectedDistro::Unknown(_)));
}
