use std::sync::mpsc::{channel, Receiver, TryRecvError};

use fix_automation::app::{
    action_item, action_items_vec, first_action_index, Action, App, ConfirmFocus, CurrentScreen,
    DrainControl, InputEffect, Key, LogEvent, LogKind, LogLine, ScanState, ACTION_ITEMS_LEN,
};
use fix_automation::blkdev::DiskInfo;

fn disk(name: &str, label: Option<&str>) -> DiskInfo {
    DiskInfo {
        name: name.into(),
        size: "10G".into(),
        fstype: Some("ext4".into()),
        label: label.map(|l| l.into()),
        uuid: Some("uuid-1".into()),
        mountpoint: None,
        is_efi: false,
        contents: None,
    }
}

fn test_app() -> App {
    let mut app = App::new(false, None);
    app.disks = vec![disk("sda1", None), disk("sda2", None), disk("sda3", None)];
    app.scan_state = ScanState::Done;
    app
}

/// Reads the job's messages as the interface does once per frame.
fn drain(app: &mut App, rx: &mut Option<Receiver<LogLine>>) {
    loop {
        let ev = match rx {
            None => return,
            Some(r) => match r.try_recv() {
                Ok(line) => LogEvent::Line(line),
                Err(TryRecvError::Empty) => LogEvent::Empty,
                Err(TryRecvError::Disconnected) => LogEvent::Disconnected,
            },
        };
        match app.on_log_event(ev) {
            DrainControl::Continue => {}
            DrainControl::KeepReceiver => return,
            DrainControl::DropReceiver => {
                *rx = None;
                return;
            }
        }
    }
}

#[test]
fn action_items_all_have_labels_and_descriptions() {
    for item in action_items_vec().iter().flatten() {
        assert!(!item.label().is_empty());
        assert!(!item.description().is_empty());
    }
}

#[test]
fn action_descriptions_are_exact() {
    assert_eq!(Action::FixGrub.description(), "reinstall + regenerate grub.cfg");
    assert_eq!(Action::FixFstab.description(), "auto-regen or edit manually");
    assert_eq!(Action::FixGrubAndFstab.description(), "recommended");
    assert_eq!(Action::OpenChrootShell.description(), "drop into chroot shell");
    assert_eq!(Action::RestoreWindowsEfi.description(), "recover from NTFS backup");
    assert_eq!(Action::PartitionManager.description(), "create - delete - resize");
    assert_eq!(Action::ExportLogs.description(), "QR code - paste URL");
    assert_eq!(Action::DiagnoseWithAI.description(), "send logs to an AI assistant");
    assert_eq!(Action::DiagnoseWithAI.label(), "diagnose with AI");
}

#[test]
fn action_cursor_starts_on_first_real_action() {
    let app = test_app();
    assert!(action_item(app.action_cursor).is_some());
    assert_eq!(app.action_cursor, 1);
}

#[test]
fn action_nav_skips_headers() {
    let mut app = test_app();
    app.action_cursor = 4;
    app.action_next();
    assert_eq!(app.action_cursor, 6);

    app.action_prev();
    assert_eq!(app.action_cursor, 4);
}

#[test]
fn action_nav_wraps_forward_and_stops_at_top_backward() {
    let mut app = test_app();
    let last = ACTION_ITEMS_LEN - 1;
    assert!(action_item(last).is_some());

    app.action_cursor = last;
    app.action_next();
    assert_eq!(app.action_cursor, 1);

    app.action_prev();
    assert_eq!(app.action_cursor, 1);
}

#[test]
fn confirm_focus_toggles_both_ways() {
    let mut app = test_app();
    assert_eq!(app.confirm_focus, ConfirmFocus::Confirm);
    app.toggle_confirm_buttons();
    assert_eq!(app.confirm_focus, ConfirmFocus::Back);
    app.toggle_confirm_buttons();
    assert_eq!(app.confirm_focus, ConfirmFocus::Confirm);
}

#[test]
fn table_selection_wraps() {
    let mut app = test_app();

    app.table_state.select(Some(0));
    app.select_previous();
    assert_eq!(app.table_state.selected(), Some(2));

    app.select_next();
    assert_eq!(app.table_state.selected(), Some(0));

    app.select_next();
    assert_eq!(app.table_state.selected(), Some(1));
}

#[test]
fn empty_disk_list_navigation_is_noop() {
    let mut app = test_app();
    app.disks.clear();
    app.table_state.select(Some(0));
    app.select_next();
    app.select_previous();
    assert_eq!(app.table_state.selected(), Some(0));
}

#[test]
fn heuristic_distro_from_partition_label() {
    let cases = [
        ("arch-root", "Arch Linux"),
        ("debian", "Debian"),
        ("ubuntu", "Ubuntu"),
        ("fedora", "Fedora"),
        ("nixos", "NixOS"),
        ("mint", "Linux Mint"),
    ];
    for (label, expected) in cases {
        let mut app = test_app();
        app.disks[0].label = Some(label.into());
        app.selected_root = Some(app.disks[0].clone());
        assert_eq!(app.heuristic_distro(), expected, "label={label}");
    }
}

#[test]
fn heuristic_distro_unknown_when_no_match() {
    let mut app = test_app();
    app.selected_root = Some(disk("sda2", Some("data")));
    assert_eq!(app.heuristic_distro(), "Unknown Linux");
}

#[test]
fn detected_distro_takes_priority_over_heuristic() {
    let mut app = test_app();
    app.detected_distro = Some("Gentoo".into());
    app.selected_root = Some(disk("sda1", Some("arch")));
    assert_eq!(app.heuristic_distro(), "Gentoo");
}

#[test]
fn heuristic_distro_ignores_label_case() {
    // The label is lowercased before it is matched.
    let mut app = test_app();
    app.selected_root = Some(disk("sda1", Some("ARCH-ROOT")));
    assert_eq!(app.heuristic_distro(), "Arch Linux");
}

#[test]
fn heuristic_distro_looks_at_device_name_for_arch_only() {
    let mut app = test_app();
    app.selected_root = Some(disk("archroot", None));
    assert_eq!(app.heuristic_distro(), "Arch Linux");
    app.selected_root = Some(disk("fedora-root", None));
    assert_eq!(app.heuristic_distro(), "Unknown Linux");
}

#[test]
fn heuristic_distro_without_root_is_unknown() {
    let app = test_app();
    assert_eq!(app.heuristic_distro(), "Unknown Linux");
}

#[test]
fn drain_log_counts_steps_and_sets_done() {
    let mut app = test_app();
    let (tx, rx) = channel::<LogLine>();
    let mut rx = Some(rx);
    app.exec_step = 0;
    app.exec_done = false;

    tx.send(LogLine::step("step one")).unwrap();
    tx.send(LogLine::ok("did something")).unwrap();
    tx.send(LogLine::step("step two")).unwrap();
    tx.send(LogLine::error("boom")).unwrap();
    tx.send(LogLine::done()).unwrap();
    drop(tx);

    drain(&mut app, &mut rx);

    assert_eq!(app.exec_step, 2);
    assert_eq!(app.log_lines.len(), 4);
    assert!(app.exec_done);
    assert!(rx.is_none());
}

#[test]
fn drain_log_extracts_diagnosis_result() {
    let mut app = test_app();
    let (tx, rx) = channel::<LogLine>();
    let mut rx = Some(rx);

    tx.send(LogLine {
        kind: LogKind::DiagnosisResult(vec!["Diagnosis: broken".into()], Some(Action::FixGrub)),
        text: String::new(),
    })
    .unwrap();
    tx.send(LogLine::done()).unwrap();
    drop(tx);

    drain(&mut app, &mut rx);

    assert_eq!(app.diagnosis_summary, vec!["Diagnosis: broken".to_string()]);
    assert_eq!(app.recommended_action, Some(Action::FixGrub));
    assert!(app.log_lines.is_empty());
    assert!(app.exec_done);
}

#[test]
fn drain_log_without_receiver_is_noop() {
    let mut app = test_app();
    let mut rx: Option<Receiver<LogLine>> = None;
    drain(&mut app, &mut rx);
    assert!(!app.exec_done);
}

#[test]
fn drain_log_recovers_from_crashed_thread() {
    let mut app = test_app();
    let (tx, rx) = channel::<LogLine>();
    let mut rx = Some(rx);
    app.exec_done = false;

    tx.send(LogLine::step("mounting")).unwrap();
    drop(tx);

    drain(&mut app, &mut rx);

    assert!(app.exec_done, "UI must not hang when the thread panics");
    assert_eq!(app.exec_step, 1);
    let last = app.log_lines.last().unwrap();
    assert_eq!(last.kind, LogKind::Error);
    assert!(last.text.contains("crashed"));
    assert!(rx.is_none());
}

#[test]
fn drain_log_waits_while_job_runs() {
    let mut app = test_app();
    let (tx, rx) = channel::<LogLine>();
    let mut rx = Some(rx);
    tx.send(LogLine::output("working")).unwrap();

    drain(&mut app, &mut rx);

    assert_eq!(app.log_lines.len(), 1);
    assert!(!app.exec_done);
    assert!(rx.is_some());
    drop(tx);
}

#[test]
fn log_event_controls_the_channel() {
    let mut app = test_app();
    assert_eq!(app.on_log_event(LogEvent::Empty), DrainControl::KeepReceiver);
    assert_eq!(app.on_log_event(LogEvent::Line(LogLine::warn("w"))), DrainControl::Continue);
    assert_eq!(app.on_log_event(LogEvent::Line(LogLine::done())), DrainControl::DropReceiver);
    assert_eq!(app.on_log_event(LogEvent::Disconnected), DrainControl::DropReceiver);
    assert!(app.exec_done);
}

#[test]
fn check_scan_consumes_channel_once() {
    let mut app = test_app();
    let (tx, rx) = channel();
    tx.send(vec![disk("vda1", None)]).unwrap();
    app.scan_state = ScanState::Scanning;

    app.check_scan(rx.try_recv().ok());
    assert_eq!(app.scan_state, ScanState::Done);
    assert_eq!(app.disks.len(), 1);
    assert_eq!(app.disks[0].name, "vda1");

    app.check_scan(Some(vec![disk("vdb1", None), disk("vdb2", None)]));
    assert_eq!(app.disks.len(), 1);
}

#[test]
fn check_scan_waits_for_the_result() {
    let mut app = test_app();
    app.scan_state = ScanState::Scanning;
    app.check_scan(None);
    assert!(app.is_scanning());
    assert_eq!(app.disks.len(), 3);
}

#[test]
fn new_app_starts_on_welcome_screen() {
    let app = App::new(true, Some("10.0.0.2".to_string()));
    assert_eq!(app.current_screen, CurrentScreen::Welcome);
    assert!(app.is_uefi);
    assert_eq!(app.network_info.as_deref(), Some("10.0.0.2"));
    assert_eq!(app.scan_state, ScanState::Scanning);
    assert_eq!(app.table_state.selected(), Some(0));
    assert_eq!(app.action_cursor, first_action_index());
    assert_eq!(app.exec_total, 7);
}

#[test]
fn action_labels_and_availability() {
    assert_eq!(Action::FixGrub.label(), "fix grub");
    assert_eq!(Action::FixGrubAndFstab.description(), "recommended");
    assert!(Action::FixFstab.is_available());
    assert!(Action::OpenChrootShell.is_available());
    assert!(!Action::PartitionManager.is_available());
    assert!(!Action::DiagnoseWithAI.is_available());
}

#[test]
fn start_diagnosis_needs_a_root() {
    let mut app = test_app();
    assert!(app.start_diagnosis().is_none());
    assert_eq!(app.current_screen, CurrentScreen::Welcome);

    app.selected_root = Some(disk("sda2", None));
    app.exec_step = 3;
    let job = app.start_diagnosis().unwrap();
    assert_eq!(job.root.name, "sda2");
    assert_eq!(job.disks.len(), 3);
    assert_eq!(app.current_screen, CurrentScreen::DiagnoseLog);
    assert_eq!(app.exec_total, 4);
    assert_eq!(app.exec_step, 0);
}

#[test]
fn start_repair_sets_step_total_by_action() {
    let mut app = test_app();
    app.selected_root = Some(disk("sda2", None));
    assert!(app.start_repair().is_none());

    app.selected_action = Some(Action::FixGrubAndFstab);
    let job = app.start_repair().unwrap();
    assert_eq!(job.action, Action::FixGrubAndFstab);
    assert_eq!(app.exec_total, 9);
    assert_eq!(app.current_screen, CurrentScreen::ExecLog);

    app.selected_action = Some(Action::FixFstab);
    app.start_repair().unwrap();
    assert_eq!(app.exec_total, 5);
}

#[test]
fn welcome_enter_goes_to_root_selection_and_q_quits() {
    let mut app = test_app();
    assert!(matches!(app.handle_input(Key::Enter), InputEffect::Nothing));
    assert_eq!(app.current_screen, CurrentScreen::SelectRoot);
    assert_eq!(app.table_state.selected(), Some(0));

    let mut app = test_app();
    app.handle_input(Key::Char('q'));
    assert!(app.should_quit);
}

#[test]
fn power_keys_ask_for_reboot_and_poweroff() {
    let mut app = test_app();
    assert!(matches!(app.handle_key(Key::Char('r')), InputEffect::Reboot));
    assert!(app.should_quit);
    let mut app = test_app();
    assert!(matches!(app.handle_key(Key::Char('p')), InputEffect::Poweroff));
    assert!(app.should_quit);
}

#[test]
fn efi_screen_without_efi_partition_continues_on_enter() {
    let mut app = test_app();
    app.current_screen = CurrentScreen::SelectEfi;
    app.selected_root = Some(disk("sda2", None));
    assert!(matches!(app.handle_input(Key::Enter), InputEffect::Nothing));
    assert_eq!(app.current_screen, CurrentScreen::Confirm);
    assert!(app.selected_efi.is_none());
}

#[test]
fn efi_screen_picks_the_selected_esp() {
    let mut app = test_app();
    let mut esp = disk("sda1", None);
    esp.is_efi = true;
    app.disks.insert(0, esp);
    app.current_screen = CurrentScreen::SelectEfi;
    app.table_state.select(Some(0));
    app.handle_input(Key::Enter);
    assert_eq!(app.current_screen, CurrentScreen::Confirm);
    assert_eq!(app.selected_efi.as_ref().map(|d| d.name.as_str()), Some("sda1"));
}

#[test]
fn q_quits_the_action_menu_whatever_the_cursor() {
    let mut app = test_app();
    app.current_screen = CurrentScreen::ActionMenu;
    app.action_cursor = 40;
    app.handle_input(Key::Char('q'));
    assert!(app.should_quit);
    assert_eq!(app.action_cursor, 40);
}
