use fix_automation::init::{InitOp, InitPhase, InitReply, InitRequest, InitRun};

fn step(run: &mut InitRun, reply: InitReply) -> InitRequest {
    run.resume(reply)
}

fn path(op: &InitOp) -> &str {
    match op {
        InitOp::PathExists(p) | InitOp::Insmod(p) => p,
        _ => panic!("expected a path"),
    }
}

#[test]
fn only_process_one_brings_the_system_up() {
    let (run, op) = InitRun::start(false);
    assert_eq!(run.phase, InitPhase::Finished);
    assert!(matches!(op, InitOp::Finish(Ok(()))));
    let (run, op) = InitRun::start(true);
    assert_eq!(run.phase, InitPhase::MarkInit);
    assert!(matches!(op, InitOp::MarkInit));
}

#[test]
fn full_start_up_with_modules() {
    let (mut run, _) = InitRun::start(true);
    assert!(matches!(step(&mut run, InitReply::Ack).op, InitOp::MountFilesystems));
    assert!(matches!(step(&mut run, InitReply::Done(Ok(()))).op, InitOp::OpenSerial));
    let r = step(&mut run, InitReply::Ack);
    assert_eq!(r.serial, vec!["init: start"]);
    assert!(matches!(r.op, InitOp::ModulesDirExists));
    let r = step(&mut run, InitReply::Exists(true));
    assert_eq!(r.serial, vec!["init: loading modules..."]);
    assert_eq!(path(&r.op), "/modules/agpgart.ko");
    let r = step(&mut run, InitReply::Exists(true));
    assert!(matches!(r.op, InitOp::Insmod(_)));
    assert_eq!(path(&r.op), "/modules/agpgart.ko");
    let r = step(&mut run, InitReply::Exit(Some((true, Some(0)))));
    assert_eq!(r.serial, vec!["init: agpgart: OK"]);
    assert_eq!(path(&r.op), "/modules/drm.ko");
    let r = step(&mut run, InitReply::Exists(false));
    assert_eq!(r.serial, vec!["init: drm: file not found"]);
    assert_eq!(path(&r.op), "/modules/drm_kms_helper.ko");
    step(&mut run, InitReply::Exists(true));
    let r = step(&mut run, InitReply::Exit(Some((false, Some(-2)))));
    assert_eq!(r.serial, vec!["init: drm_kms_helper: busybox exit=Some(-2)"]);
    step(&mut run, InitReply::Exists(true));
    let r = step(&mut run, InitReply::Exit(Some((false, None))));
    assert_eq!(r.serial, vec!["init: ttm: busybox exit=None"]);
    step(&mut run, InitReply::Exists(true));
    let r = step(&mut run, InitReply::Exit(None));
    assert_eq!(r.serial, vec!["init: drm_ttm_helper: failed to run busybox"]);
    step(&mut run, InitReply::Exists(false));
    let r = step(&mut run, InitReply::Exists(false));
    assert_eq!(r.serial, vec!["init: bochs: file not found", "init: modules done"]);
    assert!(matches!(r.op, InitOp::SetupConsole));
    let r = step(&mut run, InitReply::Done(Ok(())));
    assert_eq!(path(&r.op), "/dev/fb0");
    let r = step(&mut run, InitReply::Exists(true));
    assert_eq!(r.serial, vec!["init: /dev/fb0 OK"]);
    assert!(matches!(r.op, InitOp::SetControllingTty));
    assert!(matches!(step(&mut run, InitReply::Done(Ok(()))).op, InitOp::SetupSignals));
    let r = step(&mut run, InitReply::Done(Ok(())));
    assert_eq!(r.serial, vec!["init: done"]);
    assert!(matches!(r.op, InitOp::Finish(Ok(()))));
    assert_eq!(run.phase, InitPhase::Finished);
}

#[test]
fn missing_modules_dir_and_framebuffer() {
    let (mut run, _) = InitRun::start(true);
    step(&mut run, InitReply::Ack);
    step(&mut run, InitReply::Done(Ok(())));
    step(&mut run, InitReply::Ack);
    let r = step(&mut run, InitReply::Exists(false));
    assert_eq!(r.serial, vec!["init: no /modules dir", "init: modules done"]);
    step(&mut run, InitReply::Done(Ok(())));
    let r = step(&mut run, InitReply::Exists(false));
    assert_eq!(r.serial, vec!["init: /dev/fb0 missing \u{2014} VT visible, no fbcon"]);
    assert!(matches!(r.op, InitOp::SetupSignals));
}

#[test]
fn failures_end_the_start_up() {
    let (mut run, _) = InitRun::start(true);
    step(&mut run, InitReply::Ack);
    let r = step(&mut run, InitReply::Done(Err("EPERM".to_string())));
    assert!(r.serial.is_empty());
    assert!(matches!(r.op, InitOp::Finish(Err(ref e)) if e == "EPERM"));

    let (mut run, _) = InitRun::start(true);
    step(&mut run, InitReply::Ack);
    step(&mut run, InitReply::Done(Ok(())));
    step(&mut run, InitReply::Ack);
    step(&mut run, InitReply::Exists(false));
    let r = step(&mut run, InitReply::Done(Err("could not open any console device".to_string())));
    assert_eq!(r.serial, vec!["init: setup_console: could not open any console device"]);
    assert!(matches!(r.op, InitOp::Finish(Err(_))));
    assert_eq!(run.phase, InitPhase::Finished);
}
