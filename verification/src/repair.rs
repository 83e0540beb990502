//! The repair and diagnosis jobs: what each does to the target, in order,
//! and what it reports.  Each job is a state machine over the requests of
//! `host`; the system it runs on answers them.
use vstd::prelude::*;
use crate::app::{Action, LogKind, LogKindView, LogLine, LogLineView, log_views, string_views};
use crate::blkdev::{DiskInfo, DiskView};
use crate::distros::{detect, spec_detect, DetectedDistro, Distro, DistroView};
use crate::fstab::{
    fstab_issues, live_views, opt_view, FstabAuditor, FstabError, LivePartition, LiveView,
};
use crate::grub::{bin_path, grub_next, BootType, GrubPhase, GrubRepair, GrubStep, GrubStepView, phase_reply_fits};
use crate::host::{decimal, decimal_string, join2, join3, FailureView, IoFailure, Op, OpView, Reply, Request, RequestView};

verus! {

// ─── Log lines ───────────────────────────────────────────────────────────────
pub open spec fn step_line(t: Seq<char>) -> LogLineView {
    LogLineView { kind: LogKindView::Step, text: t }
}

pub open spec fn ok_line(t: Seq<char>) -> LogLineView {
    LogLineView { kind: LogKindView::Success, text: t }
}

pub open spec fn warn_line(t: Seq<char>) -> LogLineView {
    LogLineView { kind: LogKindView::Warn, text: t }
}

pub open spec fn error_line(t: Seq<char>) -> LogLineView {
    LogLineView { kind: LogKindView::Error, text: t }
}

pub open spec fn done_line() -> LogLineView {
    LogLineView { kind: LogKindView::Done, text: Seq::empty() }
}

pub open spec fn dev_path(name: Seq<char>) -> Seq<char> {
    "/dev/"@ + name
}

pub open spec fn mounted_root_text(name: Seq<char>) -> Seq<char> {
    "mounted "@ + dev_path(name) + " \u{2192} /mnt"@
}

pub open spec fn mounted_efi_text(name: Seq<char>) -> Seq<char> {
    "mounted "@ + dev_path(name) + " \u{2192} /mnt/boot/efi"@
}

pub open spec fn view_name(v: DistroView) -> Seq<char> {
    match v {
        DistroView::Arch => "Arch Linux"@,
        DistroView::Debian => "Debian/Ubuntu Family"@,
        DistroView::Fedora => "Fedora Linux"@,
        DistroView::Unknown(n) => n,
    }
}

pub proof fn lemma_name_of_view(d: DetectedDistro)
    ensures
        d.spec_name() == view_name(d@),
{
}

pub open spec fn detected_text(v: DistroView) -> Seq<char> {
    "detected: "@ + view_name(v)
}

pub open spec fn issues_found_text(n: nat) -> Seq<char> {
    "found "@ + decimal(n) + " issues in fstab"@
}

pub open spec fn content_opt(c: Result<String, IoFailure>) -> Option<Seq<char>> {
    match c {
        Ok(s) => Some(s@),
        Err(_) => None,
    }
}

/// The boot type that a repair uses: EFI with the ESP at `/boot/efi`, or
/// BIOS on `/dev/sda`.
pub open spec fn boot_type_for(bt: BootType, is_uefi: bool) -> bool {
    match bt {
        BootType::Efi { efi_mount_inside_chroot } => is_uefi && efi_mount_inside_chroot@
            == "/boot/efi"@,
        BootType::Bios { target_disk } => !is_uefi && target_disk@ == "/dev/sda"@,
    }
}

/// The live partition that stands for a disk in an fstab audit.
pub open spec fn live_of(d: DiskView) -> LiveView {
    LiveView {
        path: dev_path(d.name),
        uuid: match d.uuid {
            Some(u) => u,
            None => Seq::empty(),
        },
        fstype: match d.fstype {
            Some(f) => f,
            None => Seq::empty(),
        },
        current_mount: d.mountpoint,
    }
}

fn line(kind: LogKind, text: String) -> (r: LogLine)
    ensures
        r.kind == kind,
        r.text == text,
{
    LogLine { kind, text }
}

fn logs1(a: LogLine) -> (r: Vec<LogLine>)
    ensures
        log_views(r@) == seq![a@],
{
    let mut r = Vec::new();
    r.push(a);
    assert(log_views(r@) =~= seq![a@]);
    r
}

fn logs2(a: LogLine, b: LogLine) -> (r: Vec<LogLine>)
    ensures
        log_views(r@) == seq![a@, b@],
{
    let mut r = Vec::new();
    r.push(a);
    r.push(b);
    assert(log_views(r@) =~= seq![a@, b@]);
    r
}

fn logs3(a: LogLine, b: LogLine, c: LogLine) -> (r: Vec<LogLine>)
    ensures
        log_views(r@) == seq![a@, b@, c@],
{
    let mut r = Vec::new();
    r.push(a);
    r.push(b);
    r.push(c);
    assert(log_views(r@) =~= seq![a@, b@, c@]);
    r
}

fn dev_path_exec(name: &String) -> (r: String)
    ensures
        r@ == dev_path(name@),
{
    join2("/dev/", name.as_str())
}

fn unmount_req(first: LogLine, step_text: &str) -> (r: Request)
    ensures
        r@ == (RequestView {
            logs: seq![first@, step_line(step_text@)],
            op: OpView::Umount("/mnt"@),
        }),
{
    Request { logs: logs2(first, LogLine::step(step_text)), op: Op::Umount(String::from_str("/mnt")) }
}

fn unmount_req_quiet(first: LogLine, text: &str) -> (r: Request)
    ensures
        r@ == (RequestView {
            logs: seq![first@, LogLineView { kind: LogKindView::Output, text: text@ }],
            op: OpView::Umount("/mnt"@),
        }),
{
    Request { logs: logs2(first, LogLine::output(text)), op: Op::Umount(String::from_str("/mnt")) }
}

fn live_from_disk(d: &DiskInfo) -> (r: LivePartition)
    ensures
        r@ == live_of(d@),
{
    LivePartition {
        path: dev_path_exec(&d.name),
        uuid: match &d.uuid {
            Some(u) => u.clone(),
            None => String::new(),
        },
        fstype: match &d.fstype {
            Some(f) => f.clone(),
            None => String::new(),
        },
        current_mount: match &d.mountpoint {
            Some(m) => Some(m.clone()),
            None => None,
        },
    }
}

// ─── Repair job ──────────────────────────────────────────────────────────────
/// Where a repair job stands: which reply it waits for.
pub enum RepairPhase {
    MountRoot,
    MountEfi,
    Bind,
    Detect,
    Grub(GrubRepair),
    FstabExists,
    FstabRead,
    Unmount,
    Finished,
}

/// A repair of the installed system: mount it (and its ESP on UEFI),
/// bind-mount the kernel filesystems, detect the distribution, carry out the
/// action, unmount.
pub struct RepairRun {
    pub action: Action,
    pub root: DiskInfo,
    pub efi: Option<DiskInfo>,
    pub is_uefi: bool,
    pub phase: RepairPhase,
}

/// The kind of reply that each phase waits for.
pub open spec fn repair_reply_fits(p: RepairPhase, r: Reply) -> bool {
    match p {
        RepairPhase::MountRoot | RepairPhase::MountEfi | RepairPhase::Bind | RepairPhase::Unmount =>
            r is Ack,
        RepairPhase::Detect | RepairPhase::FstabRead => r is Content,
        RepairPhase::FstabExists => r is Exists,
        RepairPhase::Grub(m) => m.wf() && phase_reply_fits(m.phase, r),
        RepairPhase::Finished => false,
    }
}

/// The EFI partition is mounted only when there is one; a running GRUB
/// repair is consistent and unfinished.
pub open spec fn repair_wf(r: RepairRun) -> bool {
    match r.phase {
        RepairPhase::Grub(m) => m.wf() && m.phase != GrubPhase::Finished,
        RepairPhase::MountEfi => r.efi is Some,
        _ => true,
    }
}

pub open spec fn is_grub_action(a: Action) -> bool {
    a == Action::FixGrub || a == Action::FixGrubAndFstab
}

/// The report of a finished GRUB repair, followed by the unmount step.
pub open spec fn grub_report(res: Result<(), FailureView>) -> LogLineView {
    match res {
        Ok(()) => ok_line("GRUB repair completed"@),
        Err(e) => error_line("GRUB repair failed: "@ + e.message),
    }
}

/// The report of an fstab audit of a repair.
pub open spec fn repair_fstab_report(c: Result<String, IoFailure>, live: Seq<LiveView>) -> LogLineView {
    match c {
        Ok(text) => {
            let n = fstab_issues(text@, live).len();
            if n == 0 {
                ok_line("fstab validated \u{2014} no issues found"@)
            } else {
                warn_line(issues_found_text(n))
            }
        },
        Err(e) => error_line("fstab audit failed: "@ + e@.message),
    }
}

pub open spec fn unmount_all_step() -> LogLineView {
    step_line("unmounting all filesystems"@)
}

/// How the repair moves on: from `before` on `reply` to `after`, asking `req`.
pub open spec fn repair_transition(before: RepairRun, reply: Reply, after: RepairRun, req: RequestView) -> bool {
    &&& after.action == before.action
    &&& after.root == before.root
    &&& after.efi == before.efi
    &&& after.is_uefi == before.is_uefi
    &&& match before.phase {
        RepairPhase::MountRoot => {
            let first = ok_line(mounted_root_text(before.root.name@));
            if before.is_uefi && before.efi is Some {
                &&& after.phase is MountEfi
                &&& req == RequestView {
                    logs: seq![first, step_line("mounting EFI partition"@)],
                    op: OpView::MountEfi(dev_path(before.efi->0.name@)),
                }
            } else {
                &&& after.phase is Bind
                &&& req == RequestView {
                    logs: seq![first, step_line("bind mounting /dev /proc /sys /run"@)],
                    op: OpView::MountBind,
                }
            }
        },
        RepairPhase::MountEfi => {
            &&& after.phase is Bind
            &&& req == RequestView {
                logs: seq![
                    ok_line(mounted_efi_text(before.efi->0.name@)),
                    step_line("bind mounting /dev /proc /sys /run"@),
                ],
                op: OpView::MountBind,
            }
        },
        RepairPhase::Bind => {
            &&& after.phase is Detect
            &&& req == RequestView {
                logs: seq![ok_line("bind mounts ready"@), step_line("detecting distribution"@)],
                op: OpView::ReadFile("etc/os-release"@),
            }
        },
        RepairPhase::Detect => {
            let dv = spec_detect(content_opt(reply->Content_0));
            let first = ok_line(detected_text(dv));
            if is_grub_action(before.action) {
                &&& after.phase matches RepairPhase::Grub(m) && m.distro@ == dv && boot_type_for(
                    m.boot_type,
                    before.is_uefi,
                ) && m.phase == GrubPhase::CheckInstall && req == RequestView {
                    logs: seq![first, step_line("running GRUB repair"@)],
                    op: OpView::FileExists(bin_path(m.distro.spec_grub_install_bin())),
                }
            } else if before.action == Action::FixFstab {
                &&& after.phase is FstabExists
                &&& req == RequestView {
                    logs: seq![first, step_line("auditing /etc/fstab"@)],
                    op: OpView::FileExists("etc/fstab"@),
                }
            } else if before.action == Action::OpenChrootShell {
                &&& after.phase is Unmount
                &&& req == RequestView {
                    logs: seq![
                        first,
                        warn_line("chroot shell \u{2014} switch to TTY and run: chroot /mnt"@),
                        unmount_all_step(),
                    ],
                    op: OpView::Umount("/mnt"@),
                }
            } else {
                &&& after.phase is Unmount
                &&& req == RequestView {
                    logs: seq![
                        first,
                        warn_line("this action is not yet implemented"@),
                        unmount_all_step(),
                    ],
                    op: OpView::Umount("/mnt"@),
                }
            }
        },
        RepairPhase::Grub(m) => {
            let (p2, st) = grub_next(m.distro, m.boot_type, m.phase, reply);
            match st {
                GrubStepView::Run(op) => {
                    &&& after.phase matches RepairPhase::Grub(m2) && m2.distro == m.distro
                        && m2.boot_type == m.boot_type && m2.phase == p2
                    &&& req == RequestView { logs: Seq::empty(), op }
                },
                GrubStepView::Done(res) => if before.action == Action::FixGrubAndFstab {
                    &&& after.phase is FstabExists
                    &&& req == RequestView {
                        logs: seq![grub_report(res), step_line("auditing /etc/fstab"@)],
                        op: OpView::FileExists("etc/fstab"@),
                    }
                } else {
                    &&& after.phase is Unmount
                    &&& req == RequestView {
                        logs: seq![grub_report(res), unmount_all_step()],
                        op: OpView::Umount("/mnt"@),
                    }
                },
            }
        },
        RepairPhase::FstabExists => if reply->Exists_0 {
            &&& after.phase is FstabRead
            &&& req == RequestView { logs: Seq::empty(), op: OpView::ReadFile("etc/fstab"@) }
        } else {
            &&& after.phase is Unmount
            &&& req == RequestView {
                logs: seq![
                    error_line(
                        "fstab audit failed: "@
                            + "The target /etc/fstab configuration file is missing completely."@,
                    ),
                    unmount_all_step(),
                ],
                op: OpView::Umount("/mnt"@),
            }
        },
        RepairPhase::FstabRead => {
            &&& after.phase is Unmount
            &&& req == RequestView {
                logs: seq![
                    repair_fstab_report(reply->Content_0, seq![live_of(before.root@)]),
                    unmount_all_step(),
                ],
                op: OpView::Umount("/mnt"@),
            }
        },
        RepairPhase::Unmount => {
            &&& after.phase is Finished
            &&& req == RequestView {
                logs: seq![ok_line("repair complete \u{2014} safe to reboot"@), done_line()],
                op: OpView::Finish,
            }
        },
        RepairPhase::Finished => false,
    }
}

/// Starts a repair job.  `run` is the first request: announce and mount the root.
pub open spec fn repair_start_request(root: DiskView) -> RequestView {
    RequestView {
        logs: seq![step_line("mounting root partition"@)],
        op: OpView::Mount(dev_path(root.name)),
    }
}

/// Starts the repair job `action` on `root` (and `efi`, mounted on UEFI
/// only); returns the job and its first request.
pub fn run(action: Action, root: DiskInfo, efi: Option<DiskInfo>, is_uefi: bool) -> (r: (
    RepairRun,
    Request,
))
    ensures
        r.0.action == action,
        r.0.root == root,
        r.0.efi == efi,
        r.0.is_uefi == is_uefi,
        r.0.phase is MountRoot,
        repair_wf(r.0),
        r.1@ == repair_start_request(root@),
{
    RepairRun::start(action, root, efi, is_uefi)
}

impl RepairRun {
    /// Starts the repair job `action` on `root` (and `efi`, mounted on UEFI
    /// only); returns the job and its first request.
    pub fn start(action: Action, root: DiskInfo, efi: Option<DiskInfo>, is_uefi: bool) -> (r: (
        RepairRun,
        Request,
    ))
        ensures
            r.0.action == action,
            r.0.root == root,
            r.0.efi == efi,
            r.0.is_uefi == is_uefi,
            r.0.phase is MountRoot,
            r.1@ == repair_start_request(root@),
    {
        let dev = dev_path_exec(&root.name);
        let req = Request { logs: logs1(LogLine::step("mounting root partition")), op: Op::Mount(dev) };
        (RepairRun { action, root, efi, is_uefi, phase: RepairPhase::MountRoot }, req)
    }

    /// Whether the repair is consistent and waits for a reply of the kind of
    /// `reply`, as `resume` needs.
    pub fn accepts(&self, reply: &Reply) -> (r: bool)
        ensures
            r == (repair_wf(*self) && repair_reply_fits(self.phase, *reply)),
    {
        match &self.phase {
            RepairPhase::MountRoot | RepairPhase::Bind | RepairPhase::Unmount => match reply {
                Reply::Ack => true,
                _ => false,
            },
            RepairPhase::MountEfi => self.efi.is_some() && match reply {
                Reply::Ack => true,
                _ => false,
            },
            RepairPhase::Detect | RepairPhase::FstabRead => match reply {
                Reply::Content(_) => true,
                _ => false,
            },
            RepairPhase::FstabExists => match reply {
                Reply::Exists(_) => true,
                _ => false,
            },
            RepairPhase::Grub(m) => m.phase != GrubPhase::Finished && m.accepts(reply),
            RepairPhase::Finished => false,
        }
    }

    /// Takes the reply to the last request and returns the next one.
    pub fn resume(&mut self, reply: Reply) -> (r: Request)
        requires
            repair_wf(*old(self)),
            repair_reply_fits(old(self).phase, reply),
        ensures
            repair_wf(*final(self)),
            repair_transition(*old(self), reply, *final(self), r@),
    {
        let mut phase = RepairPhase::Finished;
        std::mem::swap(&mut phase, &mut self.phase);
        match phase {
            RepairPhase::MountRoot => {
                let first = LogLine::ok(
                    join3("mounted ", dev_path_exec(&self.root.name).as_str(), " \u{2192} /mnt").as_str(),
                );
                match &self.efi {
                    Some(efi) => {
                        if self.is_uefi {
                            self.phase = RepairPhase::MountEfi;
                            return Request {
                                logs: logs2(first, LogLine::step("mounting EFI partition")),
                                op: Op::MountEfi(dev_path_exec(&efi.name)),
                            };
                        }
                    },
                    None => {},
                }
                self.phase = RepairPhase::Bind;
                Request {
                    logs: logs2(first, LogLine::step("bind mounting /dev /proc /sys /run")),
                    op: Op::MountBind,
                }
            },
            RepairPhase::MountEfi => {
                let name = match &self.efi {
                    Some(efi) => dev_path_exec(&efi.name),
                    None => String::new(),
                };
                self.phase = RepairPhase::Bind;
                Request {
                    logs: logs2(
                        LogLine::ok(join3("mounted ", name.as_str(), " \u{2192} /mnt/boot/efi").as_str()),
                        LogLine::step("bind mounting /dev /proc /sys /run"),
                    ),
                    op: Op::MountBind,
                }
            },
            RepairPhase::Bind => {
                self.phase = RepairPhase::Detect;
                Request {
                    logs: logs2(
                        LogLine::ok("bind mounts ready"),
                        LogLine::step("detecting distribution"),
                    ),
                    op: Op::ReadFile(String::from_str("etc/os-release")),
                }
            },
            RepairPhase::Detect => {
                let content = match reply {
                    Reply::Content(c) => c,
                    _ => Err(IoFailure::other(String::new())),
                };
                let distro = match &content {
                    Ok(s) => detect(Some(s.as_str())),
                    Err(_) => detect(None),
                };
                proof {
                    lemma_name_of_view(distro);
                }
                let first = LogLine::ok(join2("detected: ", distro.name()).as_str());
                match self.action {
                    Action::FixGrub | Action::FixGrubAndFstab => {
                        let boot_type = if self.is_uefi {
                            BootType::Efi { efi_mount_inside_chroot: String::from_str("/boot/efi") }
                        } else {
                            BootType::Bios { target_disk: String::from_str("/dev/sda") }
                        };
                        let (m, op) = GrubRepair::start(distro, boot_type);
                        self.phase = RepairPhase::Grub(m);
                        Request { logs: logs2(first, LogLine::step("running GRUB repair")), op }
                    },
                    Action::FixFstab => {
                        self.phase = RepairPhase::FstabExists;
                        Request {
                            logs: logs2(first, LogLine::step("auditing /etc/fstab")),
                            op: Op::FileExists(String::from_str("etc/fstab")),
                        }
                    },
                    Action::OpenChrootShell => {
                        self.phase = RepairPhase::Unmount;
                        Request {
                            logs: logs3(
                                first,
                                LogLine::warn(
                                    "chroot shell \u{2014} switch to TTY and run: chroot /mnt",
                                ),
                                LogLine::step("unmounting all filesystems"),
                            ),
                            op: Op::Umount(String::from_str("/mnt")),
                        }
                    },
                    _ => {
                        self.phase = RepairPhase::Unmount;
                        Request {
                            logs: logs3(
                                first,
                                LogLine::warn("this action is not yet implemented"),
                                LogLine::step("unmounting all filesystems"),
                            ),
                            op: Op::Umount(String::from_str("/mnt")),
                        }
                    },
                }
            },
            RepairPhase::Grub(m) => {
                let mut m = m;
                match m.resume(reply) {
                    GrubStep::Run(op) => {
                        self.phase = RepairPhase::Grub(m);
                        let logs: Vec<LogLine> = Vec::new();
                        assert(log_views(logs@) =~= Seq::<LogLineView>::empty());
                        Request { logs, op }
                    },
                    GrubStep::Done(res) => {
                        let report = match res {
                            Ok(()) => LogLine::ok("GRUB repair completed"),
                            Err(e) => LogLine::error(
                                join2("GRUB repair failed: ", e.message.as_str()).as_str(),
                            ),
                        };
                        if self.action == Action::FixGrubAndFstab {
                            // The combined action audits fstab once GRUB is done.
                            self.phase = RepairPhase::FstabExists;
                            Request {
                                logs: logs2(report, LogLine::step("auditing /etc/fstab")),
                                op: Op::FileExists(String::from_str("etc/fstab")),
                            }
                        } else {
                            self.phase = RepairPhase::Unmount;
                            unmount_req(report, "unmounting all filesystems")
                        }
                    },
                }
            },
            RepairPhase::FstabExists => {
                let exists = match reply {
                    Reply::Exists(e) => e,
                    _ => false,
                };
                if exists {
                    self.phase = RepairPhase::FstabRead;
                    let logs: Vec<LogLine> = Vec::new();
                    assert(log_views(logs@) =~= Seq::<LogLineView>::empty());
                    Request { logs, op: Op::ReadFile(String::from_str("etc/fstab")) }
                } else {
                    self.phase = RepairPhase::Unmount;
                    let e = FstabError::Missing;
                    let msg = e.message();
                    unmount_req(
                        LogLine::error(join2("fstab audit failed: ", msg.as_str()).as_str()),
                        "unmounting all filesystems",
                    )
                }
            },
            RepairPhase::FstabRead => {
                self.phase = RepairPhase::Unmount;
                let live = vec![live_from_disk(&self.root)];
                proof {
                    assert(live_views(live@) =~= seq![live_of(self.root@)]);
                }
                let report = match reply {
                    Reply::Content(Ok(text)) => {
                        match FstabAuditor::audit_fstab(Some(text.as_str()), live.as_slice()) {
                            Ok(issues) => {
                                proof {
                                    assert(issues@.len() == crate::fstab::issue_views(issues@).len());
                                }
                                if issues.len() == 0 {
                                    LogLine::ok("fstab validated \u{2014} no issues found")
                                } else {
                                    LogLine::warn(
                                        join3(
                                            "found ",
                                            decimal_string(issues.len()).as_str(),
                                            " issues in fstab",
                                        ).as_str(),
                                    )
                                }
                            },
                            Err(_) => LogLine::ok(""),
                        }
                    },
                    Reply::Content(Err(e)) => LogLine::error(
                        join2("fstab audit failed: ", e.message.as_str()).as_str(),
                    ),
                    _ => LogLine::ok(""),
                };
                unmount_req(report, "unmounting all filesystems")
            },
            RepairPhase::Unmount => {
                self.phase = RepairPhase::Finished;
                Request {
                    logs: logs2(LogLine::ok("repair complete \u{2014} safe to reboot"), LogLine::done()),
                    op: Op::Finish,
                }
            },
            RepairPhase::Finished => Request { logs: Vec::new(), op: Op::Finish },
        }
    }
}


// ─── Diagnosis job ───────────────────────────────────────────────────────────
pub open spec fn summary_text(grub_broken: bool, fstab_broken: bool) -> Seq<char> {
    if grub_broken && fstab_broken {
        "Diagnosis: GRUB is missing and fstab contains errors."@
    } else if grub_broken {
        "Diagnosis: GRUB installation is broken or missing."@
    } else if fstab_broken {
        "Diagnosis: /etc/fstab contains invalid UUIDs or mounts."@
    } else {
        "Diagnosis: No major issues found. Select an action manually."@
    }
}

/// The action a diagnosis recommends: the repair of what it found broken.
pub open spec fn recommendation(grub_broken: bool, fstab_broken: bool) -> Option<Action> {
    if grub_broken && fstab_broken {
        Some(Action::FixGrubAndFstab)
    } else if grub_broken {
        Some(Action::FixGrub)
    } else if fstab_broken {
        Some(Action::FixFstab)
    } else {
        None
    }
}

/// The summary (one message) and the recommended action of a diagnosis.
pub fn diagnosis_summary(grub_broken: bool, fstab_broken: bool) -> (r: (Vec<String>, Option<Action>))
    ensures
        string_views(r.0@) == seq![summary_text(grub_broken, fstab_broken)],
        r.1 == recommendation(grub_broken, fstab_broken),
{
    let mut summary: Vec<String> = Vec::new();
    let rec = if grub_broken && fstab_broken {
        summary.push(String::from_str("Diagnosis: GRUB is missing and fstab contains errors."));
        Some(Action::FixGrubAndFstab)
    } else if grub_broken {
        summary.push(String::from_str("Diagnosis: GRUB installation is broken or missing."));
        Some(Action::FixGrub)
    } else if fstab_broken {
        summary.push(String::from_str("Diagnosis: /etc/fstab contains invalid UUIDs or mounts."));
        Some(Action::FixFstab)
    } else {
        summary.push(
            String::from_str("Diagnosis: No major issues found. Select an action manually."),
        );
        None
    };
    assert(string_views(summary@) =~= seq![summary_text(grub_broken, fstab_broken)]);
    (summary, rec)
}

pub open spec fn result_line(grub_broken: bool, fstab_broken: bool) -> LogLineView {
    LogLineView {
        kind: LogKindView::DiagnosisResult(
            seq![summary_text(grub_broken, fstab_broken)],
            recommendation(grub_broken, fstab_broken),
        ),
        text: Seq::empty(),
    }
}

/// Where a diagnosis job stands: which reply it waits for.
#[derive(Clone, Copy, Debug, PartialEq, Eq, Structural)]
pub enum DiagnosisPhase {
    MountRoot,
    Detect,
    CheckInstall,
    CheckMkconfig,
    FstabExists,
    FstabRead,
    Unmount,
    Finished,
}

/// A diagnosis of the installed system: mount it, detect the distribution,
/// check that GRUB is installed and audit fstab against the live disks,
/// unmount, recommend a repair.
pub struct DiagnosisRun {
    pub root: DiskInfo,
    pub efi: Option<DiskInfo>,
    pub is_uefi: bool,
    pub disks: Vec<DiskInfo>,
    pub distro: Option<DetectedDistro>,
    pub grub_broken: bool,
    pub fstab_broken: bool,
    pub phase: DiagnosisPhase,
}

pub open spec fn diagnosis_reply_fits(p: DiagnosisPhase, r: Reply) -> bool {
    match p {
        DiagnosisPhase::MountRoot | DiagnosisPhase::Unmount => r is Ack,
        DiagnosisPhase::Detect | DiagnosisPhase::FstabRead => r is Content,
        DiagnosisPhase::CheckInstall | DiagnosisPhase::CheckMkconfig | DiagnosisPhase::FstabExists =>
            r is Exists,
        DiagnosisPhase::Finished => false,
    }
}

/// The GRUB checks run only once the distribution is known.
pub open spec fn diagnosis_wf(d: DiagnosisRun) -> bool {
    (d.phase == DiagnosisPhase::CheckInstall || d.phase == DiagnosisPhase::CheckMkconfig)
        ==> d.distro is Some
}

pub open spec fn live_of_disks(disks: Seq<DiskInfo>) -> Seq<LiveView> {
    disks.map_values(|d: DiskInfo| live_of(d@))
}

/// The diagnosis counts four steps (mount, detect, check GRUB, audit fstab);
/// its unmounting is reported as output, not as a fifth step.
pub open spec fn unmount_step() -> LogLineView {
    LogLineView { kind: LogKindView::Output, text: "unmounting filesystems"@ }
}

pub open spec fn fstab_step() -> LogLineView {
    step_line("auditing /etc/fstab"@)
}

/// How the diagnosis moves on: from `before` on `reply` to `after`, asking `req`.
pub open spec fn diagnosis_transition(
    before: DiagnosisRun,
    reply: Reply,
    after: DiagnosisRun,
    req: RequestView,
) -> bool {
    &&& after.root == before.root
    &&& after.efi == before.efi
    &&& after.is_uefi == before.is_uefi
    &&& after.disks == before.disks
    &&& match before.phase {
        DiagnosisPhase::MountRoot => {
            &&& after.phase == DiagnosisPhase::Detect
            &&& after.distro == before.distro && after.grub_broken == before.grub_broken && after.fstab_broken
                == before.fstab_broken
            &&& req == RequestView {
                logs: seq![
                    ok_line(mounted_root_text(before.root.name@)),
                    step_line("detecting distribution"@),
                ],
                op: OpView::ReadFile("etc/os-release"@),
            }
        },
        DiagnosisPhase::Detect => {
            let dv = spec_detect(content_opt(reply->Content_0));
            &&& after.phase == DiagnosisPhase::CheckInstall
            &&& after.distro matches Some(d) && d@ == dv && req == RequestView {
                logs: seq![ok_line(detected_text(dv)), step_line("checking GRUB installation"@)],
                op: OpView::FileExists(bin_path(d.spec_grub_install_bin())),
            }
            &&& after.grub_broken == before.grub_broken && after.fstab_broken == before.fstab_broken
        },
        DiagnosisPhase::CheckInstall => {
            &&& after.distro == before.distro && after.fstab_broken == before.fstab_broken
            &&& if reply->Exists_0 {
                &&& after.phase == DiagnosisPhase::CheckMkconfig
                &&& after.grub_broken == before.grub_broken
                &&& req == RequestView {
                    logs: Seq::empty(),
                    op: OpView::FileExists(bin_path(before.distro->0.spec_grub_mkconfig_bin())),
                }
            } else {
                &&& after.phase == DiagnosisPhase::FstabExists
                &&& after.grub_broken
                &&& req == RequestView {
                    logs: seq![warn_line("GRUB binaries are missing or corrupted"@), fstab_step()],
                    op: OpView::FileExists("etc/fstab"@),
                }
            }
        },
        DiagnosisPhase::CheckMkconfig => {
            &&& after.distro == before.distro && after.fstab_broken == before.fstab_broken
            &&& after.phase == DiagnosisPhase::FstabExists
            &&& after.grub_broken == !reply->Exists_0
            &&& req == RequestView {
                logs: seq![
                    if reply->Exists_0 {
                        ok_line("GRUB binaries found"@)
                    } else {
                        warn_line("GRUB binaries are missing or corrupted"@)
                    },
                    fstab_step(),
                ],
                op: OpView::FileExists("etc/fstab"@),
            }
        },
        DiagnosisPhase::FstabExists => {
            &&& after.distro == before.distro && after.grub_broken == before.grub_broken
            &&& if reply->Exists_0 {
                &&& after.phase == DiagnosisPhase::FstabRead
                &&& after.fstab_broken == before.fstab_broken
                &&& req == RequestView { logs: Seq::empty(), op: OpView::ReadFile("etc/fstab"@) }
            } else {
                &&& after.phase == DiagnosisPhase::Unmount
                &&& after.fstab_broken
                &&& req == RequestView {
                    logs: seq![warn_line("could not read /etc/fstab"@), unmount_step()],
                    op: OpView::Umount("/mnt"@),
                }
            }
        },
        DiagnosisPhase::FstabRead => {
            let live = live_of_disks(before.disks@);
            &&& after.distro == before.distro && after.grub_broken == before.grub_broken
            &&& after.phase == DiagnosisPhase::Unmount
            &&& match reply->Content_0 {
                Ok(text) => {
                    let n = fstab_issues(text@, live).len();
                    &&& after.fstab_broken == (before.fstab_broken || n > 0)
                    &&& req == RequestView {
                        logs: seq![
                            if n == 0 {
                                ok_line("fstab is valid"@)
                            } else {
                                warn_line(issues_found_text(n))
                            },
                            unmount_step(),
                        ],
                        op: OpView::Umount("/mnt"@),
                    }
                },
                Err(_) => {
                    &&& after.fstab_broken
                    &&& req == RequestView {
                        logs: seq![warn_line("could not read /etc/fstab"@), unmount_step()],
                        op: OpView::Umount("/mnt"@),
                    }
                },
            }
        },
        DiagnosisPhase::Unmount => {
            &&& after.distro == before.distro && after.grub_broken == before.grub_broken && after.fstab_broken
                == before.fstab_broken
            &&& after.phase == DiagnosisPhase::Finished
            &&& req == RequestView {
                logs: seq![
                    ok_line("diagnosis complete"@),
                    result_line(before.grub_broken, before.fstab_broken),
                    done_line(),
                ],
                op: OpView::Finish,
            }
        },
        DiagnosisPhase::Finished => false,
    }
}

fn live_from_disks(disks: &Vec<DiskInfo>) -> (r: Vec<LivePartition>)
    ensures
        live_views(r@) == live_of_disks(disks@),
{
    let mut r: Vec<LivePartition> = Vec::new();
    let mut i: usize = 0;
    while i < disks.len()
        invariant
            i <= disks.len(),
            live_views(r@) =~= live_of_disks(disks@).take(i as int),
        decreases disks.len() - i,
    {
        let ghost before = r@;
        r.push(live_from_disk(&disks[i]));
        proof {
            assert(live_views(r@) =~= live_views(before).push(live_of(disks@[i as int]@)));
            assert(live_of_disks(disks@).take(i + 1) =~= live_of_disks(disks@).take(i as int).push(
                live_of(disks@[i as int]@),
            ));
        }
        i = i + 1;
    }
    assert(live_of_disks(disks@).take(disks.len() as int) =~= live_of_disks(disks@));
    r
}

/// Starts a diagnosis of `root`, auditing fstab against `disks`; returns the
/// job and its first request.
pub fn run_diagnosis(root: DiskInfo, efi: Option<DiskInfo>, is_uefi: bool, disks: Vec<DiskInfo>) -> (r: (
    DiagnosisRun,
    Request,
))
    ensures
        r.0.root == root,
        r.0.efi == efi,
        r.0.is_uefi == is_uefi,
        r.0.disks == disks,
        r.0.distro is None,
        !r.0.grub_broken,
        !r.0.fstab_broken,
        r.0.phase == DiagnosisPhase::MountRoot,
        r.1@ == repair_start_request(root@),
{
    let dev = dev_path_exec(&root.name);
    let req = Request { logs: logs1(LogLine::step("mounting root partition")), op: Op::Mount(dev) };
    (
        DiagnosisRun {
            root,
            efi,
            is_uefi,
            disks,
            distro: None,
            grub_broken: false,
            fstab_broken: false,
            phase: DiagnosisPhase::MountRoot,
        },
        req,
    )
}

impl DiagnosisRun {
    /// Whether the diagnosis is consistent and waits for a reply of the kind
    /// of `reply`, as `resume` needs.
    pub fn accepts(&self, reply: &Reply) -> (r: bool)
        ensures
            r == (diagnosis_wf(*self) && diagnosis_reply_fits(self.phase, *reply)),
    {
        match self.phase {
            DiagnosisPhase::MountRoot | DiagnosisPhase::Unmount => match reply {
                Reply::Ack => true,
                _ => false,
            },
            DiagnosisPhase::Detect | DiagnosisPhase::FstabRead => match reply {
                Reply::Content(_) => true,
                _ => false,
            },
            DiagnosisPhase::CheckInstall | DiagnosisPhase::CheckMkconfig => self.distro.is_some()
                && match reply {
                Reply::Exists(_) => true,
                _ => false,
            },
            DiagnosisPhase::FstabExists => match reply {
                Reply::Exists(_) => true,
                _ => false,
            },
            DiagnosisPhase::Finished => false,
        }
    }

    /// Takes the reply to the last request and returns the next one.
    pub fn resume(&mut self, reply: Reply) -> (r: Request)
        requires
            diagnosis_wf(*old(self)),
            diagnosis_reply_fits(old(self).phase, reply),
        ensures
            diagnosis_wf(*final(self)),
            diagnosis_transition(*old(self), reply, *final(self), r@),
    {
        match self.phase {
            DiagnosisPhase::MountRoot => {
                self.phase = DiagnosisPhase::Detect;
                Request {
                    logs: logs2(
                        LogLine::ok(
                            join3(
                                "mounted ",
                                dev_path_exec(&self.root.name).as_str(),
                                " \u{2192} /mnt",
                            ).as_str(),
                        ),
                        LogLine::step("detecting distribution"),
                    ),
                    op: Op::ReadFile(String::from_str("etc/os-release")),
                }
            },
            DiagnosisPhase::Detect => {
                let distro = match &reply {
                    Reply::Content(Ok(s)) => detect(Some(s.as_str())),
                    _ => detect(None),
                };
                proof {
                    lemma_name_of_view(distro);
                }
                let first = LogLine::ok(join2("detected: ", distro.name()).as_str());
                let install = join2("usr/bin/", distro.grub_install_bin());
                self.distro = Some(distro);
                self.phase = DiagnosisPhase::CheckInstall;
                Request {
                    logs: logs2(first, LogLine::step("checking GRUB installation")),
                    op: Op::FileExists(install),
                }
            },
            DiagnosisPhase::CheckInstall => {
                let exists = match reply {
                    Reply::Exists(e) => e,
                    _ => false,
                };
                if exists {
                    let mkconfig = match &self.distro {
                        Some(d) => join2("usr/bin/", d.grub_mkconfig_bin()),
                        None => String::new(),
                    };
                    self.phase = DiagnosisPhase::CheckMkconfig;
                    let logs: Vec<LogLine> = Vec::new();
                    assert(log_views(logs@) =~= Seq::<LogLineView>::empty());
                    Request { logs, op: Op::FileExists(mkconfig) }
                } else {
                    self.grub_broken = true;
                    self.phase = DiagnosisPhase::FstabExists;
                    Request {
                        logs: logs2(
                            LogLine::warn("GRUB binaries are missing or corrupted"),
                            LogLine::step("auditing /etc/fstab"),
                        ),
                        op: Op::FileExists(String::from_str("etc/fstab")),
                    }
                }
            },
            DiagnosisPhase::CheckMkconfig => {
                let exists = match reply {
                    Reply::Exists(e) => e,
                    _ => false,
                };
                self.grub_broken = !exists;
                self.phase = DiagnosisPhase::FstabExists;
                let first = if exists {
                    LogLine::ok("GRUB binaries found")
                } else {
                    LogLine::warn("GRUB binaries are missing or corrupted")
                };
                Request {
                    logs: logs2(first, LogLine::step("auditing /etc/fstab")),
                    op: Op::FileExists(String::from_str("etc/fstab")),
                }
            },
            DiagnosisPhase::FstabExists => {
                let exists = match reply {
                    Reply::Exists(e) => e,
                    _ => false,
                };
                if exists {
                    self.phase = DiagnosisPhase::FstabRead;
                    let logs: Vec<LogLine> = Vec::new();
                    assert(log_views(logs@) =~= Seq::<LogLineView>::empty());
                    Request { logs, op: Op::ReadFile(String::from_str("etc/fstab")) }
                } else {
                    self.fstab_broken = true;
                    self.phase = DiagnosisPhase::Unmount;
                    unmount_req_quiet(LogLine::warn("could not read /etc/fstab"), "unmounting filesystems")
                }
            },
            DiagnosisPhase::FstabRead => {
                self.phase = DiagnosisPhase::Unmount;
                let report = match reply {
                    Reply::Content(Ok(text)) => {
                        let live = live_from_disks(&self.disks);
                        match FstabAuditor::audit_fstab(Some(text.as_str()), live.as_slice()) {
                            Ok(issues) => {
                                proof {
                                    assert(issues@.len() == crate::fstab::issue_views(issues@).len());
                                }
                                if issues.len() == 0 {
                                    LogLine::ok("fstab is valid")
                                } else {
                                    self.fstab_broken = true;
                                    LogLine::warn(
                                        join3(
                                            "found ",
                                            decimal_string(issues.len()).as_str(),
                                            " issues in fstab",
                                        ).as_str(),
                                    )
                                }
                            },
                            Err(_) => LogLine::ok(""),
                        }
                    },
                    _ => {
                        self.fstab_broken = true;
                        LogLine::warn("could not read /etc/fstab")
                    },
                };
                unmount_req_quiet(report, "unmounting filesystems")
            },
            DiagnosisPhase::Unmount => {
                self.phase = DiagnosisPhase::Finished;
                let (summary, rec) = diagnosis_summary(self.grub_broken, self.fstab_broken);
                let result = line(LogKind::DiagnosisResult(summary, rec), String::new());
                proof {
                    assert(result@ == result_line(self.grub_broken, self.fstab_broken));
                }
                Request {
                    logs: logs3(LogLine::ok("diagnosis complete"), result, LogLine::done()),
                    op: Op::Finish,
                }
            },
            DiagnosisPhase::Finished => Request { logs: Vec::new(), op: Op::Finish },
        }
    }
}

} // verus!
