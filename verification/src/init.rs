//! Bringing up the system when the rescue tool runs as its init process:
//! which step comes next, what is logged to the serial console, and when a
//! failure ends the start-up.  The system carries out each step and answers.
use vstd::prelude::*;
use crate::host::{decimal, decimal_string, join2, join3};

verus! {

/// The kernel modules loaded for the console, in order.
pub open spec fn module_names() -> Seq<Seq<char>> {
    seq![
        "agpgart"@,
        "drm"@,
        "drm_kms_helper"@,
        "ttm"@,
        "drm_ttm_helper"@,
        "drm_vram_helper"@,
        "bochs"@,
    ]
}

pub const MODULE_COUNT: usize = 7;

fn module_name(i: usize) -> (r: &'static str)
    requires
        i < MODULE_COUNT,
    ensures
        r@ == module_names()[i as int],
{
    match i {
        0 => "agpgart",
        1 => "drm",
        2 => "drm_kms_helper",
        3 => "ttm",
        4 => "drm_ttm_helper",
        5 => "drm_vram_helper",
        _ => "bochs",
    }
}

/// The file of a module.
pub open spec fn module_file(name: Seq<char>) -> Seq<char> {
    "/modules/"@ + name + ".ko"@
}

/// Something the start-up asks of the system.
pub enum InitOp {
    /// Remember that this process is the system's init.  Reply: `Ack`.
    MarkInit,
    /// Mount `/proc`, `/sys` and `/dev`.  Reply: `Done`.
    MountFilesystems,
    /// Open the serial console, where the later log lines go.  Reply: `Ack`.
    OpenSerial,
    /// Whether `/modules` is a directory.  Reply: `Exists`.
    ModulesDirExists,
    /// Whether a path exists.  Reply: `Exists`.
    PathExists(String),
    /// Load a module file with `/busybox insmod`.  Reply: `Exit`.
    Insmod(String),
    /// Make a console the standard input and outputs.  Reply: `Done`.
    SetupConsole,
    /// Make a console the controlling terminal.  Reply: `Done`.
    SetControllingTty,
    /// Reap exited children on `SIGCHLD`.  Reply: `Done`.
    SetupSignals,
    /// The start-up is over, with this result.
    Finish(Result<(), String>),
}

pub enum InitOpView {
    MarkInit,
    MountFilesystems,
    OpenSerial,
    ModulesDirExists,
    PathExists(Seq<char>),
    Insmod(Seq<char>),
    SetupConsole,
    SetControllingTty,
    SetupSignals,
    Finish(Result<(), Seq<char>>),
}

pub open spec fn unit_result_view(r: Result<(), String>) -> Result<(), Seq<char>> {
    match r {
        Ok(()) => Ok(()),
        Err(e) => Err(e@),
    }
}

impl View for InitOp {
    type V = InitOpView;

    open spec fn view(&self) -> InitOpView {
        match self {
            InitOp::MarkInit => InitOpView::MarkInit,
            InitOp::MountFilesystems => InitOpView::MountFilesystems,
            InitOp::OpenSerial => InitOpView::OpenSerial,
            InitOp::ModulesDirExists => InitOpView::ModulesDirExists,
            InitOp::PathExists(p) => InitOpView::PathExists(p@),
            InitOp::Insmod(p) => InitOpView::Insmod(p@),
            InitOp::SetupConsole => InitOpView::SetupConsole,
            InitOp::SetControllingTty => InitOpView::SetControllingTty,
            InitOp::SetupSignals => InitOpView::SetupSignals,
            InitOp::Finish(r) => InitOpView::Finish(unit_result_view(*r)),
        }
    }
}

/// The answer to an `InitOp`; an error is given by its message.
pub enum InitReply {
    Ack,
    Exists(bool),
    Done(Result<(), String>),
    /// How `insmod` ended: `None` when it could not be started, else whether
    /// it succeeded and its exit code, if it has one.
    Exit(Option<(bool, Option<i32>)>),
}

/// What the start-up asks next: lines for the serial console, then a step.
pub struct InitRequest {
    pub serial: Vec<String>,
    pub op: InitOp,
}

pub struct InitRequestView {
    pub serial: Seq<Seq<char>>,
    pub op: InitOpView,
}

impl View for InitRequest {
    type V = InitRequestView;

    open spec fn view(&self) -> InitRequestView {
        InitRequestView { serial: self.serial@.map_values(|s: String| s@), op: self.op@ }
    }
}

/// Where the start-up stands: which reply it waits for.
#[derive(Clone, Copy, Debug, PartialEq, Eq, Structural)]
pub enum InitPhase {
    MarkInit,
    Mount,
    Serial,
    ModulesDir,
    ModuleExists(usize),
    Insmod(usize),
    Console,
    Framebuffer,
    Tty,
    Signals,
    Finished,
}

/// A module index names a module.
pub open spec fn init_phase_wf(p: InitPhase) -> bool {
    match p {
        InitPhase::ModuleExists(i) | InitPhase::Insmod(i) => i < MODULE_COUNT,
        _ => true,
    }
}

pub open spec fn init_reply_fits(p: InitPhase, r: InitReply) -> bool {
    match p {
        InitPhase::MarkInit | InitPhase::Serial => r is Ack,
        InitPhase::Mount | InitPhase::Console | InitPhase::Tty | InitPhase::Signals => r is Done,
        InitPhase::ModulesDir | InitPhase::ModuleExists(_) | InitPhase::Framebuffer => r is Exists,
        InitPhase::Insmod(_) => r is Exit,
        InitPhase::Finished => false,
    }
}

/// An `i32` as `{:?}` writes it.
pub open spec fn int_text(n: i32) -> Seq<char> {
    if n < 0 {
        "-"@ + decimal((-n) as nat)
    } else {
        decimal(n as nat)
    }
}

/// An exit code as `{:?}` writes an `Option<i32>`.
pub open spec fn code_text(c: Option<i32>) -> Seq<char> {
    match c {
        Some(n) => "Some("@ + int_text(n) + ")"@,
        None => "None"@,
    }
}

/// The serial line after trying to load module `name`.
pub open spec fn insmod_line(name: Seq<char>, exit: Option<(bool, Option<i32>)>) -> Seq<char> {
    match exit {
        Some((true, _)) => "init: "@ + name + ": OK"@,
        Some((false, c)) => "init: "@ + name + ": busybox exit="@ + code_text(c),
        None => "init: "@ + name + ": failed to run busybox"@,
    }
}

/// After the module `i`: the next module, or the console once all were tried.
pub open spec fn after_module(i: int) -> (InitPhase, Seq<Seq<char>>, InitOpView) {
    if i + 1 < MODULE_COUNT {
        (
            InitPhase::ModuleExists((i + 1) as usize),
            Seq::empty(),
            InitOpView::PathExists(module_file(module_names()[i + 1])),
        )
    } else {
        (InitPhase::Console, seq!["init: modules done"@], InitOpView::SetupConsole)
    }
}

pub open spec fn init_fail(line: Seq<char>, e: String) -> (InitPhase, Seq<Seq<char>>, InitOpView) {
    (InitPhase::Finished, seq![line + e@], InitOpView::Finish(Err(e@)))
}

/// The next phase, serial lines and step of the start-up after `reply`.
pub open spec fn init_next(p: InitPhase, reply: InitReply) -> (InitPhase, Seq<Seq<char>>, InitOpView) {
    match (p, reply) {
        (InitPhase::MarkInit, _) => (InitPhase::Mount, Seq::empty(), InitOpView::MountFilesystems),
        (InitPhase::Mount, InitReply::Done(Err(e))) => (
            InitPhase::Finished,
            Seq::empty(),
            InitOpView::Finish(Err(e@)),
        ),
        (InitPhase::Mount, _) => (InitPhase::Serial, Seq::empty(), InitOpView::OpenSerial),
        (InitPhase::Serial, _) => (
            InitPhase::ModulesDir,
            seq!["init: start"@],
            InitOpView::ModulesDirExists,
        ),
        (InitPhase::ModulesDir, InitReply::Exists(true)) => (
            InitPhase::ModuleExists(0),
            seq!["init: loading modules..."@],
            InitOpView::PathExists(module_file(module_names()[0])),
        ),
        (InitPhase::ModulesDir, _) => (
            InitPhase::Console,
            seq!["init: no /modules dir"@, "init: modules done"@],
            InitOpView::SetupConsole,
        ),
        (InitPhase::ModuleExists(i), InitReply::Exists(true)) => (
            InitPhase::Insmod(i),
            Seq::empty(),
            InitOpView::Insmod(module_file(module_names()[i as int])),
        ),
        (InitPhase::ModuleExists(i), _) => {
            let (q, ls, op) = after_module(i as int);
            (q, seq!["init: "@ + module_names()[i as int] + ": file not found"@] + ls, op)
        },
        (InitPhase::Insmod(i), InitReply::Exit(x)) => {
            let (q, ls, op) = after_module(i as int);
            (q, seq![insmod_line(module_names()[i as int], x)] + ls, op)
        },
        (InitPhase::Console, InitReply::Done(Err(e))) => init_fail("init: setup_console: "@, e),
        (InitPhase::Console, _) => (
            InitPhase::Framebuffer,
            Seq::empty(),
            InitOpView::PathExists("/dev/fb0"@),
        ),
        (InitPhase::Framebuffer, InitReply::Exists(true)) => (
            InitPhase::Tty,
            seq!["init: /dev/fb0 OK"@],
            InitOpView::SetControllingTty,
        ),
        (InitPhase::Framebuffer, _) => (
            InitPhase::Signals,
            seq!["init: /dev/fb0 missing \u{2014} VT visible, no fbcon"@],
            InitOpView::SetupSignals,
        ),
        (InitPhase::Tty, InitReply::Done(Err(e))) => init_fail("init: set_controlling_tty: "@, e),
        (InitPhase::Tty, _) => (InitPhase::Signals, Seq::empty(), InitOpView::SetupSignals),
        (InitPhase::Signals, InitReply::Done(Err(e))) => init_fail("init: setup_signals: "@, e),
        (InitPhase::Signals, _) => (
            InitPhase::Finished,
            seq!["init: done"@],
            InitOpView::Finish(Ok(())),
        ),
        _ => (p, Seq::empty(), InitOpView::Finish(Ok(()))),
    }
}

/// The start-up of a process: only the system's init (process 1) brings the
/// system up; any other process has nothing to do.
pub open spec fn init_start(is_pid1: bool) -> (InitPhase, InitOpView) {
    if is_pid1 {
        (InitPhase::MarkInit, InitOpView::MarkInit)
    } else {
        (InitPhase::Finished, InitOpView::Finish(Ok(())))
    }
}

/// The start-up of the system, one step at a time.
pub struct InitRun {
    pub phase: InitPhase,
}

fn one_line(s: String) -> (r: Vec<String>)
    ensures
        r@.map_values(|x: String| x@) == seq![s@],
{
    let mut r: Vec<String> = Vec::new();
    r.push(s);
    assert(r@.map_values(|x: String| x@) =~= seq![s@]);
    r
}

fn int_text_exec(n: i32) -> (r: String)
    ensures
        r@ == int_text(n),
{
    if n < 0 {
        let m: i64 = -(n as i64);
        let d = decimal_string(m as usize);
        join2("-", d.as_str())
    } else {
        decimal_string(n as usize)
    }
}

fn code_text_exec(c: Option<i32>) -> (r: String)
    ensures
        r@ == code_text(c),
{
    match c {
        Some(n) => {
            let t = int_text_exec(n);
            join3("Some(", t.as_str(), ")")
        },
        None => String::from_str("None"),
    }
}

fn insmod_line_exec(name: &str, exit: &Option<(bool, Option<i32>)>) -> (r: String)
    ensures
        r@ == insmod_line(name@, *exit),
{
    match exit {
        Some((true, _)) => join3("init: ", name, ": OK"),
        Some((false, c)) => {
            let head = join3("init: ", name, ": busybox exit=");
            let code = code_text_exec(*c);
            join2(head.as_str(), code.as_str())
        },
        None => join3("init: ", name, ": failed to run busybox"),
    }
}

fn module_file_exec(i: usize) -> (r: String)
    requires
        i < MODULE_COUNT,
    ensures
        r@ == module_file(module_names()[i as int]),
{
    join3("/modules/", module_name(i), ".ko")
}

impl InitRun {
    /// Starts the start-up; `is_pid1` tells whether this process is the
    /// system's init.
    pub fn start(is_pid1: bool) -> (r: (Self, InitOp))
        ensures
            (r.0.phase, r.1@) == init_start(is_pid1),
    {
        if is_pid1 {
            (InitRun { phase: InitPhase::MarkInit }, InitOp::MarkInit)
        } else {
            (InitRun { phase: InitPhase::Finished }, InitOp::Finish(Ok(())))
        }
    }

    fn after_module_exec(&mut self, i: usize, first: String) -> (r: InitRequest)
        requires
            i < MODULE_COUNT,
        ensures
            ({
                let (q, ls, op) = after_module(i as int);
                final(self).phase == q && r@ == InitRequestView { serial: seq![first@] + ls, op }
            }),
    {
        if i + 1 < MODULE_COUNT {
            self.phase = InitPhase::ModuleExists(i + 1);
            let serial = one_line(first);
            proof {
                assert(seq![first@] + Seq::<Seq<char>>::empty() =~= seq![first@]);
            }
            InitRequest { serial, op: InitOp::PathExists(module_file_exec(i + 1)) }
        } else {
            self.phase = InitPhase::Console;
            let mut serial: Vec<String> = Vec::new();
            serial.push(first);
            serial.push(String::from_str("init: modules done"));
            proof {
                assert(serial@.map_values(|x: String| x@) =~= seq![first@] + seq![
                    "init: modules done"@,
                ]);
            }
            InitRequest { serial, op: InitOp::SetupConsole }
        }
    }

    fn fail(&mut self, line: &str, e: String) -> (r: InitRequest)
        ensures
            ({
                let (q, ls, op) = init_fail(line@, e);
                final(self).phase == q && r@ == InitRequestView { serial: ls, op }
            }),
    {
        self.phase = InitPhase::Finished;
        let text = join2(line, e.as_str());
        InitRequest { serial: one_line(text), op: InitOp::Finish(Err(e)) }
    }

    fn go(&mut self, p: InitPhase, op: InitOp) -> (r: InitRequest)
        ensures
            final(self).phase == p,
            r@ == (InitRequestView { serial: Seq::empty(), op: op@ }),
    {
        self.phase = p;
        let serial: Vec<String> = Vec::new();
        proof {
            assert(serial@.map_values(|x: String| x@) =~= Seq::<Seq<char>>::empty());
        }
        InitRequest { serial, op }
    }

    fn go_logged(&mut self, p: InitPhase, line: &str, op: InitOp) -> (r: InitRequest)
        ensures
            final(self).phase == p,
            r@ == (InitRequestView { serial: seq![line@], op: op@ }),
    {
        self.phase = p;
        InitRequest { serial: one_line(String::from_str(line)), op }
    }

    /// Whether the start-up waits for an answer of the kind of `reply`, as
    /// `resume` needs.
    pub fn accepts(&self, reply: &InitReply) -> (r: bool)
        ensures
            r == (init_phase_wf(self.phase) && init_reply_fits(self.phase, *reply)),
    {
        match (self.phase, reply) {
            (InitPhase::MarkInit, InitReply::Ack) => true,
            (InitPhase::Serial, InitReply::Ack) => true,
            (InitPhase::Mount, InitReply::Done(_)) => true,
            (InitPhase::Console, InitReply::Done(_)) => true,
            (InitPhase::Tty, InitReply::Done(_)) => true,
            (InitPhase::Signals, InitReply::Done(_)) => true,
            (InitPhase::ModulesDir, InitReply::Exists(_)) => true,
            (InitPhase::Framebuffer, InitReply::Exists(_)) => true,
            (InitPhase::ModuleExists(i), InitReply::Exists(_)) => i < MODULE_COUNT,
            (InitPhase::Insmod(i), InitReply::Exit(_)) => i < MODULE_COUNT,
            _ => false,
        }
    }

    /// Takes the answer to the last step and returns the next one.
    pub fn resume(&mut self, reply: InitReply) -> (r: InitRequest)
        requires
            init_phase_wf(old(self).phase),
            init_reply_fits(old(self).phase, reply),
        ensures
            init_phase_wf(final(self).phase),
            (final(self).phase, r@.serial, r@.op) == init_next(old(self).phase, reply),
    {
        match (self.phase, reply) {
            (InitPhase::MarkInit, _) => self.go(InitPhase::Mount, InitOp::MountFilesystems),
            (InitPhase::Mount, InitReply::Done(Err(e))) => self.go(InitPhase::Finished, InitOp::Finish(Err(e))),
            (InitPhase::Mount, _) => self.go(InitPhase::Serial, InitOp::OpenSerial),
            (InitPhase::Serial, _) => self.go_logged(
                InitPhase::ModulesDir,
                "init: start",
                InitOp::ModulesDirExists,
            ),
            (InitPhase::ModulesDir, InitReply::Exists(true)) => self.go_logged(
                InitPhase::ModuleExists(0),
                "init: loading modules...",
                InitOp::PathExists(module_file_exec(0)),
            ),
            (InitPhase::ModulesDir, _) => {
                self.phase = InitPhase::Console;
                let mut serial: Vec<String> = Vec::new();
                serial.push(String::from_str("init: no /modules dir"));
                serial.push(String::from_str("init: modules done"));
                proof {
                    assert(serial@.map_values(|x: String| x@) =~= seq![
                        "init: no /modules dir"@,
                        "init: modules done"@,
                    ]);
                }
                InitRequest { serial, op: InitOp::SetupConsole }
            },
            (InitPhase::ModuleExists(i), InitReply::Exists(true)) => self.go(
                InitPhase::Insmod(i),
                InitOp::Insmod(module_file_exec(i)),
            ),
            (InitPhase::ModuleExists(i), _) => {
                let line = join3("init: ", module_name(i), ": file not found");
                self.after_module_exec(i, line)
            },
            (InitPhase::Insmod(i), InitReply::Exit(x)) => {
                let line = insmod_line_exec(module_name(i), &x);
                self.after_module_exec(i, line)
            },
            (InitPhase::Console, InitReply::Done(Err(e))) => self.fail("init: setup_console: ", e),
            (InitPhase::Console, _) => self.go(
                InitPhase::Framebuffer,
                InitOp::PathExists(String::from_str("/dev/fb0")),
            ),
            (InitPhase::Framebuffer, InitReply::Exists(true)) => self.go_logged(
                InitPhase::Tty,
                "init: /dev/fb0 OK",
                InitOp::SetControllingTty,
            ),
            (InitPhase::Framebuffer, _) => self.go_logged(
                InitPhase::Signals,
                "init: /dev/fb0 missing \u{2014} VT visible, no fbcon",
                InitOp::SetupSignals,
            ),
            (InitPhase::Tty, InitReply::Done(Err(e))) => self.fail("init: set_controlling_tty: ", e),
            (InitPhase::Tty, _) => self.go(InitPhase::Signals, InitOp::SetupSignals),
            (InitPhase::Signals, InitReply::Done(Err(e))) => self.fail("init: setup_signals: ", e),
            (InitPhase::Signals, _) => self.go_logged(
                InitPhase::Finished,
                "init: done",
                InitOp::Finish(Ok(())),
            ),
            (p, _) => self.go(p, InitOp::Finish(Ok(()))),
        }
    }
}

} // verus!
