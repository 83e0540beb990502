//! The requests that the repair and diagnosis jobs make of the system they
//! run on, and the replies they expect.  The jobs are state machines: each
//! reply leads to the next request.
use vstd::prelude::*;
use crate::app::{log_views, LogLine, LogLineView};

verus! {

/// A failed system call, as its error message reads.
#[derive(Debug)]
pub struct IoFailure {
    /// The error is "not found".
    pub not_found: bool,
    pub message: String,
}

pub struct FailureView {
    pub not_found: bool,
    pub message: Seq<char>,
}

impl View for IoFailure {
    type V = FailureView;

    open spec fn view(&self) -> FailureView {
        FailureView { not_found: self.not_found, message: self.message@ }
    }
}

impl IoFailure {
    /// A failure of kind "other" with the given message.
    pub fn other(message: String) -> (r: Self)
        ensures
            r@ == (FailureView { not_found: false, message: message@ }),
    {
        IoFailure { not_found: false, message }
    }
}

pub open spec fn result_view(r: Result<(), IoFailure>) -> Result<(), FailureView> {
    match r {
        Ok(()) => Ok(()),
        Err(e) => Err(e@),
    }
}

/// Something the system is asked to do.  Paths are relative to the root of
/// the installed system (mounted at `/mnt`) unless they name a device.
pub enum Op {
    /// Mount a device at `/mnt`.  Reply: `Ack`.
    Mount(String),
    /// Mount a device at `/mnt/boot/efi`.  Reply: `Ack`.
    MountEfi(String),
    /// Bind-mount `/dev`, `/proc`, `/run` and `/sys` into `/mnt`.  Reply: `Ack`.
    MountBind,
    /// Unmount a directory and everything below it.  Reply: `Ack`.
    Umount(String),
    /// Read a file of the target.  Reply: `Content`.
    ReadFile(String),
    /// Whether a path of the target exists.  Reply: `Exists`.
    FileExists(String),
    /// Run a program inside the target with `chroot`.  Reply: `Status`.
    RunInChroot(String, Vec<String>),
    /// Create a directory of the target and its parents.  Reply: `Written`.
    CreateDirAll(String),
    /// Replace the contents of a file of the target.  Reply: `Written`.
    WriteFile(String, String),
    /// Append to a file of the target.  Reply: `Written`.
    AppendFile(String, String),
    /// The job is over; nothing more is asked.
    Finish,
}

pub enum OpView {
    Mount(Seq<char>),
    MountEfi(Seq<char>),
    MountBind,
    Umount(Seq<char>),
    ReadFile(Seq<char>),
    FileExists(Seq<char>),
    RunInChroot(Seq<char>, Seq<Seq<char>>),
    CreateDirAll(Seq<char>),
    WriteFile(Seq<char>, Seq<char>),
    AppendFile(Seq<char>, Seq<char>),
    Finish,
}

impl View for Op {
    type V = OpView;

    open spec fn view(&self) -> OpView {
        match self {
            Op::Mount(d) => OpView::Mount(d@),
            Op::MountEfi(d) => OpView::MountEfi(d@),
            Op::MountBind => OpView::MountBind,
            Op::Umount(d) => OpView::Umount(d@),
            Op::ReadFile(p) => OpView::ReadFile(p@),
            Op::FileExists(p) => OpView::FileExists(p@),
            Op::RunInChroot(p, a) => OpView::RunInChroot(p@, a@.map_values(|x: String| x@)),
            Op::CreateDirAll(p) => OpView::CreateDirAll(p@),
            Op::WriteFile(p, c) => OpView::WriteFile(p@, c@),
            Op::AppendFile(p, c) => OpView::AppendFile(p@, c@),
            Op::Finish => OpView::Finish,
        }
    }
}

/// The answer to an `Op`.
pub enum Reply {
    /// The operation ran; its outcome does not matter to the job.
    Ack,
    Exists(bool),
    /// The program ran and exited successfully (`true`) or not, or could not be started.
    Status(Result<bool, IoFailure>),
    Written(Result<(), IoFailure>),
    Content(Result<String, IoFailure>),
}

/// Whether `reply` is the kind of answer that `op` asks for.
pub open spec fn reply_fits(op: OpView, reply: Reply) -> bool {
    match op {
        OpView::Mount(_) | OpView::MountEfi(_) | OpView::MountBind | OpView::Umount(_) => reply is Ack,
        OpView::ReadFile(_) => reply is Content,
        OpView::FileExists(_) => reply is Exists,
        OpView::RunInChroot(_, _) => reply is Status,
        OpView::CreateDirAll(_) | OpView::WriteFile(_, _) | OpView::AppendFile(_, _) => reply is Written,
        OpView::Finish => false,
    }
}

/// What a job asks for next: log lines to show, in order, then an operation.
pub struct Request {
    pub logs: Vec<LogLine>,
    pub op: Op,
}

pub struct RequestView {
    pub logs: Seq<LogLineView>,
    pub op: OpView,
}

impl View for Request {
    type V = RequestView;

    open spec fn view(&self) -> RequestView {
        RequestView { logs: log_views(self.logs@), op: self.op@ }
    }
}

pub open spec fn string_seq_views(s: Seq<String>) -> Seq<Seq<char>> {
    s.map_values(|x: String| x@)
}

/// The decimal digits of `n`.
pub open spec fn decimal(n: nat) -> Seq<char>
    decreases n,
{
    if n < 10 {
        seq![digit_char(n)]
    } else {
        decimal(n / 10).push(digit_char(n % 10))
    }
}

pub open spec fn digit_char(d: nat) -> char {
    ((d + 48) as u32) as char
}

fn digit_exec(d: usize) -> (c: char)
    requires
        d < 10,
    ensures
        c == digit_char(d as nat),
{
    let b: u8 = (d as u8) + 48;
    b as char
}

/// `n` written in decimal, as `usize::to_string` writes it.
pub fn decimal_string(n: usize) -> (r: String)
    ensures
        r@ == decimal(n as nat),
    decreases n,
{
    if n < 10 {
        let mut s = String::new();
        s.push(digit_exec(n));
        proof {
            assert(s@ =~= seq![digit_char(n as nat)]);
        }
        s
    } else {
        let mut s = decimal_string(n / 10);
        s.push(digit_exec(n % 10));
        s
    }
}

/// Joins `a` and `b`.
pub fn join2(a: &str, b: &str) -> (r: String)
    ensures
        r@ == a@ + b@,
{
    let mut s = String::from_str(a);
    s.append(b);
    s
}

/// Joins `a`, `b` and `c`.
pub fn join3(a: &str, b: &str, c: &str) -> (r: String)
    ensures
        r@ == a@ + b@ + c@,
{
    let mut s = String::from_str(a);
    s.append(b);
    s.append(c);
    s
}

/// A log line of the given kind with the text `a + b + c`.
pub open spec fn line_view(kind: crate::app::LogKindView, text: Seq<char>) -> LogLineView {
    LogLineView { kind, text }
}

} // verus!
