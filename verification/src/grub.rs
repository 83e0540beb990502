//! GRUB reinstallation inside the mounted target: the checks, the commands
//! and the edit of `/etc/default/grub`, in order, as a state machine.
use vstd::prelude::*;
use crate::distros::{DetectedDistro, Distro};
use crate::host::{result_view, string_seq_views, FailureView, IoFailure, Op, OpView, Reply, join2, join3};
use crate::text::{chars_of, is_whitespace, is_ws, occurs_at, occurs_at_exec, replace_all, replace_exec, string_of};

verus! {

/// How the target boots, and where GRUB is installed.
pub enum BootType {
    Efi { efi_mount_inside_chroot: String },
    Bios { target_disk: String },
}

pub open spec fn bin_path(bin: Seq<char>) -> Seq<char> {
    "usr/bin/"@ + bin
}

pub open spec fn missing_binary_message(path: Seq<char>) -> Seq<char> {
    "Required binary '"@ + path + "' is missing inside the target environment."@
}

pub open spec fn missing_binary(path: Seq<char>) -> FailureView {
    FailureView { not_found: true, message: missing_binary_message(path) }
}

pub open spec fn other_failure(message: Seq<char>) -> FailureView {
    FailureView { not_found: false, message }
}

/// The paths of the two GRUB programs, relative to the target root.
pub fn grub_binary_paths(distro: &DetectedDistro) -> (r: (String, String))
    ensures
        r.0@ == bin_path(distro.spec_grub_install_bin()),
        r.1@ == bin_path(distro.spec_grub_mkconfig_bin()),
{
    (join2("usr/bin/", distro.grub_install_bin()), join2("usr/bin/", distro.grub_mkconfig_bin()))
}

fn missing_binary_exec(path: &String) -> (r: IoFailure)
    ensures
        r@ == missing_binary(path@),
{
    IoFailure {
        not_found: true,
        message: join3(
            "Required binary '",
            path.as_str(),
            "' is missing inside the target environment.",
        ),
    }
}

/// Checks that both GRUB programs exist in the target, given whether each
/// path exists; the error names the first missing one.
pub fn check_presence_of_grub(distro: &DetectedDistro, install_exists: bool, mkconfig_exists: bool) -> (r: Result<(), IoFailure>)
    ensures
        !install_exists ==> result_view(r) == Err::<(), FailureView>(
            missing_binary(bin_path(distro.spec_grub_install_bin())),
        ),
        install_exists && !mkconfig_exists ==> result_view(r) == Err::<(), FailureView>(
            missing_binary(bin_path(distro.spec_grub_mkconfig_bin())),
        ),
        install_exists && mkconfig_exists ==> r is Ok,
{
    let (install, mkconfig) = grub_binary_paths(distro);
    if !install_exists {
        Err(missing_binary_exec(&install))
    } else if !mkconfig_exists {
        Err(missing_binary_exec(&mkconfig))
    } else {
        Ok(())
    }
}

/// The arguments of the GRUB installer for a boot type.
pub open spec fn install_args(bt: BootType) -> Seq<Seq<char>> {
    match bt {
        BootType::Efi { efi_mount_inside_chroot } => seq![
            "--target=x86_64-efi"@,
            "--efi-directory="@ + efi_mount_inside_chroot@,
            "--bootloader-id=GRUB"@,
            "--recheck"@,
        ],
        BootType::Bios { target_disk } => seq!["--target=i386-pc"@, target_disk@, "--recheck"@],
    }
}

pub open spec fn install_op(d: DetectedDistro, bt: BootType) -> OpView {
    OpView::RunInChroot(d.spec_grub_install_bin(), install_args(bt))
}

pub open spec fn initramfs_op(d: DetectedDistro) -> OpView {
    OpView::RunInChroot(d.spec_initramfs_cmd()[0], d.spec_initramfs_cmd().drop_first())
}

pub open spec fn mkconfig_op(d: DetectedDistro) -> OpView {
    OpView::RunInChroot(d.spec_grub_mkconfig_bin(), seq!["-o"@, d.spec_grub_config_path()])
}

/// `/etc/default/grub` relative to the target root, and its directory.
pub open spec fn default_grub_path() -> Seq<char> {
    "etc/default/grub"@
}

pub open spec fn default_grub_dir() -> Seq<char> {
    "etc/default"@
}

/// The file written when the target has no `/etc/default/grub`.
pub open spec fn baseline_config() -> Seq<char> {
    "# Generated programmatically by Fix-Automation rescue tool\nGRUB_TIMEOUT=5\nGRUB_DISTRIBUTOR=\"Linux\"\nGRUB_CMDLINE_LINUX_DEFAULT=\"quiet splash\"\nGRUB_DISABLE_OS_PROBER=false\n"@
}

/// The text appended when `/etc/default/grub` does not mention os-prober.
pub open spec fn prober_appendix() -> Seq<char> {
    "\n# Enabled programmatically by Fix-Automation rescue tool\nGRUB_DISABLE_OS_PROBER=false\n"@
}

pub open spec fn prober_on() -> Seq<char> {
    "GRUB_DISABLE_OS_PROBER=false"@
}

pub open spec fn prober_off() -> Seq<char> {
    "GRUB_DISABLE_OS_PROBER=true"@
}

/// What to do to an existing `/etc/default/grub` so that os-prober is enabled.
pub enum ProberEdit {
    /// It is enabled already.
    Keep,
    /// Rewrite the file with this text (every disabling setting flipped).
    Rewrite(String),
    /// Append the enabling setting.
    Append,
}

pub enum ProberEditView {
    Keep,
    Rewrite(Seq<char>),
    Append,
}

impl View for ProberEdit {
    type V = ProberEditView;

    open spec fn view(&self) -> ProberEditView {
        match self {
            ProberEdit::Keep => ProberEditView::Keep,
            ProberEdit::Rewrite(s) => ProberEditView::Rewrite(s@),
            ProberEdit::Append => ProberEditView::Append,
        }
    }
}

/// A space or a tab.
pub open spec fn is_blank(c: char) -> bool {
    c == ' ' || c == '\t'
}

/// The line holding index `i` starts at `k`, and only blanks stand between.
pub open spec fn lead_from(c: Seq<char>, k: int, i: int) -> bool {
    &&& 0 <= k <= i
    &&& (k == 0 || c[k - 1] == '\n')
    &&& forall|m: int| k <= m < i ==> is_blank(#[trigger] c[m])
}

/// `t` stands at `i` of `c` as a setting of its own: only blanks before it
/// on its line (so not behind a `#`), and followed by the end of the text or
/// by whitespace.
pub open spec fn setting_at(c: Seq<char>, t: Seq<char>, i: int) -> bool {
    &&& occurs_at(c, t, i)
    &&& exists|k: int| #[trigger] lead_from(c, k, i)
    &&& (i + t.len() == c.len() || is_ws(c[i + t.len()]))
}

/// Some line of `c` holds the setting `t`.
pub open spec fn has_setting(c: Seq<char>, t: Seq<char>) -> bool {
    exists|i: int| setting_at(c, t, i)
}

/// Whether only blanks stand before index `i` on its line.
fn line_lead_exec(c: &Vec<char>, i: usize) -> (r: bool)
    requires
        i <= c.len(),
    ensures
        r == exists|k: int| #[trigger] lead_from(c@, k, i as int),
{
    let mut m: usize = i;
    while m > 0 && (c[m - 1] == ' ' || c[m - 1] == '\t')
        invariant
            m <= i <= c.len(),
            forall|q: int| m <= q < i ==> is_blank(#[trigger] c@[q]),
        decreases m,
    {
        m = m - 1;
    }
    let ok = m == 0 || c[m - 1] == '\n';
    proof {
        if ok {
            assert(lead_from(c@, m as int, i as int));
        } else {
            assert(!is_blank(c@[m - 1]));
            assert forall|k: int| !lead_from(c@, k, i as int) by {
                if 0 <= k <= i && (k == 0 || c@[k - 1] == '\n') {
                    if k < m {
                        assert(k <= m - 1 < i);
                    } else if k > m {
                        assert(m <= k - 1 < i);
                        assert(!is_blank(c@[k - 1]));
                    }
                }
            }
        }
    }
    ok
}

/// Whether some line of `c` holds the setting `t`.
pub fn has_setting_exec(c: &Vec<char>, t: &Vec<char>) -> (r: bool)
    ensures
        r == has_setting(c@, t@),
{
    let mut i: usize = 0;
    while i < c.len()
        invariant
            i <= c.len(),
            forall|j: int| 0 <= j < i ==> !setting_at(c@, t@, j),
        decreases c.len() - i,
    {
        if occurs_at_exec(c, t, i) && line_lead_exec(c, i) {
            let end = i + t.len();
            if end == c.len() || is_whitespace(c[end]) {
                assert(setting_at(c@, t@, i as int));
                return true;
            }
        }
        i = i + 1;
    }
    let last = occurs_at_exec(c, t, i) && line_lead_exec(c, i);
    proof {
        if last {
            assert(setting_at(c@, t@, i as int));
        }
        if !last {
            assert forall|j: int| !setting_at(c@, t@, j) by {
                if 0 <= j < i {
                } else if j == i {
                }
            }
        }
    }
    last
}

pub open spec fn spec_prober_edit(content: Seq<char>) -> ProberEditView {
    if has_setting(content, prober_on()) {
        ProberEditView::Keep
    } else if has_setting(content, prober_off()) {
        ProberEditView::Rewrite(replace_all(content, prober_off(), prober_on()))
    } else {
        ProberEditView::Append
    }
}

/// Decides how to enable os-prober in the text of `/etc/default/grub`: a
/// line that enables it already is kept; a line that disables it is flipped
/// (every `GRUB_DISABLE_OS_PROBER=true` becomes `=false`); otherwise the
/// enabling line is appended.  A commented-out setting counts for neither.
pub fn os_prober_edit(content: &str) -> (r: ProberEdit)
    ensures
        r@ == spec_prober_edit(content@),
{
    let v = chars_of(content);
    let on = chars_of("GRUB_DISABLE_OS_PROBER=false");
    let off = chars_of("GRUB_DISABLE_OS_PROBER=true");
    if has_setting_exec(&v, &on) {
        ProberEdit::Keep
    } else if has_setting_exec(&v, &off) {
        proof {
            reveal_strlit("GRUB_DISABLE_OS_PROBER=true");
        }
        let replaced = replace_exec(&v, &off, &on);
        ProberEdit::Rewrite(string_of(&replaced))
    } else {
        ProberEdit::Append
    }
}

/// The text of `/etc/default/grub` once os-prober is enabled, given its
/// current text (`None`: the file does not exist).
pub open spec fn spec_prober_enabled_content(existing: Option<Seq<char>>) -> Seq<char> {
    match existing {
        None => baseline_config(),
        Some(c) => match spec_prober_edit(c) {
            ProberEditView::Keep => c,
            ProberEditView::Rewrite(n) => n,
            ProberEditView::Append => c + prober_appendix(),
        },
    }
}

/// The text that `/etc/default/grub` has after os-prober was enabled.
pub fn os_prober_enabled_content(existing: Option<&str>) -> (r: String)
    ensures
        r@ == spec_prober_enabled_content(
            match existing {
                Some(s) => Some(s@),
                None => None,
            },
        ),
{
    match existing {
        None => String::from_str(
            "# Generated programmatically by Fix-Automation rescue tool\nGRUB_TIMEOUT=5\nGRUB_DISTRIBUTOR=\"Linux\"\nGRUB_CMDLINE_LINUX_DEFAULT=\"quiet splash\"\nGRUB_DISABLE_OS_PROBER=false\n",
        ),
        Some(c) => match os_prober_edit(c) {
            ProberEdit::Keep => String::from_str(c),
            ProberEdit::Rewrite(n) => n,
            ProberEdit::Append => join2(
                c,
                "\n# Enabled programmatically by Fix-Automation rescue tool\nGRUB_DISABLE_OS_PROBER=false\n",
            ),
        },
    }
}

/// Where the GRUB repair stands: which reply it waits for.
#[derive(Clone, Copy, Debug, PartialEq, Eq, Structural)]
pub enum GrubPhase {
    CheckInstall,
    CheckMkconfig,
    Initramfs,
    Install,
    ProberExists,
    ProberMkdir,
    ProberWrite,
    ProberRead,
    ProberEdit,
    Mkconfig,
    Hook,
    Finished,
}

/// The kind of reply that each phase waits for.
pub open spec fn phase_reply_fits(p: GrubPhase, r: Reply) -> bool {
    match p {
        GrubPhase::CheckInstall | GrubPhase::CheckMkconfig | GrubPhase::ProberExists => r is Exists,
        GrubPhase::Initramfs | GrubPhase::Install | GrubPhase::Mkconfig | GrubPhase::Hook => r is Status,
        GrubPhase::ProberMkdir | GrubPhase::ProberWrite | GrubPhase::ProberEdit => r is Written,
        GrubPhase::ProberRead => r is Content,
        GrubPhase::Finished => false,
    }
}

/// What the GRUB repair asks next.
pub enum GrubStep {
    Run(Op),
    Done(Result<(), IoFailure>),
}

pub enum GrubStepView {
    Run(OpView),
    Done(Result<(), FailureView>),
}

impl View for GrubStep {
    type V = GrubStepView;

    open spec fn view(&self) -> GrubStepView {
        match self {
            GrubStep::Run(op) => GrubStepView::Run(op@),
            GrubStep::Done(r) => GrubStepView::Done(result_view(*r)),
        }
    }
}

/// The step into the initramfs rebuild, or straight to the installer where
/// the family has no initramfs command.
pub open spec fn after_presence(d: DetectedDistro, bt: BootType) -> (GrubPhase, GrubStepView) {
    if d.spec_initramfs_cmd().len() == 0 {
        (GrubPhase::Install, GrubStepView::Run(install_op(d, bt)))
    } else {
        (GrubPhase::Initramfs, GrubStepView::Run(initramfs_op(d)))
    }
}

pub open spec fn to_mkconfig(d: DetectedDistro) -> (GrubPhase, GrubStepView) {
    (GrubPhase::Mkconfig, GrubStepView::Run(mkconfig_op(d)))
}

pub open spec fn finish(r: Result<(), FailureView>) -> (GrubPhase, GrubStepView) {
    (GrubPhase::Finished, GrubStepView::Done(r))
}

/// A written file or directory: go on with `next`, or stop with the error.
pub open spec fn on_written(w: Result<(), IoFailure>, next: (GrubPhase, GrubStepView)) -> (
    GrubPhase,
    GrubStepView,
) {
    match w {
        Ok(()) => next,
        Err(e) => finish(Err(e@)),
    }
}

/// A finished program: go on with `next` on success, stop with `failure`
/// on an unsuccessful exit, or with the error when it could not start.
pub open spec fn on_status(
    s: Result<bool, IoFailure>,
    next: (GrubPhase, GrubStepView),
    failure: Seq<char>,
) -> (GrubPhase, GrubStepView) {
    match s {
        Ok(true) => next,
        Ok(false) => finish(Err(other_failure(failure))),
        Err(e) => finish(Err(e@)),
    }
}

/// The next phase and step of the GRUB repair after `reply`.
pub open spec fn grub_next(d: DetectedDistro, bt: BootType, p: GrubPhase, reply: Reply) -> (
    GrubPhase,
    GrubStepView,
) {
    match (p, reply) {
        (GrubPhase::CheckInstall, Reply::Exists(e)) => if e {
            (
                GrubPhase::CheckMkconfig,
                GrubStepView::Run(OpView::FileExists(bin_path(d.spec_grub_mkconfig_bin()))),
            )
        } else {
            finish(Err(missing_binary(bin_path(d.spec_grub_install_bin()))))
        },
        (GrubPhase::CheckMkconfig, Reply::Exists(e)) => if e {
            after_presence(d, bt)
        } else {
            finish(Err(missing_binary(bin_path(d.spec_grub_mkconfig_bin()))))
        },
        (GrubPhase::Initramfs, Reply::Status(s)) => on_status(
            s,
            (GrubPhase::Install, GrubStepView::Run(install_op(d, bt))),
            "Initramfs regeneration failed"@,
        ),
        (GrubPhase::Install, Reply::Status(s)) => on_status(
            s,
            (GrubPhase::ProberExists, GrubStepView::Run(OpView::FileExists(default_grub_path()))),
            d.spec_grub_install_bin() + " execution failed"@,
        ),
        (GrubPhase::ProberExists, Reply::Exists(e)) => if e {
            (GrubPhase::ProberRead, GrubStepView::Run(OpView::ReadFile(default_grub_path())))
        } else {
            (GrubPhase::ProberMkdir, GrubStepView::Run(OpView::CreateDirAll(default_grub_dir())))
        },
        (GrubPhase::ProberMkdir, Reply::Written(w)) => on_written(
            w,
            (
                GrubPhase::ProberWrite,
                GrubStepView::Run(OpView::WriteFile(default_grub_path(), baseline_config())),
            ),
        ),
        (GrubPhase::ProberWrite, Reply::Written(w)) => on_written(w, to_mkconfig(d)),
        (GrubPhase::ProberRead, Reply::Content(c)) => match c {
            Ok(text) => match spec_prober_edit(text@) {
                ProberEditView::Keep => to_mkconfig(d),
                ProberEditView::Rewrite(n) => (
                    GrubPhase::ProberEdit,
                    GrubStepView::Run(OpView::WriteFile(default_grub_path(), n)),
                ),
                ProberEditView::Append => (
                    GrubPhase::ProberEdit,
                    GrubStepView::Run(OpView::AppendFile(default_grub_path(), prober_appendix())),
                ),
            },
            Err(e) => finish(Err(e@)),
        },
        (GrubPhase::ProberEdit, Reply::Written(w)) => on_written(w, to_mkconfig(d)),
        (GrubPhase::Mkconfig, Reply::Status(s)) => on_status(
            s,
            match d.spec_post_grub_hook() {
                Some(h) => (GrubPhase::Hook, GrubStepView::Run(OpView::RunInChroot(h, Seq::empty()))),
                None => finish(Ok(())),
            },
            d.spec_grub_mkconfig_bin() + " execution failed"@,
        ),
        (GrubPhase::Hook, Reply::Status(s)) => on_status(
            s,
            finish(Ok(())),
            d.spec_post_grub_hook()->0 + " failed"@,
        ),
        _ => (p, GrubStepView::Done(Ok(()))),
    }
}

/// The GRUB repair of a mounted target: checks that the GRUB programs exist,
/// rebuilds the initramfs where the family has a command for it, installs
/// GRUB, enables os-prober in `/etc/default/grub`, writes the GRUB
/// configuration and runs the family's hook.  The first failure ends it.
pub struct GrubRepair {
    pub distro: DetectedDistro,
    pub boot_type: BootType,
    pub phase: GrubPhase,
}

fn strings_of(v: &Vec<&'static str>, from: usize) -> (r: Vec<String>)
    requires
        from <= v.len(),
    ensures
        string_seq_views(r@) == v@.skip(from as int).map_values(|s: &'static str| s@),
{
    let mut r: Vec<String> = Vec::new();
    let mut i: usize = from;
    while i < v.len()
        invariant
            from <= i <= v.len(),
            string_seq_views(r@) =~= v@.subrange(from as int, i as int).map_values(
                |s: &'static str| s@,
            ),
        decreases v.len() - i,
    {
        let ghost before = r@;
        r.push(String::from_str(v[i]));
        proof {
            assert(string_seq_views(r@) =~= string_seq_views(before).push(v@[i as int]@));
            assert(v@.subrange(from as int, i + 1) =~= v@.subrange(from as int, i as int).push(
                v@[i as int],
            ));
        }
        i = i + 1;
    }
    assert(v@.subrange(from as int, v.len() as int) =~= v@.skip(from as int));
    r
}

impl GrubRepair {
    /// The hook phase is reached only for a family that has a hook.
    pub open spec fn wf(&self) -> bool {
        self.phase == GrubPhase::Hook ==> self.distro.spec_post_grub_hook() is Some
    }

    fn install_op_exec(&self) -> (r: Op)
        ensures
            r@ == install_op(self.distro, self.boot_type),
    {
        let args: Vec<String> = match &self.boot_type {
            BootType::Efi { efi_mount_inside_chroot } => {
                let mut a: Vec<String> = Vec::new();
                a.push(String::from_str("--target=x86_64-efi"));
                a.push(join2("--efi-directory=", efi_mount_inside_chroot.as_str()));
                a.push(String::from_str("--bootloader-id=GRUB"));
                a.push(String::from_str("--recheck"));
                assert(string_seq_views(a@) =~= install_args(self.boot_type));
                a
            },
            BootType::Bios { target_disk } => {
                let mut a: Vec<String> = Vec::new();
                a.push(String::from_str("--target=i386-pc"));
                a.push(target_disk.clone());
                a.push(String::from_str("--recheck"));
                assert(string_seq_views(a@) =~= install_args(self.boot_type));
                a
            },
        };
        Op::RunInChroot(String::from_str(self.distro.grub_install_bin()), args)
    }

    fn mkconfig_op_exec(&self) -> (r: Op)
        ensures
            r@ == mkconfig_op(self.distro),
    {
        let mut a: Vec<String> = Vec::new();
        a.push(String::from_str("-o"));
        a.push(String::from_str(self.distro.grub_config_path()));
        assert(string_seq_views(a@) =~= seq!["-o"@, self.distro.spec_grub_config_path()]);
        Op::RunInChroot(String::from_str(self.distro.grub_mkconfig_bin()), a)
    }

    fn after_presence_exec(&mut self) -> (r: GrubStep)
        ensures
            (final(self).phase, r@) == after_presence(old(self).distro, old(self).boot_type),
            final(self).distro == old(self).distro,
            final(self).boot_type == old(self).boot_type,
    {
        let cmd = self.distro.initramfs_cmd();
        if cmd.len() == 0 {
            self.phase = GrubPhase::Install;
            GrubStep::Run(self.install_op_exec())
        } else {
            let args = strings_of(&cmd, 1);
            proof {
                let sc = self.distro.spec_initramfs_cmd();
                assert(cmd@.skip(1).map_values(|s: &'static str| s@) =~= sc.drop_first());
            }
            self.phase = GrubPhase::Initramfs;
            GrubStep::Run(Op::RunInChroot(String::from_str(cmd[0]), args))
        }
    }

    fn to_mkconfig_exec(&mut self) -> (r: GrubStep)
        ensures
            (final(self).phase, r@) == to_mkconfig(old(self).distro),
            final(self).distro == old(self).distro,
            final(self).boot_type == old(self).boot_type,
    {
        self.phase = GrubPhase::Mkconfig;
        GrubStep::Run(self.mkconfig_op_exec())
    }

    fn finish_exec(&mut self, r: Result<(), IoFailure>) -> (s: GrubStep)
        ensures
            (final(self).phase, s@) == finish(result_view(r)),
            final(self).distro == old(self).distro,
            final(self).boot_type == old(self).boot_type,
    {
        self.phase = GrubPhase::Finished;
        GrubStep::Done(r)
    }

    /// Whether the repair is consistent and waits for a reply of the kind of `reply`.
    pub fn accepts(&self, reply: &Reply) -> (r: bool)
        ensures
            r == (self.wf() && phase_reply_fits(self.phase, *reply)),
    {
        let wf = self.phase != GrubPhase::Hook || self.distro.post_grub_hook().is_some();
        let fits = match (self.phase, reply) {
            (GrubPhase::CheckInstall, Reply::Exists(_)) => true,
            (GrubPhase::CheckMkconfig, Reply::Exists(_)) => true,
            (GrubPhase::ProberExists, Reply::Exists(_)) => true,
            (GrubPhase::Initramfs, Reply::Status(_)) => true,
            (GrubPhase::Install, Reply::Status(_)) => true,
            (GrubPhase::Mkconfig, Reply::Status(_)) => true,
            (GrubPhase::Hook, Reply::Status(_)) => true,
            (GrubPhase::ProberMkdir, Reply::Written(_)) => true,
            (GrubPhase::ProberWrite, Reply::Written(_)) => true,
            (GrubPhase::ProberEdit, Reply::Written(_)) => true,
            (GrubPhase::ProberRead, Reply::Content(_)) => true,
            _ => false,
        };
        wf && fits
    }

    /// Starts the repair: the first step checks that the installer exists.
    pub fn start(distro: DetectedDistro, boot_type: BootType) -> (r: (Self, Op))
        ensures
            r.0.distro == distro,
            r.0.boot_type == boot_type,
            r.0.phase == GrubPhase::CheckInstall,
            r.0.wf(),
            r.1@ == OpView::FileExists(bin_path(distro.spec_grub_install_bin())),
    {
        let (install, _) = grub_binary_paths(&distro);
        (GrubRepair { distro, boot_type, phase: GrubPhase::CheckInstall }, Op::FileExists(install))
    }

    /// Takes the reply to the last step and returns the next one.
    pub fn resume(&mut self, reply: Reply) -> (r: GrubStep)
        requires
            old(self).wf(),
            phase_reply_fits(old(self).phase, reply),
        ensures
            final(self).wf(),
            final(self).distro == old(self).distro,
            final(self).boot_type == old(self).boot_type,
            (final(self).phase, r@) == grub_next(
                old(self).distro,
                old(self).boot_type,
                old(self).phase,
                reply,
            ),
    {
        match (self.phase, reply) {
            (GrubPhase::CheckInstall, Reply::Exists(e)) => {
                let (install, mkconfig) = grub_binary_paths(&self.distro);
                if e {
                    self.phase = GrubPhase::CheckMkconfig;
                    GrubStep::Run(Op::FileExists(mkconfig))
                } else {
                    self.finish_exec(Err(missing_binary_exec(&install)))
                }
            },
            (GrubPhase::CheckMkconfig, Reply::Exists(e)) => {
                if e {
                    self.after_presence_exec()
                } else {
                    let (_, mkconfig) = grub_binary_paths(&self.distro);
                    self.finish_exec(Err(missing_binary_exec(&mkconfig)))
                }
            },
            (GrubPhase::Initramfs, Reply::Status(s)) => match s {
                Ok(true) => {
                    self.phase = GrubPhase::Install;
                    GrubStep::Run(self.install_op_exec())
                },
                Ok(false) => self.finish_exec(
                    Err(IoFailure::other(String::from_str("Initramfs regeneration failed"))),
                ),
                Err(e) => self.finish_exec(Err(e)),
            },
            (GrubPhase::Install, Reply::Status(s)) => match s {
                Ok(true) => {
                    self.phase = GrubPhase::ProberExists;
                    GrubStep::Run(Op::FileExists(String::from_str("etc/default/grub")))
                },
                Ok(false) => {
                    let msg = join2(self.distro.grub_install_bin(), " execution failed");
                    self.finish_exec(Err(IoFailure::other(msg)))
                },
                Err(e) => self.finish_exec(Err(e)),
            },
            (GrubPhase::ProberExists, Reply::Exists(e)) => {
                if e {
                    self.phase = GrubPhase::ProberRead;
                    GrubStep::Run(Op::ReadFile(String::from_str("etc/default/grub")))
                } else {
                    self.phase = GrubPhase::ProberMkdir;
                    GrubStep::Run(Op::CreateDirAll(String::from_str("etc/default")))
                }
            },
            (GrubPhase::ProberMkdir, Reply::Written(w)) => match w {
                Ok(()) => {
                    self.phase = GrubPhase::ProberWrite;
                    GrubStep::Run(
                        Op::WriteFile(
                            String::from_str("etc/default/grub"),
                            os_prober_enabled_content(None),
                        ),
                    )
                },
                Err(e) => self.finish_exec(Err(e)),
            },
            (GrubPhase::ProberWrite, Reply::Written(w)) => match w {
                Ok(()) => self.to_mkconfig_exec(),
                Err(e) => self.finish_exec(Err(e)),
            },
            (GrubPhase::ProberRead, Reply::Content(c)) => match c {
                Ok(text) => match os_prober_edit(text.as_str()) {
                    ProberEdit::Keep => self.to_mkconfig_exec(),
                    ProberEdit::Rewrite(n) => {
                        self.phase = GrubPhase::ProberEdit;
                        GrubStep::Run(Op::WriteFile(String::from_str("etc/default/grub"), n))
                    },
                    ProberEdit::Append => {
                        self.phase = GrubPhase::ProberEdit;
                        GrubStep::Run(
                            Op::AppendFile(
                                String::from_str("etc/default/grub"),
                                String::from_str(
                                    "\n# Enabled programmatically by Fix-Automation rescue tool\nGRUB_DISABLE_OS_PROBER=false\n",
                                ),
                            ),
                        )
                    },
                },
                Err(e) => self.finish_exec(Err(e)),
            },
            (GrubPhase::ProberEdit, Reply::Written(w)) => match w {
                Ok(()) => self.to_mkconfig_exec(),
                Err(e) => self.finish_exec(Err(e)),
            },
            (GrubPhase::Mkconfig, Reply::Status(s)) => match s {
                Ok(true) => match self.distro.post_grub_hook() {
                    Some(h) => {
                        self.phase = GrubPhase::Hook;
                        let args: Vec<String> = Vec::new();
                        assert(string_seq_views(args@) =~= Seq::<Seq<char>>::empty());
                        GrubStep::Run(Op::RunInChroot(String::from_str(h), args))
                    },
                    None => self.finish_exec(Ok(())),
                },
                Ok(false) => {
                    let msg = join2(self.distro.grub_mkconfig_bin(), " execution failed");
                    self.finish_exec(Err(IoFailure::other(msg)))
                },
                Err(e) => self.finish_exec(Err(e)),
            },
            (GrubPhase::Hook, Reply::Status(s)) => match s {
                Ok(true) => self.finish_exec(Ok(())),
                Ok(false) => {
                    let h = match self.distro.post_grub_hook() {
                        Some(h) => h,
                        None => "",
                    };
                    let msg = join2(h, " failed");
                    self.finish_exec(Err(IoFailure::other(msg)))
                },
                Err(e) => self.finish_exec(Err(e)),
            },
            _ => GrubStep::Done(Ok(())),
        }
    }
}

} // verus!
