//! The state of the rescue tool's user interface and its transitions: screen
//! navigation, the action menu, the progress log of a running job.
use vstd::prelude::*;
use ratatui::widgets::TableState;
use crate::blkdev::{disk_views, DiskInfo, DiskView};
use crate::fstab::opt_view;
use crate::text::{ascii_lower, chars_of, contains_str, has_sub, lowercase, string_of, to_lowercase};

verus! {

/// `ratatui::widgets::TableState`, the selection of the partition table,
/// carried as an opaque value; the library reads it through the wrappers below.
#[verifier::external_type_specification]
#[verifier::external_body]
pub struct ExTableState(ratatui::widgets::TableState);

/// The selected row that a `TableState` holds (its `selected` field).
pub uninterp spec fn table_selection(t: TableState) -> Option<usize>;

/// Calls `TableState::new`, which builds a state with no selected row.
#[verifier::external_body]
fn table_state_new() -> (t: TableState)
    ensures
        table_selection(t) == None::<usize>,
{
    TableState::new()
}

/// Calls `TableState::select`, which stores `index` as the selected row (and
/// resets the scroll offset when `index` is `None`, which the library does not read).
#[verifier::external_body]
fn table_select(t: &mut TableState, index: Option<usize>)
    ensures
        table_selection(*final(t)) == index,
{
    t.select(index)
}

/// Calls `TableState::selected`, which returns the selected row as stored.
#[verifier::external_body]
fn table_selected(t: &TableState) -> (r: Option<usize>)
    ensures
        r == table_selection(*t),
{
    t.selected()
}

// ─── Simple state ────────────────────────────────────────────────────────────
#[derive(Debug, PartialEq, Eq, Structural, Clone, Copy)]
pub enum ScanState {
    Scanning,
    Done,
}

#[derive(Debug, PartialEq, Eq, Structural, Clone, Copy)]
pub enum CurrentScreen {
    Welcome,
    SelectRoot,
    SelectEfi,
    Confirm,
    ActionMenu,
    DiagnoseLog,
    ExecLog,
    Result,
    LogExport,
}

#[derive(Debug, PartialEq, Eq, Structural, Clone, Copy)]
pub enum ConfirmFocus {
    Confirm,
    Back,
}

#[derive(Debug, PartialEq, Eq, Structural, Clone, Copy)]
pub enum Action {
    FixGrub,
    FixFstab,
    FixGrubAndFstab,
    OpenChrootShell,
    RestoreWindowsEfi,
    PartitionManager,
    ExportLogs,
    DiagnoseWithAI,
}

pub open spec fn spec_is_available(a: Action) -> bool {
    matches!(a, Action::FixGrub | Action::FixFstab | Action::FixGrubAndFstab | Action::OpenChrootShell)
}

pub open spec fn spec_label(a: Action) -> Seq<char> {
    match a {
        Action::FixGrub => "fix grub"@,
        Action::FixFstab => "fix fstab"@,
        Action::FixGrubAndFstab => "fix grub + fstab"@,
        Action::OpenChrootShell => "open chroot shell"@,
        Action::RestoreWindowsEfi => "restore windows EFI"@,
        Action::PartitionManager => "partition manager"@,
        Action::ExportLogs => "export logs"@,
        Action::DiagnoseWithAI => "diagnose with AI"@,
    }
}

pub open spec fn spec_description(a: Action) -> Seq<char> {
    match a {
        Action::FixGrub => "reinstall + regenerate grub.cfg"@,
        Action::FixFstab => "auto-regen or edit manually"@,
        Action::FixGrubAndFstab => "recommended"@,
        Action::OpenChrootShell => "drop into chroot shell"@,
        Action::RestoreWindowsEfi => "recover from NTFS backup"@,
        Action::PartitionManager => "create - delete - resize"@,
        Action::ExportLogs => "QR code - paste URL"@,
        Action::DiagnoseWithAI => "send logs to an AI assistant"@,
    }
}

impl Action {
    /// Whether the action is implemented (the others are shown grayed out).
    pub fn is_available(self) -> (r: bool)
        ensures
            r == spec_is_available(self),
    {
        match self {
            Action::FixGrub | Action::FixFstab | Action::FixGrubAndFstab
            | Action::OpenChrootShell => true,
            _ => false,
        }
    }

    pub fn label(self) -> (r: &'static str)
        ensures
            r@ == spec_label(self),
    {
        match self {
            Action::FixGrub => "fix grub",
            Action::FixFstab => "fix fstab",
            Action::FixGrubAndFstab => "fix grub + fstab",
            Action::OpenChrootShell => "open chroot shell",
            Action::RestoreWindowsEfi => "restore windows EFI",
            Action::PartitionManager => "partition manager",
            Action::ExportLogs => "export logs",
            Action::DiagnoseWithAI => "diagnose with AI",
        }
    }

    pub fn description(self) -> (r: &'static str)
        ensures
            r@ == spec_description(self),
    {
        match self {
            Action::FixGrub => "reinstall + regenerate grub.cfg",
            Action::FixFstab => "auto-regen or edit manually",
            Action::FixGrubAndFstab => "recommended",
            Action::OpenChrootShell => "drop into chroot shell",
            Action::RestoreWindowsEfi => "recover from NTFS backup",
            Action::PartitionManager => "create - delete - resize",
            Action::ExportLogs => "QR code - paste URL",
            Action::DiagnoseWithAI => "send logs to an AI assistant",
        }
    }
}

// ─── Action menu ─────────────────────────────────────────────────────────────
/// The number of rows of the action menu.
pub const ACTION_ITEMS_LEN: usize = 11;

/// The rows of the action menu; `None` is a section header.  Indices are
/// stable, so the cursor refers to them directly.
pub open spec fn action_items() -> Seq<Option<Action>> {
    seq![
        None,
        Some(Action::FixGrub),
        Some(Action::FixFstab),
        Some(Action::FixGrubAndFstab),
        Some(Action::RestoreWindowsEfi),
        None,
        Some(Action::PartitionManager),
        None,
        Some(Action::ExportLogs),
        Some(Action::DiagnoseWithAI),
        Some(Action::OpenChrootShell),
    ]
}

/// The row of the action menu at index `i`.
pub fn action_item(i: usize) -> (r: Option<Action>)
    requires
        i < ACTION_ITEMS_LEN,
    ensures
        r == action_items()[i as int],
{
    match i {
        0 => None,
        1 => Some(Action::FixGrub),
        2 => Some(Action::FixFstab),
        3 => Some(Action::FixGrubAndFstab),
        4 => Some(Action::RestoreWindowsEfi),
        5 => None,
        6 => Some(Action::PartitionManager),
        7 => None,
        8 => Some(Action::ExportLogs),
        9 => Some(Action::DiagnoseWithAI),
        _ => Some(Action::OpenChrootShell),
    }
}

/// All rows of the action menu.
pub fn action_items_vec() -> (r: Vec<Option<Action>>)
    ensures
        r@ == action_items(),
{
    let mut r: Vec<Option<Action>> = Vec::new();
    let mut i: usize = 0;
    while i < ACTION_ITEMS_LEN
        invariant
            i <= ACTION_ITEMS_LEN,
            r@ == action_items().take(i as int),
        decreases ACTION_ITEMS_LEN - i,
    {
        r.push(action_item(i));
        proof {
            assert(action_items().take(i as int).push(action_items()[i as int]) =~= action_items().take(
                i + 1,
            ));
        }
        i = i + 1;
    }
    assert(action_items().take(11) =~= action_items());
    r
}

/// The first action row at index `c` or after.
pub open spec fn next_action_from(c: int) -> Option<int>
    decreases 11 - c,
{
    if c < 0 || c >= 11 {
        None
    } else if action_items()[c] is Some {
        Some(c)
    } else {
        next_action_from(c + 1)
    }
}

/// The last action row at index `c` or before.
pub open spec fn prev_action_from(c: int) -> Option<int>
    decreases c + 1,
{
    if c < 0 {
        None
    } else if c < 11 && action_items()[c] is Some {
        Some(c)
    } else {
        prev_action_from(c - 1)
    }
}

/// The index of the first action row (the first row is a header).
pub open spec fn first_action() -> int {
    1
}

/// Where the cursor goes on "down": the next action row, wrapping to the first.
pub open spec fn spec_action_next(cursor: usize) -> usize {
    match next_action_from(cursor + 1) {
        Some(c) => c as usize,
        None => first_action() as usize,
    }
}

/// Where the cursor goes on "up": the previous action row; it stays where it
/// is at the top.
pub open spec fn spec_action_prev(cursor: usize) -> usize {
    if cursor == 0 {
        cursor
    } else {
        match prev_action_from(cursor - 1) {
            Some(c) => c as usize,
            None => cursor,
        }
    }
}

/// The index of the first action row.
pub fn first_action_index() -> (r: usize)
    ensures
        r as int == first_action(),
        next_action_from(0) == Some(r as int),
{
    let mut c: usize = 0;
    while c < ACTION_ITEMS_LEN
        invariant
            c <= ACTION_ITEMS_LEN,
            forall|j: int| 0 <= j < c ==> action_items()[j] is None,
            next_action_from(0) == next_action_from(c as int),
        decreases ACTION_ITEMS_LEN - c,
    {
        if action_item(c).is_some() {
            return c;
        }
        c = c + 1;
    }
    assert(action_items()[1] is Some);
    0
}

// ─── Execution log ───────────────────────────────────────────────────────────
#[derive(Debug, Clone, PartialEq)]
pub enum LogKind {
    Step,
    Output,
    Success,
    Warn,
    Error,
    DiagnosisResult(Vec<String>, Option<Action>),
    Done,
}

pub enum LogKindView {
    Step,
    Output,
    Success,
    Warn,
    Error,
    DiagnosisResult(Seq<Seq<char>>, Option<Action>),
    Done,
}

impl View for LogKind {
    type V = LogKindView;

    open spec fn view(&self) -> LogKindView {
        match self {
            LogKind::Step => LogKindView::Step,
            LogKind::Output => LogKindView::Output,
            LogKind::Success => LogKindView::Success,
            LogKind::Warn => LogKindView::Warn,
            LogKind::Error => LogKindView::Error,
            LogKind::DiagnosisResult(s, a) => LogKindView::DiagnosisResult(
                s@.map_values(|x: String| x@),
                *a,
            ),
            LogKind::Done => LogKindView::Done,
        }
    }
}

#[derive(Debug, Clone)]
pub struct LogLine {
    pub kind: LogKind,
    pub text: String,
}

pub struct LogLineView {
    pub kind: LogKindView,
    pub text: Seq<char>,
}

impl View for LogLine {
    type V = LogLineView;

    open spec fn view(&self) -> LogLineView {
        LogLineView { kind: self.kind@, text: self.text@ }
    }
}

pub open spec fn log_views(s: Seq<LogLine>) -> Seq<LogLineView> {
    s.map_values(|l: LogLine| l@)
}

impl LogLine {
    /// A step header.
    pub fn step(t: &str) -> (r: Self)
        ensures
            r@ == (LogLineView { kind: LogKindView::Step, text: t@ }),
    {
        LogLine { kind: LogKind::Step, text: String::from_str(t) }
    }

    /// Output of a command.
    pub fn output(t: &str) -> (r: Self)
        ensures
            r@ == (LogLineView { kind: LogKindView::Output, text: t@ }),
    {
        LogLine { kind: LogKind::Output, text: String::from_str(t) }
    }

    /// A step that succeeded.
    pub fn ok(t: &str) -> (r: Self)
        ensures
            r@ == (LogLineView { kind: LogKindView::Success, text: t@ }),
    {
        LogLine { kind: LogKind::Success, text: String::from_str(t) }
    }

    /// A warning.
    pub fn warn(t: &str) -> (r: Self)
        ensures
            r@ == (LogLineView { kind: LogKindView::Warn, text: t@ }),
    {
        LogLine { kind: LogKind::Warn, text: String::from_str(t) }
    }

    /// A failure.
    pub fn error(t: &str) -> (r: Self)
        ensures
            r@ == (LogLineView { kind: LogKindView::Error, text: t@ }),
    {
        LogLine { kind: LogKind::Error, text: String::from_str(t) }
    }

    /// The signal that the job has finished.
    pub fn done() -> (r: Self)
        ensures
            r@ == (LogLineView { kind: LogKindView::Done, text: Seq::empty() }),
    {
        LogLine { kind: LogKind::Done, text: String::new() }
    }
}


// ─── Application state ───────────────────────────────────────────────────────
/// A key the user pressed.
#[derive(Clone, Copy, Debug, PartialEq, Eq, Structural)]
pub enum Key {
    Enter,
    Esc,
    Up,
    Down,
    Left,
    Right,
    Tab,
    Char(char),
    Other,
}

/// What a diagnosis job needs; it runs away from the interface.
pub struct DiagnosisJob {
    pub root: DiskInfo,
    pub efi: Option<DiskInfo>,
    pub is_uefi: bool,
    pub disks: Vec<DiskInfo>,
}

/// What a repair job needs; it runs away from the interface.
pub struct RepairJob {
    pub action: Action,
    pub root: DiskInfo,
    pub efi: Option<DiskInfo>,
    pub is_uefi: bool,
}

/// Outside work that a key press asks for.
pub enum InputEffect {
    Nothing,
    StartDiagnosis(DiagnosisJob),
    StartRepair(RepairJob),
    Reboot,
    Poweroff,
}

pub struct App {
    pub current_screen: CurrentScreen,
    pub should_quit: bool,
    pub is_uefi: bool,
    pub detected_distro: Option<String>,
    pub confirm_focus: ConfirmFocus,
    pub network_info: Option<String>,
    pub disks: Vec<DiskInfo>,
    pub selected_root: Option<DiskInfo>,
    pub selected_efi: Option<DiskInfo>,
    pub scan_state: ScanState,
    pub table_state: TableState,
    pub action_cursor: usize,
    pub selected_action: Option<Action>,
    pub diagnosis_summary: Vec<String>,
    pub recommended_action: Option<Action>,
    pub log_lines: Vec<LogLine>,
    pub exec_step: usize,
    pub exec_total: usize,
    pub exec_done: bool,
    pub result_cursor: usize,
    pub export_cursor: usize,
}

pub struct AppView {
    pub current_screen: CurrentScreen,
    pub should_quit: bool,
    pub is_uefi: bool,
    pub detected_distro: Option<Seq<char>>,
    pub confirm_focus: ConfirmFocus,
    pub network_info: Option<Seq<char>>,
    pub disks: Seq<DiskView>,
    pub selected_root: Option<DiskView>,
    pub selected_efi: Option<DiskView>,
    pub scan_state: ScanState,
    pub selection: Option<usize>,
    pub action_cursor: usize,
    pub selected_action: Option<Action>,
    pub diagnosis_summary: Seq<Seq<char>>,
    pub recommended_action: Option<Action>,
    pub log_lines: Seq<LogLineView>,
    pub exec_step: usize,
    pub exec_total: usize,
    pub exec_done: bool,
    pub result_cursor: usize,
    pub export_cursor: usize,
}

pub open spec fn disk_opt_view(o: Option<DiskInfo>) -> Option<DiskView> {
    match o {
        Some(d) => Some(d@),
        None => None,
    }
}

pub open spec fn string_views(s: Seq<String>) -> Seq<Seq<char>> {
    s.map_values(|x: String| x@)
}

impl View for App {
    type V = AppView;

    open spec fn view(&self) -> AppView {
        AppView {
            current_screen: self.current_screen,
            should_quit: self.should_quit,
            is_uefi: self.is_uefi,
            detected_distro: opt_view(self.detected_distro),
            confirm_focus: self.confirm_focus,
            network_info: opt_view(self.network_info),
            disks: disk_views(self.disks@),
            selected_root: disk_opt_view(self.selected_root),
            selected_efi: disk_opt_view(self.selected_efi),
            scan_state: self.scan_state,
            selection: table_selection(self.table_state),
            action_cursor: self.action_cursor,
            selected_action: self.selected_action,
            diagnosis_summary: string_views(self.diagnosis_summary@),
            recommended_action: self.recommended_action,
            log_lines: log_views(self.log_lines@),
            exec_step: self.exec_step,
            exec_total: self.exec_total,
            exec_done: self.exec_done,
            result_cursor: self.result_cursor,
            export_cursor: self.export_cursor,
        }
    }
}

/// The state at start-up: welcome screen, disks still being scanned, the
/// cursor on the first action, a seven-step job expected.
pub open spec fn initial_view(is_uefi: bool, network_info: Option<Seq<char>>) -> AppView {
    AppView {
        current_screen: CurrentScreen::Welcome,
        should_quit: false,
        is_uefi,
        detected_distro: None,
        confirm_focus: ConfirmFocus::Confirm,
        network_info,
        disks: Seq::empty(),
        selected_root: None,
        selected_efi: None,
        scan_state: ScanState::Scanning,
        selection: Some(0),
        action_cursor: first_action() as usize,
        selected_action: None,
        diagnosis_summary: Seq::empty(),
        recommended_action: None,
        log_lines: Seq::empty(),
        exec_step: 0,
        exec_total: 7,
        exec_done: false,
        result_cursor: 0,
        export_cursor: 0,
    }
}

/// Selection after "down" in the partition list: the next row, wrapping to
/// the first; nothing happens on an empty list.
pub open spec fn spec_select_next(s: AppView) -> AppView {
    if s.disks.len() == 0 {
        s
    } else {
        AppView {
            selection: Some(
                match s.selection {
                    Some(i) => if i >= s.disks.len() - 1 {
                        0
                    } else {
                        (i + 1) as usize
                    },
                    None => 0,
                },
            ),
            ..s
        }
    }
}

/// Selection after "up" in the partition list: the previous row, wrapping to
/// the last; nothing happens on an empty list.
pub open spec fn spec_select_previous(s: AppView) -> AppView {
    if s.disks.len() == 0 {
        s
    } else {
        AppView {
            selection: Some(
                match s.selection {
                    Some(i) => if i == 0 {
                        (s.disks.len() - 1) as usize
                    } else {
                        (i - 1) as usize
                    },
                    None => 0,
                },
            ),
            ..s
        }
    }
}

pub open spec fn toggled(f: ConfirmFocus) -> ConfirmFocus {
    match f {
        ConfirmFocus::Confirm => ConfirmFocus::Back,
        ConfirmFocus::Back => ConfirmFocus::Confirm,
    }
}

/// The distribution guessed from a partition's lowercased label and name.
pub open spec fn distro_guess(label: Seq<char>, name: Seq<char>) -> Seq<char> {
    if has_sub(label, "arch"@) || has_sub(name, "arch"@) {
        "Arch Linux"@
    } else if has_sub(label, "debian"@) {
        "Debian"@
    } else if has_sub(label, "ubuntu"@) {
        "Ubuntu"@
    } else if has_sub(label, "fedora"@) {
        "Fedora"@
    } else if has_sub(label, "nixos"@) {
        "NixOS"@
    } else if has_sub(label, "mint"@) {
        "Linux Mint"@
    } else {
        "Unknown Linux"@
    }
}

/// Every character is ASCII.
pub open spec fn is_ascii_text(s: Seq<char>) -> bool {
    forall|k: int| 0 <= k < s.len() ==> (s[k] as u32) < 128
}

/// Each character lowercased as ASCII.
pub open spec fn ascii_lowered(s: Seq<char>) -> Seq<char> {
    s.map_values(|c: char| ascii_lower(c))
}

/// The distribution shown before the root is mounted: the detected one if
/// any, else a guess from the selected root's label and name.
pub open spec fn spec_heuristic_distro(s: AppView) -> Seq<char> {
    match s.detected_distro {
        Some(d) => d,
        None => match s.selected_root {
            Some(r) => distro_guess(
                lowercase(
                    match r.label {
                        Some(l) => l,
                        None => Seq::empty(),
                    },
                ),
                lowercase(r.name),
            ),
            None => "Unknown Linux"@,
        },
    }
}

/// Guesses the distribution from a lowercased partition label and name.
pub fn guess_distro(label: &Vec<char>, name: &Vec<char>) -> (r: String)
    ensures
        r@ == distro_guess(label@, name@),
{
    if contains_str(label, "arch") || contains_str(name, "arch") {
        String::from_str("Arch Linux")
    } else if contains_str(label, "debian") {
        String::from_str("Debian")
    } else if contains_str(label, "ubuntu") {
        String::from_str("Ubuntu")
    } else if contains_str(label, "fedora") {
        String::from_str("Fedora")
    } else if contains_str(label, "nixos") {
        String::from_str("NixOS")
    } else if contains_str(label, "mint") {
        String::from_str("Linux Mint")
    } else {
        String::from_str("Unknown Linux")
    }
}

/// The state after a diagnosis starts: a cleared four-step log on the
/// diagnosis screen; nothing happens without a selected root.
pub open spec fn spec_start_diagnosis(s: AppView) -> AppView {
    if s.selected_root is None {
        s
    } else {
        AppView {
            log_lines: Seq::empty(),
            exec_step: 0,
            exec_done: false,
            exec_total: 4,
            current_screen: CurrentScreen::DiagnoseLog,
            ..s
        }
    }
}

/// How many steps a repair job takes.
pub open spec fn repair_steps(a: Action) -> usize {
    match a {
        Action::FixGrubAndFstab => 9,
        Action::FixFstab => 5,
        _ => 7,
    }
}

/// The state after a repair starts: a cleared log on the execution screen;
/// nothing happens without a selected action and root.
pub open spec fn spec_start_repair(s: AppView) -> AppView {
    if s.selected_action is None || s.selected_root is None {
        s
    } else {
        AppView {
            log_lines: Seq::empty(),
            exec_step: 0,
            exec_done: false,
            exec_total: repair_steps(s.selected_action->0),
            current_screen: CurrentScreen::ExecLog,
            ..s
        }
    }
}

/// The EFI system partitions among `s`, in order.
pub open spec fn efi_disks(s: Seq<DiskView>) -> Seq<DiskView>
    decreases s.len(),
{
    if s.len() == 0 {
        Seq::empty()
    } else {
        let p = efi_disks(s.drop_last());
        if s.last().is_efi {
            p.push(s.last())
        } else {
            p
        }
    }
}

pub open spec fn with_quit(s: AppView) -> AppView {
    AppView { should_quit: true, ..s }
}

pub open spec fn is_q(k: Key) -> bool {
    k == Key::Char('q')
}

/// On the action menu, Enter reads the row at the cursor, Up the rows
/// before it and Down moves it one further: these keys need the cursor where
/// they can do so.  Every other key works wherever the cursor is.
pub open spec fn menu_key_ok(cursor: usize, k: Key) -> bool {
    &&& k == Key::Enter ==> cursor < ACTION_ITEMS_LEN
    &&& k == Key::Up ==> cursor <= ACTION_ITEMS_LEN
    &&& k == Key::Down ==> cursor < usize::MAX
}

/// The state after a key press.
pub open spec fn spec_handle_input(s: AppView, k: Key) -> AppView {
    match s.current_screen {
        CurrentScreen::Welcome => if k == Key::Enter {
            AppView { current_screen: CurrentScreen::SelectRoot, selection: Some(0), ..s }
        } else if is_q(k) {
            with_quit(s)
        } else {
            s
        },
        CurrentScreen::SelectRoot => if k == Key::Up {
            spec_select_previous(s)
        } else if k == Key::Down {
            spec_select_next(s)
        } else if k == Key::Enter {
            match s.selection {
                Some(i) => if i < s.disks.len() {
                    AppView {
                        selected_root: Some(s.disks[i as int]),
                        current_screen: CurrentScreen::SelectEfi,
                        selection: Some(0),
                        ..s
                    }
                } else {
                    s
                },
                None => s,
            }
        } else if is_q(k) {
            with_quit(s)
        } else {
            s
        },
        CurrentScreen::SelectEfi => {
            let efi = efi_disks(s.disks);
            let n = efi.len();
            if k == Key::Up && n > 0 {
                AppView {
                    selection: Some(
                        match s.selection {
                            Some(i) => if i == 0 {
                                (n - 1) as usize
                            } else {
                                (i - 1) as usize
                            },
                            None => 0,
                        },
                    ),
                    ..s
                }
            } else if k == Key::Down && n > 0 {
                AppView {
                    selection: Some(
                        match s.selection {
                            Some(i) => if i >= n - 1 {
                                0
                            } else {
                                (i + 1) as usize
                            },
                            None => 0,
                        },
                    ),
                    ..s
                }
            } else if k == Key::Enter && n == 0 {
                AppView { selection: Some(0), current_screen: CurrentScreen::Confirm, ..s }
            } else if k == Key::Enter {
                match s.selection {
                    Some(i) => if i < n {
                        AppView {
                            selected_efi: Some(efi[i as int]),
                            selection: Some(0),
                            current_screen: CurrentScreen::Confirm,
                            ..s
                        }
                    } else {
                        s
                    },
                    None => s,
                }
            } else if k == Key::Esc {
                AppView { selection: Some(0), current_screen: CurrentScreen::SelectRoot, ..s }
            } else if is_q(k) {
                with_quit(s)
            } else {
                s
            }
        },
        CurrentScreen::Confirm => if k == Key::Left || k == Key::Right || k == Key::Tab {
            AppView { confirm_focus: toggled(s.confirm_focus), ..s }
        } else if k == Key::Enter {
            match s.confirm_focus {
                ConfirmFocus::Confirm => spec_start_diagnosis(s),
                ConfirmFocus::Back => AppView {
                    selection: Some(0),
                    current_screen: CurrentScreen::SelectEfi,
                    ..s
                },
            }
        } else if k == Key::Esc {
            AppView { selection: Some(0), current_screen: CurrentScreen::SelectEfi, ..s }
        } else if is_q(k) {
            with_quit(s)
        } else {
            s
        },
        CurrentScreen::ActionMenu => if k == Key::Up {
            AppView { action_cursor: spec_action_prev(s.action_cursor), ..s }
        } else if k == Key::Down {
            AppView { action_cursor: spec_action_next(s.action_cursor), ..s }
        } else if k == Key::Enter {
            match action_items()[s.action_cursor as int] {
                Some(a) => if spec_is_available(a) {
                    spec_start_repair(AppView { selected_action: Some(a), ..s })
                } else {
                    s
                },
                None => s,
            }
        } else if k == Key::Esc {
            AppView { current_screen: CurrentScreen::Confirm, ..s }
        } else if is_q(k) {
            with_quit(s)
        } else {
            s
        },
        CurrentScreen::DiagnoseLog => if k == Key::Enter && s.exec_done {
            AppView {
                action_cursor: first_action() as usize,
                current_screen: CurrentScreen::ActionMenu,
                ..s
            }
        } else if is_q(k) {
            with_quit(s)
        } else {
            s
        },
        CurrentScreen::ExecLog => if k == Key::Enter && s.exec_done {
            AppView { result_cursor: 0, current_screen: CurrentScreen::Result, ..s }
        } else if is_q(k) {
            with_quit(s)
        } else {
            s
        },
        CurrentScreen::Result => if k == Key::Left && s.result_cursor > 0 {
            AppView { result_cursor: (s.result_cursor - 1) as usize, ..s }
        } else if k == Key::Right && s.result_cursor < 3 {
            AppView { result_cursor: (s.result_cursor + 1) as usize, ..s }
        } else if k == Key::Enter {
            if s.result_cursor == 0 {
                AppView { current_screen: CurrentScreen::ActionMenu, ..s }
            } else if s.result_cursor == 1 || s.result_cursor == 2 {
                with_quit(s)
            } else if s.result_cursor == 3 {
                AppView { current_screen: CurrentScreen::LogExport, ..s }
            } else {
                s
            }
        } else if is_q(k) {
            with_quit(s)
        } else {
            s
        },
        CurrentScreen::LogExport => if k == Key::Enter || k == Key::Esc {
            AppView { current_screen: CurrentScreen::Result, ..s }
        } else if is_q(k) {
            with_quit(s)
        } else {
            s
        },
    }
}

/// The kinds of outside work a key press asks for.
pub enum EffectKind {
    Nothing,
    StartDiagnosis,
    StartRepair,
    Reboot,
    Poweroff,
}

pub open spec fn effect_kind(e: InputEffect) -> EffectKind {
    match e {
        InputEffect::Nothing => EffectKind::Nothing,
        InputEffect::StartDiagnosis(_) => EffectKind::StartDiagnosis,
        InputEffect::StartRepair(_) => EffectKind::StartRepair,
        InputEffect::Reboot => EffectKind::Reboot,
        InputEffect::Poweroff => EffectKind::Poweroff,
    }
}

/// The outside work that a key press (on the screen of `s`) asks for.
pub open spec fn spec_input_effect(s: AppView, k: Key) -> EffectKind {
    if s.current_screen == CurrentScreen::Confirm && k == Key::Enter && s.confirm_focus
        == ConfirmFocus::Confirm && s.selected_root is Some {
        EffectKind::StartDiagnosis
    } else if s.current_screen == CurrentScreen::ActionMenu && k == Key::Enter && (match action_items()[s.action_cursor as int] {
        Some(a) => spec_is_available(a),
        None => false,
    }) && s.selected_root is Some {
        EffectKind::StartRepair
    } else if s.current_screen == CurrentScreen::Result && k == Key::Enter && s.result_cursor
        == 1 {
        EffectKind::Reboot
    } else if s.current_screen == CurrentScreen::Result && k == Key::Enter && s.result_cursor
        == 2 {
        EffectKind::Poweroff
    } else {
        EffectKind::Nothing
    }
}

pub open spec fn opt_disk_of(o: Option<DiskInfo>) -> Option<DiskView> {
    disk_opt_view(o)
}

/// A diagnosis job carries the selected root and EFI partitions, the firmware
/// kind and the disk list of `s`.
pub open spec fn diagnosis_job_of(j: DiagnosisJob, s: AppView) -> bool {
    &&& Some(j.root@) == s.selected_root
    &&& disk_opt_view(j.efi) == s.selected_efi
    &&& j.is_uefi == s.is_uefi
    &&& disk_views(j.disks@) == s.disks
}

/// A repair job carries the selected action, root and EFI partitions and the
/// firmware kind of `s`.
pub open spec fn repair_job_of(j: RepairJob, s: AppView) -> bool {
    &&& Some(j.action) == s.selected_action
    &&& Some(j.root@) == s.selected_root
    &&& disk_opt_view(j.efi) == s.selected_efi
    &&& j.is_uefi == s.is_uefi
}

/// A copy of a disk.
pub fn copy_disk(d: &DiskInfo) -> (r: DiskInfo)
    ensures
        r@ == d@,
{
    DiskInfo {
        name: d.name.clone(),
        size: d.size.clone(),
        fstype: copy_opt(&d.fstype),
        label: copy_opt(&d.label),
        uuid: copy_opt(&d.uuid),
        mountpoint: copy_opt(&d.mountpoint),
        is_efi: d.is_efi,
        contents: copy_opt(&d.contents),
    }
}

fn copy_opt(o: &Option<String>) -> (r: Option<String>)
    ensures
        r == *o,
{
    match o {
        Some(s) => Some(s.clone()),
        None => None,
    }
}

fn copy_opt_disk(o: &Option<DiskInfo>) -> (r: Option<DiskInfo>)
    ensures
        disk_opt_view(r) == disk_opt_view(*o),
{
    match o {
        Some(d) => Some(copy_disk(d)),
        None => None,
    }
}

/// A copy of a disk list.
pub fn copy_disks(v: &Vec<DiskInfo>) -> (r: Vec<DiskInfo>)
    ensures
        disk_views(r@) == disk_views(v@),
{
    let mut r: Vec<DiskInfo> = Vec::new();
    let mut i: usize = 0;
    while i < v.len()
        invariant
            i <= v.len(),
            disk_views(r@) =~= disk_views(v@).take(i as int),
        decreases v.len() - i,
    {
        let ghost before = r@;
        r.push(copy_disk(&v[i]));
        proof {
            assert(disk_views(r@) =~= disk_views(before).push(v@[i as int]@));
            assert(disk_views(v@).take(i + 1) =~= disk_views(v@).take(i as int).push(v@[i as int]@));
        }
        i = i + 1;
    }
    assert(disk_views(v@).take(v.len() as int) =~= disk_views(v@));
    r
}

/// The EFI system partitions among `v`, in order.
pub fn efi_disks_of(v: &Vec<DiskInfo>) -> (r: Vec<DiskInfo>)
    ensures
        disk_views(r@) == efi_disks(disk_views(v@)),
{
    let mut r: Vec<DiskInfo> = Vec::new();
    let mut i: usize = 0;
    proof {
        assert(disk_views(v@).take(0) =~= Seq::<DiskView>::empty());
        assert(disk_views(r@) =~= Seq::<DiskView>::empty());
    }
    while i < v.len()
        invariant
            i <= v.len(),
            disk_views(r@) == efi_disks(disk_views(v@).take(i as int)),
        decreases v.len() - i,
    {
        proof {
            let t = disk_views(v@).take(i + 1);
            assert(t.drop_last() =~= disk_views(v@).take(i as int));
            assert(t.last() == v@[i as int]@);
        }
        if v[i].is_efi {
            let ghost before = r@;
            r.push(copy_disk(&v[i]));
            proof {
                assert(disk_views(r@) =~= disk_views(before).push(v@[i as int]@));
            }
        }
        i = i + 1;
    }
    assert(disk_views(v@).take(v.len() as int) =~= disk_views(v@));
    r
}

/// A message that the job sends while it runs.
pub enum LogEvent {
    /// A line arrived.
    Line(LogLine),
    /// Nothing is pending yet; the job is still running.
    Empty,
    /// The job is gone.
    Disconnected,
}

/// What to do with the channel after a message.
#[derive(Clone, Copy, Debug, PartialEq, Eq, Structural)]
pub enum DrainControl {
    /// Read the next message now.
    Continue,
    /// Stop for this frame and keep listening.
    KeepReceiver,
    /// Stop and stop listening: the job has ended.
    DropReceiver,
}

/// The state after a message of the running job.
pub open spec fn spec_log_event(s: AppView, ev: LogEvent) -> AppView {
    match ev {
        LogEvent::Line(l) => match l.kind {
            LogKind::DiagnosisResult(summary, rec) => AppView {
                diagnosis_summary: string_views(summary@),
                recommended_action: rec,
                ..s
            },
            LogKind::Done => AppView { exec_done: true, ..s },
            LogKind::Step => AppView {
                exec_step: (s.exec_step + 1) as usize,
                log_lines: s.log_lines.push(l@),
                ..s
            },
            _ => AppView { log_lines: s.log_lines.push(l@), ..s },
        },
        LogEvent::Empty => s,
        LogEvent::Disconnected => AppView {
            log_lines: s.log_lines.push(
                LogLineView {
                    kind: LogKindView::Error,
                    text: "repair thread crashed before completion"@,
                },
            ),
            exec_done: true,
            ..s
        },
    }
}

pub open spec fn spec_drain_control(ev: LogEvent) -> DrainControl {
    match ev {
        LogEvent::Line(l) => match l.kind {
            LogKind::Done => DrainControl::DropReceiver,
            _ => DrainControl::Continue,
        },
        LogEvent::Empty => DrainControl::KeepReceiver,
        LogEvent::Disconnected => DrainControl::DropReceiver,
    }
}

impl App {
    /// The state at start-up, given the firmware kind and the network address found.
    pub fn new(is_uefi: bool, network_info: Option<String>) -> (r: Self)
        ensures
            r@ == initial_view(is_uefi, opt_view(network_info)),
    {
        let first = first_action_index();
        let mut table_state = table_state_new();
        table_select(&mut table_state, Some(0));
        let r = App {
            current_screen: CurrentScreen::Welcome,
            should_quit: false,
            is_uefi,
            detected_distro: None,
            confirm_focus: ConfirmFocus::Confirm,
            network_info,
            disks: Vec::new(),
            selected_root: None,
            selected_efi: None,
            scan_state: ScanState::Scanning,
            table_state,
            action_cursor: first,
            selected_action: None,
            diagnosis_summary: Vec::new(),
            recommended_action: None,
            log_lines: Vec::new(),
            exec_step: 0,
            exec_total: 7,
            exec_done: false,
            result_cursor: 0,
            export_cursor: 0,
        };
        proof {
            assert(disk_views(r.disks@) =~= Seq::<DiskView>::empty());
            assert(string_views(r.diagnosis_summary@) =~= Seq::<Seq<char>>::empty());
            assert(log_views(r.log_lines@) =~= Seq::<LogLineView>::empty());
        }
        r
    }

    /// Moves the partition selection down, wrapping to the top.
    pub fn select_next(&mut self)
        ensures
            final(self)@ == spec_select_next(old(self)@),
    {
        if self.disks.len() == 0 {
            return;
        }
        let i = match table_selected(&self.table_state) {
            Some(i) => if i >= self.disks.len() - 1 {
                0
            } else {
                i + 1
            },
            None => 0,
        };
        table_select(&mut self.table_state, Some(i));
    }

    /// Moves the partition selection up, wrapping to the bottom.
    pub fn select_previous(&mut self)
        ensures
            final(self)@ == spec_select_previous(old(self)@),
    {
        if self.disks.len() == 0 {
            return;
        }
        let i = match table_selected(&self.table_state) {
            Some(i) => if i == 0 {
                self.disks.len() - 1
            } else {
                i - 1
            },
            None => 0,
        };
        table_select(&mut self.table_state, Some(i));
    }

    /// Moves the focus between the two buttons of the confirm screen.
    pub fn toggle_confirm_buttons(&mut self)
        ensures
            final(self)@ == (AppView { confirm_focus: toggled(old(self)@.confirm_focus), ..old(self)@ }),
    {
        self.confirm_focus = match self.confirm_focus {
            ConfirmFocus::Confirm => ConfirmFocus::Back,
            ConfirmFocus::Back => ConfirmFocus::Confirm,
        };
    }

    /// Moves the action cursor down to the next action, skipping section
    /// headers and wrapping to the first action.
    pub fn action_next(&mut self)
        requires
            old(self).action_cursor < usize::MAX,
        ensures
            final(self)@ == (AppView { action_cursor: spec_action_next(old(self).action_cursor), ..old(self)@ }),
    {
        let start = self.action_cursor + 1;
        let mut c = start;
        while c < ACTION_ITEMS_LEN
            invariant
                start <= c,
                start == old(self).action_cursor + 1,
                self@ == old(self)@,
                self.action_cursor == old(self).action_cursor,
                next_action_from(start as int) == next_action_from(c as int),
            decreases ACTION_ITEMS_LEN - c,
        {
            if action_item(c).is_some() {
                self.action_cursor = c;
                return;
            }
            c = c + 1;
        }
        self.action_cursor = first_action_index();
    }

    /// Moves the action cursor up to the previous action, skipping section
    /// headers; at the first action it stays.
    pub fn action_prev(&mut self)
        requires
            old(self).action_cursor <= ACTION_ITEMS_LEN,
        ensures
            final(self)@ == (AppView { action_cursor: spec_action_prev(old(self).action_cursor), ..old(self)@ }),
    {
        if self.action_cursor == 0 {
            return;
        }
        let start = self.action_cursor - 1;
        let mut c = start;
        while c > 0 && action_item(c).is_none()
            invariant
                c <= start < ACTION_ITEMS_LEN,
                prev_action_from(start as int) == prev_action_from(c as int),
            decreases c,
        {
            c = c - 1;
        }
        if action_item(c).is_some() {
            self.action_cursor = c;
        } else {
            assert(prev_action_from(-1) is None);
        }
    }

    /// The distribution to show before the root is mounted.
    pub fn heuristic_distro(&self) -> (r: String)
        ensures
            r@ == spec_heuristic_distro(self@),
            self.detected_distro is None ==> match self@.selected_root {
                Some(root) => {
                    let label = match root.label {
                        Some(l) => l,
                        None => Seq::empty(),
                    };
                    is_ascii_text(label) && is_ascii_text(root.name) ==> r@ == distro_guess(
                        ascii_lowered(label),
                        ascii_lowered(root.name),
                    )
                },
                None => r@ == "Unknown Linux"@,
            },
    {
        match &self.detected_distro {
            Some(d) => {
                return d.clone();
            },
            None => {},
        }
        match &self.selected_root {
            Some(root) => {
                let label = match &root.label {
                    Some(l) => to_lowercase(l.as_str()),
                    None => to_lowercase(""),
                };
                proof {
                    assert(""@ =~= Seq::<char>::empty()) by {
                        reveal_strlit("");
                    }
                }
                let name = to_lowercase(root.name.as_str());
                let lv = chars_of(label.as_str());
                let nv = chars_of(name.as_str());
                guess_distro(&lv, &nv)
            },
            None => String::from_str("Unknown Linux"),
        }
    }

    /// Whether the disk scan has still to be polled.
    pub fn is_scanning(&self) -> (r: bool)
        ensures
            r == (self.scan_state == ScanState::Scanning),
    {
        self.scan_state == ScanState::Scanning
    }

    /// Takes the result of the background disk scan, if it arrived while the
    /// scan was still pending.
    pub fn check_scan(&mut self, received: Option<Vec<DiskInfo>>)
        ensures
            old(self).scan_state != ScanState::Scanning || received is None ==> final(self)@
                == old(self)@,
            old(self).scan_state == ScanState::Scanning && received is Some ==> final(self)@
                == (AppView {
                disks: disk_views(received->0@),
                scan_state: ScanState::Done,
                ..old(self)@
            }),
    {
        if self.scan_state != ScanState::Scanning {
            return;
        }
        match received {
            Some(disks) => {
                self.disks = disks;
                self.scan_state = ScanState::Done;
            },
            None => {},
        }
    }

    /// Applies one message of the running job to the log and says whether to
    /// keep reading.
    pub fn on_log_event(&mut self, ev: LogEvent) -> (r: DrainControl)
        requires
            ev matches LogEvent::Line(l) && l.kind is Step ==> old(self).exec_step < usize::MAX,
        ensures
            final(self)@ == spec_log_event(old(self)@, ev),
            r == spec_drain_control(ev),
    {
        match ev {
            LogEvent::Line(line) => {
                match line.kind {
                    LogKind::DiagnosisResult(summary, rec) => {
                        self.diagnosis_summary = summary;
                        self.recommended_action = rec;
                        DrainControl::Continue
                    },
                    LogKind::Done => {
                        self.exec_done = true;
                        DrainControl::DropReceiver
                    },
                    LogKind::Step => {
                        self.exec_step = self.exec_step + 1;
                        let ghost before = self.log_lines@;
                        self.log_lines.push(line);
                        proof {
                            assert(log_views(self.log_lines@) =~= log_views(before).push(line@));
                        }
                        DrainControl::Continue
                    },
                    _ => {
                        let ghost before = self.log_lines@;
                        self.log_lines.push(line);
                        proof {
                            assert(log_views(self.log_lines@) =~= log_views(before).push(line@));
                        }
                        DrainControl::Continue
                    },
                }
            },
            LogEvent::Empty => DrainControl::KeepReceiver,
            LogEvent::Disconnected => {
                // The job ended without saying so: it crashed.
                let line = LogLine::error("repair thread crashed before completion");
                let ghost before = self.log_lines@;
                self.log_lines.push(line);
                proof {
                    assert(log_views(self.log_lines@) =~= log_views(before).push(line@));
                }
                self.exec_done = true;
                DrainControl::DropReceiver
            },
        }
    }

    fn reset_log(&mut self)
        ensures
            final(self)@ == (AppView {
                log_lines: Seq::empty(),
                exec_step: 0,
                exec_done: false,
                ..old(self)@
            }),
    {
        self.log_lines = Vec::new();
        self.exec_step = 0;
        self.exec_done = false;
        assert(log_views(self.log_lines@) =~= Seq::<LogLineView>::empty());
    }

    /// Starts a diagnosis of the selected root: returns what the job needs,
    /// or `None` (and changes nothing) when no root is selected.
    pub fn start_diagnosis(&mut self) -> (r: Option<DiagnosisJob>)
        ensures
            final(self)@ == spec_start_diagnosis(old(self)@),
            r is Some == old(self).selected_root is Some,
            r matches Some(j) ==> diagnosis_job_of(j, old(self)@),
    {
        let root = match &self.selected_root {
            Some(d) => copy_disk(d),
            None => {
                return None;
            },
        };
        let efi = copy_opt_disk(&self.selected_efi);
        let is_uefi = self.is_uefi;
        let disks = copy_disks(&self.disks);
        self.reset_log();
        self.exec_total = 4;
        self.current_screen = CurrentScreen::DiagnoseLog;
        Some(DiagnosisJob { root, efi, is_uefi, disks })
    }

    /// Starts the selected repair: returns what the job needs, or `None` (and
    /// changes nothing) when no action or no root is selected.
    pub fn start_repair(&mut self) -> (r: Option<RepairJob>)
        ensures
            final(self)@ == spec_start_repair(old(self)@),
            r is Some == (old(self).selected_action is Some && old(self).selected_root is Some),
            r matches Some(j) ==> repair_job_of(j, old(self)@),
    {
        let action = match self.selected_action {
            Some(a) => a,
            None => {
                return None;
            },
        };
        let root = match &self.selected_root {
            Some(d) => copy_disk(d),
            None => {
                return None;
            },
        };
        let efi = copy_opt_disk(&self.selected_efi);
        let is_uefi = self.is_uefi;
        self.reset_log();
        self.exec_total = match action {
            Action::FixGrubAndFstab => 9,
            Action::FixFstab => 5,
            _ => 7,
        };
        self.current_screen = CurrentScreen::ExecLog;
        Some(RepairJob { action, root, efi, is_uefi })
    }

    fn quit(&mut self)
        ensures
            final(self)@ == with_quit(old(self)@),
    {
        self.should_quit = true;
    }

    /// Handles a key press on the current screen.
    pub fn handle_input(&mut self, key: Key) -> (r: InputEffect)
        requires
            old(self).current_screen == CurrentScreen::ActionMenu ==> menu_key_ok(
                old(self).action_cursor,
                key,
            ),
        ensures
            final(self)@ == spec_handle_input(old(self)@, key),
            effect_kind(r) == spec_input_effect(old(self)@, key),
            r matches InputEffect::StartDiagnosis(j) ==> diagnosis_job_of(j, old(self)@),
            r matches InputEffect::StartRepair(j) ==> repair_job_of(
                j,
                AppView { selected_action: action_items()[old(self).action_cursor as int], ..old(self)@ },
            ),
    {
        let q = key == Key::Char('q');
        match self.current_screen {
            CurrentScreen::Welcome => {
                if key == Key::Enter {
                    self.current_screen = CurrentScreen::SelectRoot;
                    table_select(&mut self.table_state, Some(0));
                } else if q {
                    self.quit();
                }
                InputEffect::Nothing
            },
            CurrentScreen::SelectRoot => {
                if key == Key::Up {
                    self.select_previous();
                } else if key == Key::Down {
                    self.select_next();
                } else if key == Key::Enter {
                    match table_selected(&self.table_state) {
                        Some(i) => {
                            if i < self.disks.len() {
                                self.selected_root = Some(copy_disk(&self.disks[i]));
                                self.current_screen = CurrentScreen::SelectEfi;
                                table_select(&mut self.table_state, Some(0));
                            }
                        },
                        None => {},
                    }
                } else if q {
                    self.quit();
                }
                InputEffect::Nothing
            },
            CurrentScreen::SelectEfi => {
                let efi = efi_disks_of(&self.disks);
                let n = efi.len();
                if key == Key::Up && n > 0 {
                    let i = match table_selected(&self.table_state) {
                        Some(i) => if i == 0 {
                            n - 1
                        } else {
                            i - 1
                        },
                        None => 0,
                    };
                    table_select(&mut self.table_state, Some(i));
                } else if key == Key::Down && n > 0 {
                    let i = match table_selected(&self.table_state) {
                        Some(i) => if i >= n - 1 {
                            0
                        } else {
                            i + 1
                        },
                        None => 0,
                    };
                    table_select(&mut self.table_state, Some(i));
                } else if key == Key::Enter && n == 0 {
                    // With no EFI system partition the screen offers to go on without one.
                    table_select(&mut self.table_state, Some(0));
                    self.current_screen = CurrentScreen::Confirm;
                } else if key == Key::Enter {
                    match table_selected(&self.table_state) {
                        Some(i) => {
                            if i < n {
                                self.selected_efi = Some(copy_disk(&efi[i]));
                                table_select(&mut self.table_state, Some(0));
                                self.current_screen = CurrentScreen::Confirm;
                            }
                        },
                        None => {},
                    }
                } else if key == Key::Esc {
                    table_select(&mut self.table_state, Some(0));
                    self.current_screen = CurrentScreen::SelectRoot;
                } else if q {
                    self.quit();
                }
                InputEffect::Nothing
            },
            CurrentScreen::Confirm => {
                if key == Key::Left || key == Key::Right || key == Key::Tab {
                    self.toggle_confirm_buttons();
                    InputEffect::Nothing
                } else if key == Key::Enter {
                    match self.confirm_focus {
                        ConfirmFocus::Confirm => match self.start_diagnosis() {
                            Some(job) => InputEffect::StartDiagnosis(job),
                            None => InputEffect::Nothing,
                        },
                        ConfirmFocus::Back => {
                            table_select(&mut self.table_state, Some(0));
                            self.current_screen = CurrentScreen::SelectEfi;
                            InputEffect::Nothing
                        },
                    }
                } else if key == Key::Esc {
                    table_select(&mut self.table_state, Some(0));
                    self.current_screen = CurrentScreen::SelectEfi;
                    InputEffect::Nothing
                } else {
                    if q {
                        self.quit();
                    }
                    InputEffect::Nothing
                }
            },
            CurrentScreen::ActionMenu => {
                if key == Key::Up {
                    self.action_prev();
                    InputEffect::Nothing
                } else if key == Key::Down {
                    self.action_next();
                    InputEffect::Nothing
                } else if key == Key::Enter {
                    match action_item(self.action_cursor) {
                        Some(action) => {
                            if action.is_available() {
                                self.selected_action = Some(action);
                                match self.start_repair() {
                                    Some(job) => InputEffect::StartRepair(job),
                                    None => InputEffect::Nothing,
                                }
                            } else {
                                InputEffect::Nothing
                            }
                        },
                        None => InputEffect::Nothing,
                    }
                } else if key == Key::Esc {
                    self.current_screen = CurrentScreen::Confirm;
                    InputEffect::Nothing
                } else {
                    if q {
                        self.quit();
                    }
                    InputEffect::Nothing
                }
            },
            CurrentScreen::DiagnoseLog => {
                if key == Key::Enter && self.exec_done {
                    self.action_cursor = first_action_index();
                    self.current_screen = CurrentScreen::ActionMenu;
                } else if q {
                    self.quit();
                }
                InputEffect::Nothing
            },
            CurrentScreen::ExecLog => {
                if key == Key::Enter && self.exec_done {
                    self.result_cursor = 0;
                    self.current_screen = CurrentScreen::Result;
                } else if q {
                    self.quit();
                }
                InputEffect::Nothing
            },
            CurrentScreen::Result => {
                if key == Key::Left && self.result_cursor > 0 {
                    self.result_cursor = self.result_cursor - 1;
                    InputEffect::Nothing
                } else if key == Key::Right && self.result_cursor < 3 {
                    self.result_cursor = self.result_cursor + 1;
                    InputEffect::Nothing
                } else if key == Key::Enter {
                    if self.result_cursor == 0 {
                        self.current_screen = CurrentScreen::ActionMenu;
                        InputEffect::Nothing
                    } else if self.result_cursor == 1 {
                        self.quit();
                        InputEffect::Reboot
                    } else if self.result_cursor == 2 {
                        self.quit();
                        InputEffect::Poweroff
                    } else if self.result_cursor == 3 {
                        self.current_screen = CurrentScreen::LogExport;
                        InputEffect::Nothing
                    } else {
                        InputEffect::Nothing
                    }
                } else {
                    if q {
                        self.quit();
                    }
                    InputEffect::Nothing
                }
            },
            CurrentScreen::LogExport => {
                if key == Key::Enter || key == Key::Esc {
                    self.current_screen = CurrentScreen::Result;
                } else if q {
                    self.quit();
                }
                InputEffect::Nothing
            },
        }
    }

    /// Handles a key press: `p` powers off and `r` reboots from any screen;
    /// every other key goes to the current screen.
    pub fn handle_key(&mut self, key: Key) -> (r: InputEffect)
        requires
            old(self).current_screen == CurrentScreen::ActionMenu ==> menu_key_ok(
                old(self).action_cursor,
                key,
            ),
        ensures
            key == Key::Char('p') ==> final(self)@ == with_quit(old(self)@) && r is Poweroff,
            key == Key::Char('r') ==> final(self)@ == with_quit(old(self)@) && r is Reboot,
            key != Key::Char('p') && key != Key::Char('r') ==> final(self)@ == spec_handle_input(
                old(self)@,
                key,
            ) && effect_kind(r) == spec_input_effect(old(self)@, key),
            r matches InputEffect::StartDiagnosis(j) ==> diagnosis_job_of(j, old(self)@),
            r matches InputEffect::StartRepair(j) ==> repair_job_of(
                j,
                AppView { selected_action: action_items()[old(self).action_cursor as int], ..old(self)@ },
            ),
    {
        if key == Key::Char('p') {
            self.quit();
            InputEffect::Poweroff
        } else if key == Key::Char('r') {
            self.quit();
            InputEffect::Reboot
        } else {
            self.handle_input(key)
        }
    }
}

} // verus!
