//! Properties that hold of the library as a whole: of sequences of calls,
//! and of every state the interface and the jobs can be in.
use vstd::prelude::*;
use crate::app::{
    action_items, first_action, next_action_from, prev_action_from, spec_action_next, spec_action_prev,
    spec_drain_control, spec_heuristic_distro, spec_is_available, spec_log_event, spec_select_next,
    spec_select_previous, toggled, Action, AppView, ConfirmFocus, DrainControl, LogEvent, LogLineView,
    ACTION_ITEMS_LEN,
};
use crate::blkdev::{
    disk_of, entries_of, sysfs_disk, DiskInfo,
    add_entries, add_sysfs_entries, add_unseen, entry_names, is_virtual_device, proc_entry,
    proc_scan, scan_devices, spec_get_disks, spec_is_esp, spec_proc_partitions, BlockDevice,
    DiskView, SysfsEntry,
};
use crate::init::{init_next, init_phase_wf, init_reply_fits, InitOpView, InitPhase, InitReply};
use crate::mounts::{by_len_from, max_len, of_len, spec_unmount_order, submounts_of};
use crate::distros::Distro;
use crate::fstab::{declares_swap, swap_issues, IssueView, LiveView};
use crate::grub::{
    baseline_config, grub_next, has_setting, is_blank, lead_from, setting_at, phase_reply_fits, prober_appendix, prober_off, prober_on,
    spec_prober_enabled_content, BootType, GrubPhase, GrubStepView,
};
use crate::host::{Reply, RequestView, OpView};
use crate::repair::{
    diagnosis_transition, done_line, ok_line, recommendation, repair_reply_fits, repair_transition,
    repair_wf, result_line, unmount_all_step, DiagnosisPhase, DiagnosisRun, RepairPhase, RepairRun,
};
use crate::text::{ascii_lower, fields, has_prefix, has_sub, lines, occurs_at, replace_all};

verus! {

// ─── Action menu ─────────────────────────────────────────────────────────────
proof fn lemma_next_action_from(c: int)
    ensures
        match next_action_from(c) {
            Some(k) => c <= k < 11 && action_items()[k] is Some,
            None => true,
        },
    decreases 11 - c,
{
    if 0 <= c < 11 && action_items()[c] is None {
        lemma_next_action_from(c + 1);
    }
}

proof fn lemma_prev_action_from(c: int)
    ensures
        match prev_action_from(c) {
            Some(k) => 0 <= k <= c && k < 11 && action_items()[k] is Some,
            None => true,
        },
    decreases c + 1,
{
    if c >= 0 && !(c < 11 && action_items()[c] is Some) {
        lemma_prev_action_from(c - 1);
    }
}

/// Moving the action cursor down always lands on an action, never on a
/// section header.
pub proof fn law_action_next_lands_on_action(c: usize)
    requires
        c < usize::MAX,
    ensures
        spec_action_next(c) < ACTION_ITEMS_LEN,
        action_items()[spec_action_next(c) as int] is Some,
{
    lemma_next_action_from(c + 1);
}

/// Moving the action cursor up from an action lands on an action; at the
/// first action it stays there.
pub proof fn law_action_prev_lands_on_action(c: usize)
    requires
        c < ACTION_ITEMS_LEN,
        action_items()[c as int] is Some,
    ensures
        spec_action_prev(c) < ACTION_ITEMS_LEN,
        action_items()[spec_action_prev(c) as int] is Some,
        c == first_action() ==> spec_action_prev(c) == c,
{
    if c > 0 {
        lemma_prev_action_from(c - 1);
    }
    if c == first_action() {
        assert(action_items()[0] is None);
        assert(prev_action_from(-1) is None);
    }
}

/// The action cursor always stays on a row of the menu: it starts there and
/// no key press moves it off, so the menu can always be read at the cursor.
pub proof fn law_cursor_stays_on_menu(s: AppView, k: crate::app::Key)
    requires
        s.action_cursor < ACTION_ITEMS_LEN,
    ensures
        crate::app::initial_view(s.is_uefi, s.network_info).action_cursor < ACTION_ITEMS_LEN,
        crate::app::spec_handle_input(s, k).action_cursor < ACTION_ITEMS_LEN,
{
    if s.current_screen == crate::app::CurrentScreen::ActionMenu {
        if k == crate::app::Key::Down {
            law_action_next_lands_on_action(s.action_cursor);
        } else if k == crate::app::Key::Up && s.action_cursor > 0 {
            lemma_prev_action_from(s.action_cursor - 1);
        }
    }
}

/// Moving down from the last action wraps to the first action.
pub proof fn law_action_next_wraps()
    ensures
        spec_action_next((ACTION_ITEMS_LEN - 1) as usize) == first_action(),
{
}

// ─── Confirm screen and partition lists ──────────────────────────────────────
/// Toggling the confirm focus twice gives the focus back.
pub proof fn law_toggle_twice(f: ConfirmFocus)
    ensures
        toggled(toggled(f)) == f,
{
}

/// On an empty list, moving the selection does nothing.
pub proof fn law_empty_list_navigation_is_noop(s: AppView)
    requires
        s.disks.len() == 0,
    ensures
        spec_select_next(s) == s,
        spec_select_previous(s) == s,
{
}

/// On a non-empty list, moving down and then up returns to the row that was
/// selected, and the selection stays on a row.
pub proof fn law_select_next_then_previous(s: AppView)
    requires
        0 < s.disks.len() <= usize::MAX,
        s.selection matches Some(i) && i < s.disks.len(),
    ensures
        spec_select_next(s).selection matches Some(j) && j < s.disks.len(),
        spec_select_previous(spec_select_next(s)) == s,
{
    let i = s.selection->0;
    let n = spec_select_next(s);
    if i >= s.disks.len() - 1 {
        assert(n.selection == Some(0usize));
        assert(spec_select_previous(n).selection == Some(i));
    } else {
        assert(n.selection == Some((i + 1) as usize));
        assert(spec_select_previous(n).selection == Some(i));
    }
    assert(spec_select_previous(n) == s);
}

/// On a non-empty list, moving up and then down returns to the row that was
/// selected, and the selection stays on a row.
pub proof fn law_select_previous_then_next(s: AppView)
    requires
        0 < s.disks.len() <= usize::MAX,
        s.selection matches Some(i) && i < s.disks.len(),
    ensures
        spec_select_previous(s).selection matches Some(j) && j < s.disks.len(),
        spec_select_next(spec_select_previous(s)) == s,
{
    let i = s.selection->0;
    let p = spec_select_previous(s);
    if i == 0 {
        assert(p.selection == Some((s.disks.len() - 1) as usize));
        assert(spec_select_next(p).selection == Some(i));
    } else {
        assert(p.selection == Some((i - 1) as usize));
        assert(spec_select_next(p).selection == Some(i));
    }
    assert(spec_select_next(p) == s);
}

/// A distribution that was detected wins over any guess from the partition.
pub proof fn law_detected_distro_first(s: AppView)
    requires
        s.detected_distro is Some,
    ensures
        spec_heuristic_distro(s) == s.detected_distro->0,
{
}

// ─── Progress log ────────────────────────────────────────────────────────────
/// The number of step headers in a log.
pub open spec fn count_steps(ls: Seq<LogLineView>) -> nat
    decreases ls.len(),
{
    if ls.len() == 0 {
        0
    } else {
        count_steps(ls.drop_last()) + if ls.last().kind is Step {
            1nat
        } else {
            0nat
        }
    }
}

/// The step counter counts the step headers of the log: each message keeps
/// the two equal.
pub proof fn law_exec_step_counts_steps(s: AppView, ev: LogEvent)
    requires
        s.exec_step == count_steps(s.log_lines),
        ev matches LogEvent::Line(l) && l.kind is Step ==> s.exec_step < usize::MAX,
    ensures
        spec_log_event(s, ev).exec_step == count_steps(spec_log_event(s, ev).log_lines),
{
    let t = spec_log_event(s, ev);
    if t.log_lines.len() > s.log_lines.len() {
        assert(t.log_lines.drop_last() =~= s.log_lines);
    }
}

/// The job's end, by a `Done` message or by the job vanishing, always marks
/// the log finished and stops listening, so the interface cannot wait forever.
pub proof fn law_job_end_is_final(s: AppView, ev: LogEvent)
    requires
        spec_drain_control(ev) == DrainControl::DropReceiver,
    ensures
        spec_log_event(s, ev).exec_done,
{
}

// ─── Disk listing ────────────────────────────────────────────────────────────
pub open spec fn names_of(ds: Seq<DiskView>) -> Seq<Seq<char>> {
    ds.map_values(|d: DiskView| d.name)
}

pub open spec fn listing_ok(st: (Seq<DiskView>, Seq<Seq<char>>)) -> bool {
    st.1 == names_of(st.0) && st.1.no_duplicates()
}

proof fn lemma_add_unseen(st: (Seq<DiskView>, Seq<Seq<char>>), d: DiskView)
    requires
        listing_ok(st),
    ensures
        listing_ok(add_unseen(st, d)),
{
    if !st.1.contains(d.name) {
        assert(names_of(st.0.push(d)) =~= st.1.push(d.name));
        let n = st.1.push(d.name);
        assert forall|i: int, j: int| 0 <= i < n.len() && 0 <= j < n.len() && i != j implies n[i]
            != n[j] by {
            if i == st.1.len() {
                assert(st.1.contains(n[j]));
            } else if j == st.1.len() {
                assert(st.1.contains(n[i]));
            }
        }
    }
}

proof fn lemma_add_entries(st: (Seq<DiskView>, Seq<Seq<char>>), es: Seq<BlockDevice>)
    requires
        listing_ok(st),
    ensures
        listing_ok(add_entries(st, es)),
    decreases es.len(),
{
    if es.len() > 0 {
        lemma_add_entries(st, es.drop_last());
        lemma_add_unseen(add_entries(st, es.drop_last()), crate::blkdev::disk_of(es.last()));
    }
}

proof fn lemma_scan_devices(devs: Seq<BlockDevice>)
    ensures
        listing_ok(scan_devices(devs)),
    decreases devs.len(),
{
    if devs.len() == 0 {
        assert(names_of(Seq::<DiskView>::empty()) =~= Seq::<Seq<char>>::empty());
    } else {
        lemma_scan_devices(devs.drop_last());
        lemma_add_entries(scan_devices(devs.drop_last()), crate::blkdev::entries_of(devs.last()));
    }
}

proof fn lemma_add_sysfs(st: (Seq<DiskView>, Seq<Seq<char>>), es: Seq<SysfsEntry>)
    requires
        listing_ok(st),
    ensures
        listing_ok(add_sysfs_entries(st, es)),
    decreases es.len(),
{
    if es.len() > 0 {
        lemma_add_sysfs(st, es.drop_last());
        lemma_add_unseen(add_sysfs_entries(st, es.drop_last()), crate::blkdev::sysfs_disk(es.last()));
    }
}

/// Each device is offered once: the names of the listed disks are distinct,
/// however often lsblk and `/sys/block` name a device.
pub proof fn law_disks_listed_once(lsblk: Option<Seq<BlockDevice>>, sysfs: Seq<SysfsEntry>)
    ensures
        names_of(spec_get_disks(lsblk, sysfs)).no_duplicates(),
{
    match lsblk {
        None => {
            assert(names_of(Seq::<DiskView>::empty()) =~= Seq::<Seq<char>>::empty());
        },
        Some(devs) => {
            lemma_scan_devices(devs);
            lemma_add_sysfs(scan_devices(devs), sysfs);
        },
    }
}

/// `d` is the disk of one of the lsblk entries of `devs`.
pub open spec fn from_lsblk(d: DiskView, devs: Seq<BlockDevice>) -> bool {
    exists|i: int, j: int|
        0 <= i < devs.len() && 0 <= j < entries_of(devs[i]).len() && d == #[trigger] disk_of(
            entries_of(devs[i])[j],
        )
}

/// `d` is the disk of one of the `/sys/block` entries of `sysfs` that is
/// not a loop, RAM or device-mapper device.
pub open spec fn from_sysfs(d: DiskView, sysfs: Seq<SysfsEntry>) -> bool {
    exists|i: int|
        0 <= i < sysfs.len() && !is_virtual_device(sysfs[i].name@) && d == #[trigger] sysfs_disk(
            sysfs[i],
        )
}

/// Where a listed disk comes from, and what its contents line says.
pub open spec fn disk_origin_ok(d: DiskView, lsblk: Option<Seq<BlockDevice>>, sysfs: Seq<SysfsEntry>) -> bool {
    &&& (lsblk matches Some(devs) && from_lsblk(d, devs)) || from_sysfs(d, sysfs)
    &&& d.is_efi ==> d.contents == Some("Scanning..."@)
    &&& !d.is_efi ==> d.contents is None
}

proof fn lemma_add_entries_origin(st: (Seq<DiskView>, Seq<Seq<char>>), es: Seq<BlockDevice>, all: Seq<BlockDevice>, i: int)
    requires
        0 <= i < all.len(),
        es == entries_of(all[i]).take(es.len() as int),
        es.len() <= entries_of(all[i]).len(),
        forall|k: int| 0 <= k < st.0.len() ==> from_lsblk(#[trigger] st.0[k], all),
    ensures
        forall|k: int| 0 <= k < add_entries(st, es).0.len() ==> from_lsblk(#[trigger] add_entries(st, es).0[k], all),
    decreases es.len(),
{
    if es.len() > 0 {
        let es2 = es.drop_last();
        assert(es2 =~= entries_of(all[i]).take(es2.len() as int));
        lemma_add_entries_origin(st, es2, all, i);
        let prev = add_entries(st, es2);
        let j = es.len() - 1;
        assert(es.last() == entries_of(all[i])[j]);
        assert(from_lsblk(disk_of(entries_of(all[i])[j]), all));
        let r = add_unseen(prev, disk_of(es.last()));
        assert forall|k: int| 0 <= k < r.0.len() implies from_lsblk(#[trigger] r.0[k], all) by {
            if k < prev.0.len() {
                assert(r.0[k] == prev.0[k]);
            }
        }
    }
}

proof fn lemma_scan_origin(devs: Seq<BlockDevice>, all: Seq<BlockDevice>)
    requires
        devs.len() <= all.len(),
        devs == all.take(devs.len() as int),
    ensures
        forall|k: int| 0 <= k < scan_devices(devs).0.len() ==> from_lsblk(#[trigger] scan_devices(devs).0[k], all),
    decreases devs.len(),
{
    if devs.len() > 0 {
        let d2 = devs.drop_last();
        assert(d2 =~= all.take(d2.len() as int));
        lemma_scan_origin(d2, all);
        let i = devs.len() - 1;
        assert(devs.last() == all[i]);
        let es = entries_of(all[i]);
        assert(es == es.take(es.len() as int));
        lemma_add_entries_origin(scan_devices(d2), es, all, i);
    }
}

proof fn lemma_sysfs_origin(
    st: (Seq<DiskView>, Seq<Seq<char>>),
    es: Seq<SysfsEntry>,
    lsblk: Option<Seq<BlockDevice>>,
    all: Seq<SysfsEntry>,
)
    requires
        es.len() <= all.len(),
        es == all.take(es.len() as int),
        forall|k: int| 0 <= k < st.0.len() ==> disk_origin_ok(#[trigger] st.0[k], lsblk, all),
    ensures
        forall|k: int|
            0 <= k < add_sysfs_entries(st, es).0.len() ==> disk_origin_ok(
                #[trigger] add_sysfs_entries(st, es).0[k],
                lsblk,
                all,
            ),
    decreases es.len(),
{
    if es.len() > 0 {
        let e2 = es.drop_last();
        assert(e2 =~= all.take(e2.len() as int));
        lemma_sysfs_origin(st, e2, lsblk, all);
        let prev = add_sysfs_entries(st, e2);
        let i = es.len() - 1;
        assert(es.last() == all[i]);
        if !is_virtual_device(es.last().name@) {
            assert(from_sysfs(sysfs_disk(all[i]), all));
            let r = add_unseen(prev, sysfs_disk(es.last()));
            assert forall|k: int| 0 <= k < r.0.len() implies disk_origin_ok(#[trigger] r.0[k], lsblk, all) by {
                if k < prev.0.len() {
                    assert(r.0[k] == prev.0[k]);
                }
            }
        }
    }
}

/// Every listed disk is the disk of an lsblk entry or of a `/sys/block`
/// entry that is not a loop, RAM or device-mapper device; and its contents
/// line reads "Scanning..." exactly when it is marked an ESP.  (An lsblk
/// disk is marked an ESP when `is_esp` holds of its type and filesystem; a
/// `/sys/block` disk never is.)
pub proof fn law_disks_come_from_their_sources(lsblk: Option<Seq<BlockDevice>>, sysfs: Seq<SysfsEntry>)
    ensures
        forall|k: int|
            0 <= k < spec_get_disks(lsblk, sysfs).len() ==> disk_origin_ok(
                #[trigger] spec_get_disks(lsblk, sysfs)[k],
                lsblk,
                sysfs,
            ),
{
    match lsblk {
        None => {},
        Some(devs) => {
            assert(devs == devs.take(devs.len() as int));
            lemma_scan_origin(devs, devs);
            let st = scan_devices(devs);
            assert forall|k: int| 0 <= k < st.0.len() implies disk_origin_ok(#[trigger] st.0[k], lsblk, sysfs) by {
                let d = st.0[k];
                assert(from_lsblk(d, devs));
                let (i, j) = choose|i: int, j: int|
                    0 <= i < devs.len() && 0 <= j < entries_of(devs[i]).len() && d == #[trigger] disk_of(
                        entries_of(devs[i])[j],
                    );
            }
            assert(sysfs == sysfs.take(sysfs.len() as int));
            lemma_sysfs_origin(st, sysfs, lsblk, sysfs);
        },
    }
}

/// Whether a partition is an ESP does not depend on the ASCII case of its type.
pub proof fn law_esp_case_insensitive(t: Seq<char>, u: Seq<char>, f: Option<Seq<char>>)
    requires
        t.len() == u.len(),
        forall|i: int| 0 <= i < t.len() ==> ascii_lower(t[i]) == ascii_lower(u[i]),
    ensures
        spec_is_esp(Some(t), f) == spec_is_esp(Some(u), f),
{
}

// ─── fstab ───────────────────────────────────────────────────────────────────
/// When fstab declares a swap entry, no live swap partition is reported missing.
pub proof fn law_declared_swap_silences(live: Seq<LiveView>, ms: Seq<Seq<char>>)
    requires
        declares_swap(ms),
    ensures
        swap_issues(live, ms) == Seq::<IssueView>::empty(),
    decreases live.len(),
{
    if live.len() > 0 {
        law_declared_swap_silences(live.drop_last(), ms);
    }
}

// ─── os-prober ───────────────────────────────────────────────────────────────
/// `t` stands at `j` of `r` with only blanks before it back to `kk`, which
/// is the start of the text (when `k` is 0) or just after a newline, and is
/// followed by the end or by whitespace.
spec fn line_setting(r: Seq<char>, t: Seq<char>, j: int, kk: int, k: int) -> bool {
    &&& occurs_at(r, t, j)
    &&& 0 <= kk <= j
    &&& (k == 0 ==> kk == 0)
    &&& (k != 0 ==> kk > 0 && r[kk - 1] == '\n')
    &&& (forall|m: int| kk <= m < j ==> is_blank(#[trigger] r[m]))
    &&& (j + t.len() == r.len() || crate::text::is_ws(r[j + t.len()]))
}

proof fn lemma_replace_first_char(t: Seq<char>, from: Seq<char>, to: Seq<char>)
    requires
        from.len() > 0,
        t.len() > 0,
        t[0] != from[0],
    ensures
        replace_all(t, from, to).len() > 0,
        replace_all(t, from, to)[0] == t[0],
{
    if t.len() >= from.len() {
        assert(t.subrange(0, from.len() as int)[0] == t[0]);
    }
}

/// A setting of `from` at `i` of `s` (only blanks before it on its line,
/// followed by the end or whitespace) becomes a setting of `to` in the
/// replaced text.
proof fn lemma_replace_setting(s: Seq<char>, from: Seq<char>, to: Seq<char>, i: int, k: int)
    requires
        from.len() > 0,
        forall|q: int| 0 <= q < from.len() ==> from[q] != '\n',
        !crate::text::is_ws(from[0]),
        occurs_at(s, from, i),
        lead_from(s, k, i),
        i + from.len() == s.len() || crate::text::is_ws(s[i + from.len()]),
    ensures
        exists|j: int, kk: int| #[trigger] line_setting(replace_all(s, from, to), to, j, kk, k),
    decreases s.len(),
{
    let n = from.len() as int;
    let r = replace_all(s, from, to);
    let tl = to.len() as int;
    assert(!is_blank(from[0]));
    if s.subrange(0, n) == from {
        let rest = s.subrange(n, s.len() as int);
        let rr = replace_all(rest, from, to);
        assert(r == to + rr);
        assert(s[0] == from[0]);
        if i == 0 {
            if rest.len() > 0 {
                assert(rest[0] == s[n]);
                lemma_replace_first_char(rest, from, to);
                assert(r[tl] == rr[0]);
            }
            assert(r.subrange(0, tl) =~= to);
            assert(line_setting(r, to, 0, 0, k));
        } else {
            if k == 0 {
                assert(is_blank(s[0]));
                assert(false);
            }
            if k - 1 < n {
                assert(s[k - 1] == s.subrange(0, n)[k - 1]);
                assert(false);
            }
            let i2 = i - n;
            let k2 = k - n;
            assert(rest.subrange(i2, i2 + n) =~= s.subrange(i, i + n));
            assert(rest[k2 - 1] == s[k - 1]);
            assert forall|m: int| k2 <= m < i2 implies is_blank(#[trigger] rest[m]) by {
                assert(rest[m] == s[m + n]);
            }
            assert(lead_from(rest, k2, i2));
            if i2 + n < rest.len() {
                assert(rest[i2 + n] == s[i + n]);
            }
            lemma_replace_setting(rest, from, to, i2, k2);
            let (j2, kk2) = choose|j: int, kk: int| #[trigger] line_setting(rr, to, j, kk, k2);
            let j = tl + j2;
            let kk = tl + kk2;
            assert(r.subrange(j, j + tl) =~= rr.subrange(j2, j2 + tl));
            assert(r[kk - 1] == rr[kk2 - 1]);
            assert forall|m: int| kk <= m < j implies is_blank(#[trigger] r[m]) by {
                assert(r[m] == rr[m - tl]);
            }
            if j + tl < r.len() {
                assert(r[j + tl] == rr[j2 + tl]);
            }
            assert(line_setting(r, to, j, kk, k));
        }
    } else {
        if i == 0 {
            assert(s.subrange(0, n) =~= from);
        }
        let t = s.drop_first();
        let rt = replace_all(t, from, to);
        assert(r == seq![s[0]] + rt);
        let i2 = i - 1;
        let k2 = if k == 0 {
            0
        } else {
            k - 1
        };
        assert(t.subrange(i2, i2 + n) =~= s.subrange(i, i + n));
        if k == 0 {
            assert(is_blank(s[0]));
        }
        if k2 > 0 {
            assert(t[k2 - 1] == s[k - 1]);
        }
        assert forall|m: int| k2 <= m < i2 implies is_blank(#[trigger] t[m]) by {
            assert(t[m] == s[m + 1]);
        }
        assert(lead_from(t, k2, i2));
        if i2 + n < t.len() {
            assert(t[i2 + n] == s[i + n]);
        }
        lemma_replace_setting(t, from, to, i2, k2);
        let (j2, kk2) = choose|j: int, kk: int| #[trigger] line_setting(rt, to, j, kk, k2);
        let j = j2 + 1;
        let kk = if k == 0 {
            0
        } else {
            kk2 + 1
        };
        assert(r.subrange(j, j + tl) =~= rt.subrange(j2, j2 + tl));
        if k != 0 {
            if kk2 > 0 {
                assert(r[kk - 1] == rt[kk2 - 1]);
            } else {
                assert(r[0] == s[0]);
            }
        }
        assert forall|m: int| kk <= m < j implies is_blank(#[trigger] r[m]) by {
            if m == 0 {
                assert(r[0] == s[0]);
            } else {
                assert(r[m] == rt[m - 1]);
            }
        }
        if j + tl < r.len() {
            assert(r[j + tl] == rt[j2 + tl]);
        }
        assert(line_setting(r, to, j, kk, k));
    }
}

/// After the os-prober step, `/etc/default/grub` has a line (not commented
/// out) that enables os-prober, whatever it held before (or if it did not
/// exist).
pub proof fn law_os_prober_enabled(existing: Option<Seq<char>>)
    ensures
        has_setting(spec_prober_enabled_content(existing), prober_on()),
{
    reveal_strlit("GRUB_DISABLE_OS_PROBER=false");
    reveal_strlit("GRUB_DISABLE_OS_PROBER=true");
    match existing {
        None => {
            reveal_strlit(
                "# Generated programmatically by Fix-Automation rescue tool\nGRUB_TIMEOUT=5\nGRUB_DISTRIBUTOR=\"Linux\"\nGRUB_CMDLINE_LINUX_DEFAULT=\"quiet splash\"\nGRUB_DISABLE_OS_PROBER=false\n",
            );
            assert(baseline_config().subrange(141, 169) =~= prober_on());
            assert(lead_from(baseline_config(), 141, 141));
            assert(setting_at(baseline_config(), prober_on(), 141));
        },
        Some(c) => {
            if has_setting(c, prober_on()) {
            } else if has_setting(c, prober_off()) {
                let i = choose|i: int| setting_at(c, prober_off(), i);
                let k = choose|k: int| #[trigger] lead_from(c, k, i);
                lemma_replace_setting(c, prober_off(), prober_on(), i, k);
                let r = replace_all(c, prober_off(), prober_on());
                let (j, kk) = choose|j: int, kk: int| #[trigger] line_setting(r, prober_on(), j, kk, k);
                assert(lead_from(r, kk, j));
                assert(setting_at(r, prober_on(), j));
            } else {
                reveal_strlit(
                    "\n# Enabled programmatically by Fix-Automation rescue tool\nGRUB_DISABLE_OS_PROBER=false\n",
                );
                let r = c + prober_appendix();
                let k: int = c.len() as int + 58;
                assert(prober_appendix().subrange(58, 86) =~= prober_on());
                assert(r.subrange(k, k + 28) =~= prober_appendix().subrange(58, 86));
                assert(r[k - 1] == prober_appendix()[57]);
                assert(r[k + 28] == prober_appendix()[86]);
                assert(lead_from(r, k, k));
                assert(setting_at(r, prober_on(), k));
            }
        },
    }
}

/// A file that enables os-prober already is left as it is.
pub proof fn law_os_prober_enabled_is_kept(c: Seq<char>)
    requires
        has_setting(c, prober_on()),
    ensures
        spec_prober_enabled_content(Some(c)) == c,
{
}

// ─── GRUB repair ─────────────────────────────────────────────────────────────
/// A distribution that is not recognised gets no initramfs command: after
/// the presence check the GRUB repair goes straight to the installer rather
/// than guess a command that could damage the target.
pub proof fn law_unknown_distro_skips_initramfs(d: crate::distros::DetectedDistro, bt: BootType)
    requires
        d is Unknown,
    ensures
        d.spec_initramfs_cmd().len() == 0,
        grub_next(d, bt, GrubPhase::CheckMkconfig, Reply::Exists(true)).0 == GrubPhase::Install,
{
}

/// The installer runs only after both GRUB programs were found (and after
/// the initramfs rebuild succeeded, where there is one).
pub proof fn law_install_after_checks(d: crate::distros::DetectedDistro, bt: BootType, p: GrubPhase, r: Reply)
    requires
        phase_reply_fits(p, r),
        grub_next(d, bt, p, r).0 == GrubPhase::Install,
    ensures
        (p == GrubPhase::CheckMkconfig && r == Reply::Exists(true)) || (p == GrubPhase::Initramfs
            && r matches Reply::Status(Ok(true))),
{
}

/// The initramfs rebuild runs only after both GRUB programs were found.
pub proof fn law_initramfs_after_checks(d: crate::distros::DetectedDistro, bt: BootType, p: GrubPhase, r: Reply)
    requires
        phase_reply_fits(p, r),
        grub_next(d, bt, p, r).0 == GrubPhase::Initramfs,
    ensures
        p == GrubPhase::CheckMkconfig && r == Reply::Exists(true),
{
}

/// A failed step ends the GRUB repair with an error: a missing program, a
/// program that fails or cannot start, a file that cannot be read or written.
pub proof fn law_failure_ends_grub_repair(d: crate::distros::DetectedDistro, bt: BootType, p: GrubPhase, r: Reply)
    requires
        phase_reply_fits(p, r),
        p != GrubPhase::ProberExists,
        r matches Reply::Exists(false) || r matches Reply::Status(Ok(false)) || r matches Reply::Status(Err(_))
            || r matches Reply::Written(Err(_)) || r matches Reply::Content(Err(_)),
    ensures
        grub_next(d, bt, p, r).0 == GrubPhase::Finished,
        grub_next(d, bt, p, r).1 matches GrubStepView::Done(Err(_)),
{
}

pub open spec fn grub_rank(p: GrubPhase) -> nat {
    match p {
        GrubPhase::CheckInstall => 15,
        GrubPhase::CheckMkconfig => 14,
        GrubPhase::Initramfs => 13,
        GrubPhase::Install => 12,
        GrubPhase::ProberExists => 11,
        GrubPhase::ProberMkdir => 10,
        GrubPhase::ProberWrite => 9,
        GrubPhase::ProberRead => 8,
        GrubPhase::ProberEdit => 7,
        GrubPhase::Mkconfig => 6,
        GrubPhase::Hook => 5,
        GrubPhase::Finished => 0,
    }
}

/// Every step of the GRUB repair moves it forward: it ends after at most as
/// many steps as it has phases.
pub proof fn law_grub_repair_progresses(d: crate::distros::DetectedDistro, bt: BootType, p: GrubPhase, r: Reply)
    requires
        phase_reply_fits(p, r),
    ensures
        grub_rank(grub_next(d, bt, p, r).0) < grub_rank(p),
        grub_next(d, bt, p, r).1 is Done <==> grub_next(d, bt, p, r).0 == GrubPhase::Finished,
{
}

// ─── Jobs ────────────────────────────────────────────────────────────────────
pub open spec fn repair_rank(p: RepairPhase) -> nat {
    match p {
        RepairPhase::MountRoot => 100,
        RepairPhase::MountEfi => 99,
        RepairPhase::Bind => 98,
        RepairPhase::Detect => 97,
        RepairPhase::Grub(m) => 30 + grub_rank(m.phase),
        RepairPhase::FstabExists => 20,
        RepairPhase::FstabRead => 19,
        RepairPhase::Unmount => 2,
        RepairPhase::Finished => 0,
    }
}

/// Every step of a repair moves it forward, so the repair always ends.  It
/// ends only from the unmount step, with the `Done` line; and it enters that
/// step only by unmounting `/mnt`, whatever failed before.
pub proof fn law_repair_progresses_and_unmounts(
    before: RepairRun,
    reply: Reply,
    after: RepairRun,
    req: RequestView,
)
    requires
        repair_wf(before),
        repair_reply_fits(before.phase, reply),
        repair_transition(before, reply, after, req),
    ensures
        repair_rank(after.phase) < repair_rank(before.phase),
        after.phase is Finished ==> before.phase is Unmount && req.op == OpView::Finish && req.logs.last()
            == done_line(),
        after.phase is Unmount && !(before.phase is Unmount) ==> req.op == OpView::Umount("/mnt"@)
            && req.logs.last() == unmount_all_step(),
{
    match before.phase {
        RepairPhase::Grub(m) => {
            law_grub_repair_progresses(m.distro, m.boot_type, m.phase, reply);
        },
        _ => {},
    }
}

pub open spec fn diagnosis_rank(p: DiagnosisPhase) -> nat {
    match p {
        DiagnosisPhase::MountRoot => 7,
        DiagnosisPhase::Detect => 6,
        DiagnosisPhase::CheckInstall => 5,
        DiagnosisPhase::CheckMkconfig => 4,
        DiagnosisPhase::FstabExists => 3,
        DiagnosisPhase::FstabRead => 2,
        DiagnosisPhase::Unmount => 1,
        DiagnosisPhase::Finished => 0,
    }
}

/// Every step of a diagnosis moves it forward, so it always ends; it ends
/// only from the unmount step, reporting its result and then `Done`; and it
/// enters that step only by unmounting `/mnt`.
pub proof fn law_diagnosis_progresses_and_reports(
    before: DiagnosisRun,
    reply: Reply,
    after: DiagnosisRun,
    req: RequestView,
)
    requires
        diagnosis_transition(before, reply, after, req),
    ensures
        diagnosis_rank(after.phase) < diagnosis_rank(before.phase),
        after.phase == DiagnosisPhase::Finished ==> before.phase == DiagnosisPhase::Unmount && req.op
            == OpView::Finish && req.logs == seq![
            ok_line("diagnosis complete"@),
            result_line(before.grub_broken, before.fstab_broken),
            done_line(),
        ],
        after.phase == DiagnosisPhase::Unmount && before.phase != DiagnosisPhase::Unmount ==> req.op
            == OpView::Umount("/mnt"@) && req.logs.last() == crate::repair::unmount_step(),
{
}

/// The diagnosis recommends the repair of what it found broken, and nothing
/// when nothing is broken.
pub proof fn law_recommendation_matches_findings(grub_broken: bool, fstab_broken: bool)
    ensures
        recommendation(grub_broken, fstab_broken) is None <==> (!grub_broken && !fstab_broken),
        recommendation(grub_broken, fstab_broken) == Some(Action::FixGrubAndFstab) <==> (
        grub_broken && fstab_broken),
        recommendation(grub_broken, fstab_broken) matches Some(a) ==> spec_is_available(a),
{
}

// ─── Disks without lsblk ─────────────────────────────────────────────────────
proof fn lemma_proc_scan(ls: Seq<Seq<char>>)
    ensures
        entry_names(proc_scan(ls)).no_duplicates(),
        forall|i: int|
            0 <= i < proc_scan(ls).len() ==> !is_virtual_device(#[trigger] proc_scan(ls)[i].0),
    decreases ls.len(),
{
    if ls.len() > 0 {
        lemma_proc_scan(ls.drop_last());
        let prev = proc_scan(ls.drop_last());
        match proc_entry(ls.last()) {
            Some(e) => {
                if !(is_virtual_device(e.0) || entry_names(prev).contains(e.0)) {
                    let n = entry_names(prev.push(e));
                    assert(n =~= entry_names(prev).push(e.0));
                    assert forall|i: int, j: int|
                        0 <= i < n.len() && 0 <= j < n.len() && i != j implies n[i] != n[j] by {
                        if i == prev.len() {
                            assert(entry_names(prev)[j] == n[j]);
                        } else if j == prev.len() {
                            assert(entry_names(prev)[i] == n[i]);
                        }
                    }
                    assert forall|i: int| 0 <= i < prev.push(e).len() implies !is_virtual_device(
                        #[trigger] prev.push(e)[i].0,
                    ) by {
                        if i < prev.len() {
                            assert(prev.push(e)[i] == prev[i]);
                        }
                    }
                }
            },
            None => {},
        }
    }
}

/// Without lsblk, each device of `/proc/partitions` is offered once, and no
/// loop, RAM or device-mapper device is offered.
pub proof fn law_proc_partitions_offered_once(content: Seq<char>)
    ensures
        entry_names(spec_proc_partitions(content)).no_duplicates(),
        forall|i: int|
            0 <= i < spec_proc_partitions(content).len() ==> !is_virtual_device(
                #[trigger] spec_proc_partitions(content)[i].0,
            ),
{
    lemma_proc_scan(crate::blkdev::body_lines(lines(content)));
}

// ─── Unmounting ──────────────────────────────────────────────────────────────
proof fn lemma_of_len(ms: Seq<Seq<char>>, n: int)
    ensures
        forall|k: int|
            0 <= k < of_len(ms, n).len() ==> (#[trigger] of_len(ms, n)[k]).len() == n && ms.contains(
                of_len(ms, n)[k],
            ),
{
    let p = |m: Seq<char>| m.len() == n;
    assert forall|k: int| 0 <= k < of_len(ms, n).len() implies (#[trigger] of_len(ms, n)[k]).len()
        == n && ms.contains(of_len(ms, n)[k]) by {
        ms.lemma_filter_pred(p, k);
        assert(ms.filter(p).contains(ms.filter(p)[k]));
        ms.lemma_filter_contains_rev(p, ms.filter(p)[k]);
    }
}

proof fn lemma_by_len_from(ms: Seq<Seq<char>>, top: int, n: int)
    ensures
        forall|i: int|
            0 <= i < by_len_from(ms, top, n).len() ==> n <= (#[trigger] by_len_from(ms, top, n)[i]).len()
                <= top && ms.contains(by_len_from(ms, top, n)[i]),
        forall|i: int, j: int|
            0 <= i < j < by_len_from(ms, top, n).len() ==> (#[trigger] by_len_from(ms, top, n)[i]).len()
                >= (#[trigger] by_len_from(ms, top, n)[j]).len(),
    decreases top - n + 1,
{
    if n > top || n < 0 {
    } else {
        lemma_by_len_from(ms, top, n + 1);
        lemma_of_len(ms, n);
        let a = by_len_from(ms, top, n + 1);
        let b = of_len(ms, n);
        let r = by_len_from(ms, top, n);
        assert(r == a + b);
        assert forall|i: int| 0 <= i < r.len() implies n <= (#[trigger] r[i]).len() <= top
            && ms.contains(r[i]) by {
            if i < a.len() {
                assert(r[i] == a[i]);
            } else {
                assert(r[i] == b[i - a.len()]);
            }
        }
        assert forall|i: int, j: int| 0 <= i < j < r.len() implies (#[trigger] r[i]).len() >= (
        #[trigger] r[j]).len() by {
            if j < a.len() {
                assert(r[i] == a[i] && r[j] == a[j]);
            } else if i < a.len() {
                assert(r[i] == a[i] && r[j] == b[j - a.len()]);
            } else {
                assert(r[i] == b[i - a.len()] && r[j] == b[j - a.len()]);
            }
        }
    }
}

proof fn lemma_by_len_from_has(ms: Seq<Seq<char>>, top: int, n: int, m: Seq<char>)
    requires
        ms.contains(m),
        0 <= n <= m.len() <= top,
    ensures
        by_len_from(ms, top, n).contains(m),
    decreases top - n + 1,
{
    let a = by_len_from(ms, top, n + 1);
    let b = of_len(ms, n);
    assert(by_len_from(ms, top, n) == a + b);
    if m.len() == n {
        let i = choose|i: int| 0 <= i < ms.len() && ms[i] == m;
        ms.lemma_filter_contains(|x: Seq<char>| x.len() == n, i);
        let j = choose|j: int| 0 <= j < b.len() && b[j] == m;
        assert((a + b)[a.len() + j] == m);
    } else {
        lemma_by_len_from_has(ms, top, n + 1, m);
        let j = choose|j: int| 0 <= j < a.len() && a[j] == m;
        assert((a + b)[j] == m);
    }
}

proof fn lemma_max_len(ms: Seq<Seq<char>>, i: int)
    requires
        0 <= i < ms.len(),
    ensures
        ms[i].len() <= max_len(ms),
    decreases ms.len(),
{
    if i < ms.len() - 1 {
        lemma_max_len(ms.drop_last(), i);
        assert(ms.drop_last()[i] == ms[i]);
    }
}

proof fn lemma_submounts_below(ls: Seq<Seq<char>>, dir: Seq<char>)
    ensures
        forall|i: int|
            0 <= i < submounts_of(ls, dir).len() ==> has_prefix(
                #[trigger] submounts_of(ls, dir)[i],
                dir + "/"@,
            ),
    decreases ls.len(),
{
    if ls.len() > 0 {
        lemma_submounts_below(ls.drop_last(), dir);
        let prev = submounts_of(ls.drop_last(), dir);
        let f = fields(ls.last());
        if f.len() >= 2 && has_prefix(f[1], dir + "/"@) {
            assert forall|i: int| 0 <= i < prev.push(f[1]).len() implies has_prefix(
                #[trigger] prev.push(f[1])[i],
                dir + "/"@,
            ) by {
                if i < prev.len() {
                    assert(prev.push(f[1])[i] == prev[i]);
                }
            }
        }
    }
}

/// The mounts below a directory (the directory followed by `/`) are taken
/// down deepest first: each of them is unmounted, nothing else is, and a
/// longer mount point comes before a shorter one.
pub proof fn law_unmount_deepest_first(mounts: Seq<char>, dir: Seq<char>)
    ensures
        forall|m: Seq<char>|
            submounts_of(lines(mounts), dir).contains(m) <==> #[trigger] spec_unmount_order(
                mounts,
                dir,
            ).contains(m),
        forall|i: int|
            0 <= i < spec_unmount_order(mounts, dir).len() ==> has_prefix(
                #[trigger] spec_unmount_order(mounts, dir)[i],
                dir + "/"@,
            ),
        forall|i: int, j: int|
            0 <= i < j < spec_unmount_order(mounts, dir).len() ==> (
            #[trigger] spec_unmount_order(mounts, dir)[i]).len() >= (#[trigger] spec_unmount_order(
                mounts,
                dir,
            )[j]).len(),
{
    let ms = submounts_of(lines(mounts), dir);
    let top = max_len(ms) as int;
    let r = spec_unmount_order(mounts, dir);
    lemma_by_len_from(ms, top, 0);
    lemma_submounts_below(lines(mounts), dir);
    assert forall|m: Seq<char>| ms.contains(m) <==> #[trigger] r.contains(m) by {
        if ms.contains(m) {
            let i = choose|i: int| 0 <= i < ms.len() && ms[i] == m;
            lemma_max_len(ms, i);
            lemma_by_len_from_has(ms, top, 0, m);
        }
        if r.contains(m) {
            let i = choose|i: int| 0 <= i < r.len() && r[i] == m;
            assert(ms.contains(r[i]));
        }
    }
    assert forall|i: int| 0 <= i < r.len() implies has_prefix(#[trigger] r[i], dir + "/"@) by {
        assert(ms.contains(r[i]));
        let k = choose|k: int| 0 <= k < ms.len() && ms[k] == r[i];
        assert(has_prefix(ms[k], dir + "/"@));
    }
}

// ─── Start-up as init ────────────────────────────────────────────────────────
pub open spec fn init_rank(p: InitPhase) -> int {
    match p {
        InitPhase::MarkInit => 30,
        InitPhase::Mount => 29,
        InitPhase::Serial => 28,
        InitPhase::ModulesDir => 27,
        InitPhase::ModuleExists(i) => 20 - 2 * i,
        InitPhase::Insmod(i) => 19 - 2 * i,
        InitPhase::Console => 5,
        InitPhase::Framebuffer => 4,
        InitPhase::Tty => 3,
        InitPhase::Signals => 2,
        InitPhase::Finished => 0,
    }
}

/// Every step of the start-up moves it forward, so it always ends; it asks
/// to finish exactly when it reaches its end.
pub proof fn law_init_progresses(p: InitPhase, r: InitReply)
    requires
        init_phase_wf(p),
        init_reply_fits(p, r),
    ensures
        0 <= init_rank(init_next(p, r).0) < init_rank(p),
        init_phase_wf(init_next(p, r).0),
        init_next(p, r).2 is Finish <==> init_next(p, r).0 == InitPhase::Finished,
{
}

/// A console, terminal or signal set-up that fails ends the start-up with
/// its error, and the error is written to the serial console.
pub proof fn law_init_failure_ends_startup(p: InitPhase, e: String)
    requires
        p == InitPhase::Console || p == InitPhase::Tty || p == InitPhase::Signals,
    ensures
        init_next(p, InitReply::Done(Err(e))).0 == InitPhase::Finished,
        init_next(p, InitReply::Done(Err(e))).2 == InitOpView::Finish(Err(e@)),
        init_next(p, InitReply::Done(Err(e))).1.len() == 1,
        crate::text::has_sub(init_next(p, InitReply::Done(Err(e))).1[0], e@),
{
    let line = init_next(p, InitReply::Done(Err(e))).1[0];
    let k = line.len() - e@.len();
    assert(line.subrange(k, k + e@.len()) =~= e@);
    assert(occurs_at(line, e@, k));
}

// ─── Progress counts ─────────────────────────────────────────────────────────
/// The step lines an action adds between detection and unmounting.
pub open spec fn action_steps(a: Action) -> nat {
    match a {
        Action::FixGrub => 1,
        Action::FixGrubAndFstab => 2,
        Action::FixFstab => 1,
        _ => 0,
    }
}

/// The step lines a repair has still to send.
pub open spec fn repair_steps_left(r: RepairRun) -> nat {
    let efi: nat = if r.is_uefi && r.efi is Some {
        1
    } else {
        0
    };
    match r.phase {
        RepairPhase::MountRoot => efi + 3 + action_steps(r.action),
        RepairPhase::MountEfi => 3 + action_steps(r.action),
        RepairPhase::Bind => 2 + action_steps(r.action),
        RepairPhase::Detect => 1 + action_steps(r.action),
        RepairPhase::Grub(_) => if r.action == Action::FixGrubAndFstab {
            2
        } else {
            1
        },
        RepairPhase::FstabExists | RepairPhase::FstabRead => 1,
        RepairPhase::Unmount | RepairPhase::Finished => 0,
    }
}

/// Each request of a repair sends exactly the step lines that the repair had
/// still to send before it, less those it has still to send after it.
#[verifier::spinoff_prover]
#[verifier::rlimit(40)]
pub proof fn law_repair_step_accounting(
    before: RepairRun,
    reply: Reply,
    after: RepairRun,
    req: RequestView,
)
    requires
        repair_wf(before),
        repair_reply_fits(before.phase, reply),
        repair_transition(before, reply, after, req),
    ensures
        count_steps(req.logs) + repair_steps_left(after) == repair_steps_left(before),
{
    reveal_with_fuel(count_steps, 4);
}

/// A repair sends no more step lines than the total its screen shows
/// (`step N of M` never passes `M`), except for an fstab repair that also
/// mounts an EFI partition, which sends one more.
pub proof fn law_repair_steps_within_total(action: Action, root: DiskInfo, efi: Option<DiskInfo>, is_uefi: bool)
    requires
        !(action == Action::FixFstab && is_uefi && efi is Some),
    ensures
        count_steps(crate::repair::repair_start_request(root@).logs) + repair_steps_left(
            RepairRun { action, root, efi, is_uefi, phase: RepairPhase::MountRoot },
        ) <= crate::app::repair_steps(action),
{
    reveal_with_fuel(count_steps, 2);
}

/// The step lines a diagnosis has still to send.
pub open spec fn diagnosis_steps_left(p: DiagnosisPhase) -> nat {
    match p {
        DiagnosisPhase::MountRoot => 3,
        DiagnosisPhase::Detect => 2,
        DiagnosisPhase::CheckInstall | DiagnosisPhase::CheckMkconfig => 1,
        _ => 0,
    }
}

/// Each request of a diagnosis sends exactly the step lines that it had still
/// to send before it, less those it has still to send after it.
#[verifier::spinoff_prover]
#[verifier::rlimit(40)]
pub proof fn law_diagnosis_step_accounting(
    before: DiagnosisRun,
    reply: Reply,
    after: DiagnosisRun,
    req: RequestView,
)
    requires
        crate::repair::diagnosis_reply_fits(before.phase, reply),
        diagnosis_transition(before, reply, after, req),
    ensures
        count_steps(req.logs) + diagnosis_steps_left(after.phase) == diagnosis_steps_left(before.phase),
{
    reveal_with_fuel(count_steps, 4);
    match before.phase {
        DiagnosisPhase::FstabRead => {
            match reply {
                Reply::Content(Ok(_)) => {},
                _ => {},
            }
        },
        _ => {},
    }
}

/// A diagnosis sends exactly four step lines, the total its screen shows.
pub proof fn law_diagnosis_steps_match_total(root: DiskInfo)
    ensures
        count_steps(crate::repair::repair_start_request(root@).logs) + diagnosis_steps_left(
            DiagnosisPhase::MountRoot,
        ) == crate::app::spec_start_diagnosis(
            crate::app::AppView { selected_root: Some(root@), ..crate::app::initial_view(false, None) },
        ).exec_total,
{
    reveal_with_fuel(count_steps, 2);
}

/// The step lines of a sequence of requests.
pub open spec fn steps_sent(reqs: Seq<RequestView>) -> nat
    decreases reqs.len(),
{
    if reqs.len() == 0 {
        0
    } else {
        steps_sent(reqs.drop_last()) + count_steps(reqs.last().logs)
    }
}

/// `runs[i]` answered with `replies[i]` becomes `runs[i + 1]`, asking `reqs[i]`.
pub open spec fn is_diagnosis_trace(runs: Seq<DiagnosisRun>, replies: Seq<Reply>, reqs: Seq<RequestView>) -> bool {
    &&& runs.len() == reqs.len() + 1
    &&& replies.len() == reqs.len()
    &&& forall|i: int|
        0 <= i < reqs.len() ==> crate::repair::diagnosis_reply_fits(runs[i].phase, #[trigger] replies[i])
            && diagnosis_transition(runs[i], replies[i], runs[i + 1], reqs[i])
}

proof fn lemma_diagnosis_trace(runs: Seq<DiagnosisRun>, replies: Seq<Reply>, reqs: Seq<RequestView>, n: int)
    requires
        is_diagnosis_trace(runs, replies, reqs),
        0 <= n <= reqs.len(),
    ensures
        steps_sent(reqs.take(n)) + diagnosis_steps_left(runs[n].phase) == diagnosis_steps_left(
            runs[0].phase,
        ),
    decreases n,
{
    if n > 0 {
        lemma_diagnosis_trace(runs, replies, reqs, n - 1);
        assert(reqs.take(n).drop_last() =~= reqs.take(n - 1));
        assert(replies[n - 1] == replies[n - 1]);
        law_diagnosis_step_accounting(runs[n - 1], replies[n - 1], runs[n], reqs[n - 1]);
    }
}

/// A whole diagnosis, from its start to its end, sends exactly four step
/// lines: the one of its first request and three more.  That is the total
/// its screen shows, so the count ends at "step 4 of 4".
pub proof fn law_diagnosis_run_sends_four_steps(
    root: DiskInfo,
    runs: Seq<DiagnosisRun>,
    replies: Seq<Reply>,
    reqs: Seq<RequestView>,
)
    requires
        is_diagnosis_trace(runs, replies, reqs),
        runs[0].phase == DiagnosisPhase::MountRoot,
        runs.last().phase == DiagnosisPhase::Finished,
    ensures
        count_steps(crate::repair::repair_start_request(root@).logs) + steps_sent(reqs) == 4,
        4 == crate::app::spec_start_diagnosis(
            crate::app::AppView { selected_root: Some(root@), ..crate::app::initial_view(false, None) },
        ).exec_total,
{
    lemma_diagnosis_trace(runs, replies, reqs, reqs.len() as int);
    assert(reqs.take(reqs.len() as int) =~= reqs);
    law_diagnosis_steps_match_total(root);
}

/// `runs[i]` answered with `replies[i]` becomes `runs[i + 1]`, asking `reqs[i]`.
pub open spec fn is_repair_trace(runs: Seq<RepairRun>, replies: Seq<Reply>, reqs: Seq<RequestView>) -> bool {
    &&& runs.len() == reqs.len() + 1
    &&& replies.len() == reqs.len()
    &&& forall|i: int|
        0 <= i < reqs.len() ==> repair_wf(runs[i]) && repair_reply_fits(runs[i].phase, #[trigger] replies[i])
            && repair_transition(runs[i], replies[i], runs[i + 1], reqs[i])
}

proof fn lemma_repair_trace(runs: Seq<RepairRun>, replies: Seq<Reply>, reqs: Seq<RequestView>, n: int)
    requires
        is_repair_trace(runs, replies, reqs),
        0 <= n <= reqs.len(),
    ensures
        steps_sent(reqs.take(n)) + repair_steps_left(runs[n]) == repair_steps_left(runs[0]),
    decreases n,
{
    if n > 0 {
        lemma_repair_trace(runs, replies, reqs, n - 1);
        assert(reqs.take(n).drop_last() =~= reqs.take(n - 1));
        assert(replies[n - 1] == replies[n - 1]);
        law_repair_step_accounting(runs[n - 1], replies[n - 1], runs[n], reqs[n - 1]);
    }
}

/// A whole repair, from its start to its end, sends no more step lines than
/// the total its screen shows, except an fstab repair that also mounts an
/// EFI partition, which sends one more.
pub proof fn law_repair_run_within_total(runs: Seq<RepairRun>, replies: Seq<Reply>, reqs: Seq<RequestView>)
    requires
        is_repair_trace(runs, replies, reqs),
        runs[0].phase is MountRoot,
        runs.last().phase is Finished,
        !(runs[0].action == Action::FixFstab && runs[0].is_uefi && runs[0].efi is Some),
    ensures
        count_steps(crate::repair::repair_start_request(runs[0].root@).logs) + steps_sent(reqs)
            <= crate::app::repair_steps(runs[0].action),
{
    lemma_repair_trace(runs, replies, reqs, reqs.len() as int);
    assert(reqs.take(reqs.len() as int) =~= reqs);
    law_repair_steps_within_total(runs[0].action, runs[0].root, runs[0].efi, runs[0].is_uefi);
    assert(runs[0] == RepairRun {
        action: runs[0].action,
        root: runs[0].root,
        efi: runs[0].efi,
        is_uefi: runs[0].is_uefi,
        phase: RepairPhase::MountRoot,
    });
}

// ─── What the operations are for ─────────────────────────────────────────────
/// An fstab line is an entry: not blank, not a comment, at least three fields.
pub open spec fn is_entry_line(l: Seq<char>) -> bool {
    let t = crate::text::trim(l, crate::text::Pat::Ws);
    &&& !has_prefix(t, "#"@)
    &&& t.len() > 0
    &&& fields(t).len() >= 3
}

/// The mount point (second field) of an fstab line.
pub open spec fn entry_mount(l: Seq<char>) -> Seq<char> {
    fields(crate::text::trim(l, crate::text::Pat::Ws))[1]
}

/// An fstab entry that declares swap: its mount point is `none` or `swap`.
pub open spec fn is_swap_entry(l: Seq<char>) -> bool {
    is_entry_line(l) && (entry_mount(l) == "none"@ || entry_mount(l) == "swap"@)
}

/// `m` is the mount point of some entry among the lines `ls`.
pub open spec fn mount_of_some_entry(ls: Seq<Seq<char>>, m: Seq<char>) -> bool {
    exists|k: int| 0 <= k < ls.len() && #[trigger] is_entry_line(ls[k]) && entry_mount(ls[k]) == m
}

proof fn lemma_scan_records_every_mount(ls: Seq<Seq<char>>, live: Seq<LiveView>)
    ensures
        forall|k: int|
            0 <= k < ls.len() && #[trigger] is_entry_line(ls[k]) ==> crate::fstab::scan_entries(
                ls,
                live,
            ).1.contains(entry_mount(ls[k])),
        forall|i: int|
            0 <= i < crate::fstab::scan_entries(ls, live).1.len() ==> mount_of_some_entry(
                ls,
                #[trigger] crate::fstab::scan_entries(ls, live).1[i],
            ),
        forall|i: int|
            0 <= i < crate::fstab::scan_entries(ls, live).0.len() ==> !(
            #[trigger] crate::fstab::scan_entries(ls, live).0[i] is MissingSwap),
    decreases ls.len(),
{
    if ls.len() > 0 {
        let pl = ls.drop_last();
        lemma_scan_records_every_mount(pl, live);
        let (is0, ms0) = crate::fstab::scan_entries(pl, live);
        let (is, ms) = crate::fstab::scan_entries(ls, live);
        let n = ls.len() - 1;
        assert forall|k: int| 0 <= k < ls.len() && #[trigger] is_entry_line(ls[k]) implies ms.contains(
            entry_mount(ls[k]),
        ) by {
            if k < n {
                assert(pl[k] == ls[k]);
                assert(is_entry_line(pl[k]));
                let j = choose|j: int| 0 <= j < ms0.len() && ms0[j] == entry_mount(pl[k]);
                assert(ms[j] == ms0[j]);
            } else {
                assert(ms[ms.len() - 1] == entry_mount(ls[k]));
            }
        }
        assert forall|i: int| 0 <= i < ms.len() implies mount_of_some_entry(ls, #[trigger] ms[i]) by {
            if i < ms0.len() {
                assert(ms[i] == ms0[i]);
                assert(mount_of_some_entry(pl, ms0[i]));
                let k = choose|k: int|
                    0 <= k < pl.len() && #[trigger] is_entry_line(pl[k]) && entry_mount(pl[k]) == ms0[i];
                assert(pl[k] == ls[k]);
                assert(is_entry_line(ls[k]));
            } else {
                assert(is_entry_line(ls[n]));
            }
        }
        assert forall|i: int| 0 <= i < is.len() implies !(#[trigger] is[i] is MissingSwap) by {
            if i < is0.len() {
                assert(is[i] == is0[i]);
            }
        }
    }
}

/// A declared swap is never reported missing: when some entry of the fstab
/// text is mounted at `none` or `swap`, whether or not that entry raised an
/// issue of its own, the audit reports no `MissingSwap`.
pub proof fn law_swap_entry_silences_missing_swap(content: Seq<char>, live: Seq<LiveView>, k: int)
    requires
        0 <= k < lines(content).len(),
        is_swap_entry(lines(content)[k]),
    ensures
        forall|i: int|
            0 <= i < crate::fstab::fstab_issues(content, live).len() ==> !(
            #[trigger] crate::fstab::fstab_issues(content, live)[i] is MissingSwap),
{
    let ls = lines(content);
    lemma_scan_records_every_mount(ls, live);
    assert(is_entry_line(ls[k]));
    let (is, ms) = crate::fstab::scan_entries(ls, live);
    let j = choose|j: int| 0 <= j < ms.len() && ms[j] == entry_mount(ls[k]);
    assert(declares_swap(ms));
    law_declared_swap_silences(live, ms);
    assert(crate::fstab::fstab_issues(content, live) =~= is);
}

proof fn lemma_swap_issues_report(live: Seq<LiveView>, ms: Seq<Seq<char>>, j: int)
    requires
        !declares_swap(ms),
        0 <= j < live.len(),
        live[j].fstype == "swap"@,
    ensures
        swap_issues(live, ms).contains(IssueView::MissingSwap { live_swap_uuid: live[j].uuid }),
    decreases live.len(),
{
    let prev = swap_issues(live.drop_last(), ms);
    if j < live.len() - 1 {
        assert(live.drop_last()[j] == live[j]);
        lemma_swap_issues_report(live.drop_last(), ms, j);
        let t = choose|t: int| 0 <= t < prev.len() && prev[t] == IssueView::MissingSwap {
            live_swap_uuid: live[j].uuid,
        };
        assert(swap_issues(live, ms)[t] == prev[t]);
    } else {
        assert(swap_issues(live, ms) == prev.push(IssueView::MissingSwap { live_swap_uuid: live[j].uuid }));
        assert(swap_issues(live, ms)[prev.len() as int] == IssueView::MissingSwap {
            live_swap_uuid: live[j].uuid,
        });
    }
}

/// When no entry declares swap, every live swap partition is reported
/// missing, by its UUID.
pub proof fn law_undeclared_swap_is_reported(content: Seq<char>, live: Seq<LiveView>, j: int)
    requires
        forall|k: int| 0 <= k < lines(content).len() ==> !is_swap_entry(#[trigger] lines(content)[k]),
        0 <= j < live.len(),
        live[j].fstype == "swap"@,
    ensures
        crate::fstab::fstab_issues(content, live).contains(
            IssueView::MissingSwap { live_swap_uuid: live[j].uuid },
        ),
{
    let ls = lines(content);
    lemma_scan_records_every_mount(ls, live);
    let (is, ms) = crate::fstab::scan_entries(ls, live);
    assert(!declares_swap(ms)) by {
        if declares_swap(ms) {
            let i = choose|i: int| 0 <= i < ms.len() && (ms[i] == "none"@ || ms[i] == "swap"@);
            assert(mount_of_some_entry(ls, ms[i]));
            let k = choose|k: int|
                0 <= k < ls.len() && #[trigger] is_entry_line(ls[k]) && entry_mount(ls[k]) == ms[i];
            assert(!is_swap_entry(ls[k]));
        }
    }
    lemma_swap_issues_report(live, ms, j);
    let sw = swap_issues(live, ms);
    let t = choose|t: int| 0 <= t < sw.len() && sw[t] == IssueView::MissingSwap { live_swap_uuid: live[j].uuid };
    assert((is + sw)[is.len() + t] == sw[t]);
}

/// `ID_LIKE` decides the family through the words it contains: a value that
/// holds `debian` anywhere selects the Debian family (unless `ID` is `arch`
/// or the value also holds `arch`), and one that holds `fedora` or `rhel`
/// selects Fedora unless an earlier family matched.
pub proof fn law_id_like_words_select_family(id: Seq<char>, before: Seq<char>, word: Seq<char>, after: Seq<char>)
    requires
        id != "arch"@,
        !has_sub(before + word + after, "arch"@),
    ensures
        word == "debian"@ ==> crate::distros::family_of(id, before + word + after) == crate::distros::Family::Debian,
        (word == "fedora"@ || word == "rhel"@) && id != "debian"@ && id != "ubuntu"@ && !has_sub(
            before + word + after,
            "debian"@,
        ) ==> crate::distros::family_of(id, before + word + after) == crate::distros::Family::Fedora,
{
    let v = before + word + after;
    assert(v.subrange(before.len() as int, before.len() + word.len() as int) =~= word);
    assert(occurs_at(v, word, before.len() as int));
}

/// `ID` alone decides the family when it names one: `arch`, `debian` or
/// `ubuntu`, `fedora` or `rhel`, whatever `ID_LIKE` says (past an `arch` in
/// it, which is checked first).
pub proof fn law_id_selects_family(id: Seq<char>, id_like: Seq<char>)
    ensures
        id == "arch"@ ==> crate::distros::family_of(id, id_like) == crate::distros::Family::Arch,
        (id == "debian"@ || id == "ubuntu"@) && !has_sub(id_like, "arch"@) ==> crate::distros::family_of(
            id,
            id_like,
        ) == crate::distros::Family::Debian,
{
    reveal_strlit("arch");
    reveal_strlit("debian");
    reveal_strlit("ubuntu");
    assert("debian"@.len() != "arch"@.len());
    assert("ubuntu"@.len() != "arch"@.len());
}

/// The GRUB configuration is written where the detected distribution's GRUB
/// reads it: the step that generates it runs the distribution's own
/// `grub-mkconfig` program with `-o` and the distribution's configuration
/// path, whichever step leads to it.
pub proof fn law_mkconfig_writes_the_distro_config(d: crate::distros::DetectedDistro, bt: BootType, p: GrubPhase, r: Reply)
    requires
        phase_reply_fits(p, r),
        grub_next(d, bt, p, r).0 == GrubPhase::Mkconfig,
    ensures
        grub_next(d, bt, p, r).1 == GrubStepView::Run(
            OpView::RunInChroot(d.spec_grub_mkconfig_bin(), seq!["-o"@, d.spec_grub_config_path()]),
        ),
{
}

/// Per family, the configuration path that the repair writes.
pub proof fn law_config_paths_per_family(d: crate::distros::DetectedDistro)
    ensures
        d is Fedora ==> d.spec_grub_config_path() == "/boot/grub2/grub.cfg"@ && d.spec_grub_mkconfig_bin()
            == "grub2-mkconfig"@,
        !(d is Fedora) ==> d.spec_grub_config_path() == "/boot/grub/grub.cfg"@ && d.spec_grub_mkconfig_bin()
            == "grub-mkconfig"@,
{
}

/// On the root selection screen, Enter takes the highlighted row as the root
/// partition (whichever row it is) and moves on to the EFI screen; nothing
/// else about the disks changes.
pub proof fn law_enter_selects_highlighted_root(s: AppView, i: usize)
    requires
        s.current_screen == crate::app::CurrentScreen::SelectRoot,
        s.selection == Some(i),
        i < s.disks.len(),
    ensures
        crate::app::spec_handle_input(s, crate::app::Key::Enter).selected_root == Some(s.disks[i as int]),
        crate::app::spec_handle_input(s, crate::app::Key::Enter).current_screen
            == crate::app::CurrentScreen::SelectEfi,
        crate::app::spec_handle_input(s, crate::app::Key::Enter).disks == s.disks,
        crate::app::spec_handle_input(s, crate::app::Key::Enter).selected_efi == s.selected_efi,
{
}

proof fn lemma_efi_disks(ds: Seq<DiskView>)
    ensures
        forall|k: int|
            0 <= k < crate::app::efi_disks(ds).len() ==> (#[trigger] crate::app::efi_disks(ds)[k]).is_efi
                && ds.contains(crate::app::efi_disks(ds)[k]),
    decreases ds.len(),
{
    if ds.len() > 0 {
        lemma_efi_disks(ds.drop_last());
        let p = crate::app::efi_disks(ds.drop_last());
        let e = crate::app::efi_disks(ds);
        assert forall|k: int| 0 <= k < e.len() implies (#[trigger] e[k]).is_efi && ds.contains(e[k]) by {
            if k < p.len() {
                assert(e[k] == p[k]);
                let t = choose|t: int| 0 <= t < ds.drop_last().len() && ds.drop_last()[t] == p[k];
                assert(ds[t] == p[k]);
            } else {
                assert(e[k] == ds.last());
                assert(ds[ds.len() - 1] == ds.last());
            }
        }
    }
}

/// On the EFI screen, Enter with a highlighted row takes an EFI system
/// partition of the disk list and moves on to the confirm screen, leaving
/// the chosen root as it was.
pub proof fn law_enter_selects_an_esp(s: AppView, i: usize)
    requires
        s.current_screen == crate::app::CurrentScreen::SelectEfi,
        s.selection == Some(i),
        i < crate::app::efi_disks(s.disks).len(),
    ensures
        crate::app::spec_handle_input(s, crate::app::Key::Enter).selected_efi matches Some(e) && e.is_efi
            && s.disks.contains(e),
        crate::app::spec_handle_input(s, crate::app::Key::Enter).current_screen
            == crate::app::CurrentScreen::Confirm,
        crate::app::spec_handle_input(s, crate::app::Key::Enter).selected_root == s.selected_root,
{
    lemma_efi_disks(s.disks);
}

/// The installer runs the distribution's own `grub-install` program for the
/// boot type: `--target=x86_64-efi` with the EFI directory on UEFI,
/// `--target=i386-pc` with the target disk on BIOS, and `--recheck` last.
pub proof fn law_install_targets_the_boot_type(d: crate::distros::DetectedDistro, bt: BootType, p: GrubPhase, r: Reply)
    requires
        phase_reply_fits(p, r),
        grub_next(d, bt, p, r).0 == GrubPhase::Install,
    ensures
        grub_next(d, bt, p, r).1 matches GrubStepView::Run(OpView::RunInChroot(prog, args)) && prog
            == d.spec_grub_install_bin() && args.len() >= 3 && args.last() == "--recheck"@ && match bt {
            BootType::Efi { efi_mount_inside_chroot } => args[0] == "--target=x86_64-efi"@ && args[1]
                == "--efi-directory="@ + efi_mount_inside_chroot@,
            BootType::Bios { target_disk } => args[0] == "--target=i386-pc"@ && args[1] == target_disk@,
        },
{
}

/// The initramfs rebuild runs the distribution's own command, program and
/// arguments as the distribution gives them, and only for a distribution
/// that has one.
pub proof fn law_initramfs_runs_the_distro_command(d: crate::distros::DetectedDistro, bt: BootType, p: GrubPhase, r: Reply)
    requires
        phase_reply_fits(p, r),
        grub_next(d, bt, p, r).0 == GrubPhase::Initramfs,
    ensures
        d.spec_initramfs_cmd().len() > 0,
        grub_next(d, bt, p, r).1 == GrubStepView::Run(
            OpView::RunInChroot(d.spec_initramfs_cmd()[0], d.spec_initramfs_cmd().drop_first()),
        ),
{
}

/// On the confirm screen, Enter on "confirm" with a root selected starts the
/// diagnosis of that root: the diagnosis screen, an empty log of four steps.
pub proof fn law_confirm_starts_diagnosis(s: AppView)
    requires
        s.current_screen == crate::app::CurrentScreen::Confirm,
        s.confirm_focus == ConfirmFocus::Confirm,
        s.selected_root is Some,
    ensures
        crate::app::spec_input_effect(s, crate::app::Key::Enter) == crate::app::EffectKind::StartDiagnosis,
        crate::app::spec_handle_input(s, crate::app::Key::Enter).current_screen
            == crate::app::CurrentScreen::DiagnoseLog,
        crate::app::spec_handle_input(s, crate::app::Key::Enter).log_lines.len() == 0,
        crate::app::spec_handle_input(s, crate::app::Key::Enter).exec_total == 4,
        crate::app::spec_handle_input(s, crate::app::Key::Enter).selected_root == s.selected_root,
{
}

/// On the action menu, Enter on an available action starts that action's
/// repair on the selected root; on any other row nothing starts.
pub proof fn law_menu_enter_starts_the_row_action(s: AppView)
    requires
        s.current_screen == crate::app::CurrentScreen::ActionMenu,
        s.action_cursor < ACTION_ITEMS_LEN,
        s.selected_root is Some,
    ensures
        action_items()[s.action_cursor as int] is Some && spec_is_available(
            action_items()[s.action_cursor as int]->0,
        ) ==> {
            &&& crate::app::spec_input_effect(s, crate::app::Key::Enter) == crate::app::EffectKind::StartRepair
            &&& crate::app::spec_handle_input(s, crate::app::Key::Enter).selected_action
                == action_items()[s.action_cursor as int]
            &&& crate::app::spec_handle_input(s, crate::app::Key::Enter).current_screen
                == crate::app::CurrentScreen::ExecLog
        },
        !(action_items()[s.action_cursor as int] is Some && spec_is_available(
            action_items()[s.action_cursor as int]->0,
        )) ==> {
            &&& crate::app::spec_input_effect(s, crate::app::Key::Enter) == crate::app::EffectKind::Nothing
            &&& crate::app::spec_handle_input(s, crate::app::Key::Enter) == s
        },
{
}

} // verus!
