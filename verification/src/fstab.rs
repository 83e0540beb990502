//! Audit of the target's `/etc/fstab` against the partitions that are
//! actually present.
use vstd::prelude::*;
use crate::text::{
    chars_of, fields, has_prefix, lines, lines_exec, replace_all, replace_exec, split_whitespace,
    starts_with_str, string_of, trim, trim_exec, views_as, Pat,
};

verus! {

/// A problem found in one fstab entry, or a swap partition that fstab misses.
#[derive(Debug, Clone)]
pub enum FstabIssue {
    UuidMismatch { mount_point: String, expected_uuid: String, live_uuid: Option<String> },
    MissingSwap { live_swap_uuid: String },
    UnusualFsType { mount_point: String, fstab_type: String, live_type: String },
}

pub enum IssueView {
    UuidMismatch { mount_point: Seq<char>, expected_uuid: Seq<char>, live_uuid: Option<Seq<char>> },
    MissingSwap { live_swap_uuid: Seq<char> },
    UnusualFsType { mount_point: Seq<char>, fstab_type: Seq<char>, live_type: Seq<char> },
}

pub open spec fn opt_view(o: Option<String>) -> Option<Seq<char>> {
    match o {
        Some(s) => Some(s@),
        None => None,
    }
}

impl View for FstabIssue {
    type V = IssueView;

    open spec fn view(&self) -> IssueView {
        match self {
            FstabIssue::UuidMismatch { mount_point, expected_uuid, live_uuid } =>
                IssueView::UuidMismatch {
                mount_point: mount_point@,
                expected_uuid: expected_uuid@,
                live_uuid: opt_view(*live_uuid),
            },
            FstabIssue::MissingSwap { live_swap_uuid } => IssueView::MissingSwap {
                live_swap_uuid: live_swap_uuid@,
            },
            FstabIssue::UnusualFsType { mount_point, fstab_type, live_type } =>
                IssueView::UnusualFsType {
                mount_point: mount_point@,
                fstab_type: fstab_type@,
                live_type: live_type@,
            },
        }
    }
}

/// A partition as the running system sees it.
#[derive(Debug, Clone)]
pub struct LivePartition {
    pub path: String,
    pub uuid: String,
    pub fstype: String,
    pub current_mount: Option<String>,
}

pub struct LiveView {
    pub path: Seq<char>,
    pub uuid: Seq<char>,
    pub fstype: Seq<char>,
    pub current_mount: Option<Seq<char>>,
}

impl View for LivePartition {
    type V = LiveView;

    open spec fn view(&self) -> LiveView {
        LiveView {
            path: self.path@,
            uuid: self.uuid@,
            fstype: self.fstype@,
            current_mount: opt_view(self.current_mount),
        }
    }
}

pub open spec fn live_views(s: Seq<LivePartition>) -> Seq<LiveView> {
    s.map_values(|p: LivePartition| p@)
}

pub open spec fn issue_views(s: Seq<FstabIssue>) -> Seq<IssueView> {
    s.map_values(|i: FstabIssue| i@)
}

/// The field by which a live partition is looked up.
#[derive(Clone, Copy)]
pub enum LiveKey {
    Path,
    Uuid,
    Mount,
}

pub open spec fn key_matches(p: LiveView, k: LiveKey, v: Seq<char>) -> bool {
    match k {
        LiveKey::Path => p.path == v,
        LiveKey::Uuid => p.uuid == v,
        LiveKey::Mount => p.current_mount == Some(v),
    }
}

/// The first live partition whose field `k` is `v`.
pub open spec fn find_live(live: Seq<LiveView>, k: LiveKey, v: Seq<char>) -> Option<LiveView>
    decreases live.len(),
{
    if live.len() == 0 {
        None
    } else if key_matches(live[0], k, v) {
        Some(live[0])
    } else {
        find_live(live.drop_first(), k, v)
    }
}

/// The UUID that an fstab device column refers to: a `UUID=` value (with
/// quotes removed), or the UUID of the live partition at a `/dev/` path.
pub open spec fn target_uuid(dev: Seq<char>, live: Seq<LiveView>) -> Option<Seq<char>> {
    if has_prefix(dev, "UUID="@) {
        Some(trim(trim(replace_all(dev, "UUID="@, Seq::empty()), Pat::Ch('"')), Pat::Ch('\'')))
    } else if has_prefix(dev, "/dev/"@) {
        match find_live(live, LiveKey::Path, dev) {
            Some(p) => Some(p.uuid),
            None => None,
        }
    } else {
        None
    }
}

/// The issue that one fstab entry (its whitespace-separated fields, at least
/// three) raises, if any.
pub open spec fn entry_issue(f: Seq<Seq<char>>, live: Seq<LiveView>) -> Option<IssueView> {
    let mount_point = f[1];
    let fstab_type = f[2];
    match target_uuid(f[0], live) {
        None => None,
        Some(u) => match find_live(live, LiveKey::Uuid, u) {
            Some(p) => if p.fstype != fstab_type && fstab_type != "none"@ {
                Some(
                    IssueView::UnusualFsType {
                        mount_point,
                        fstab_type,
                        live_type: p.fstype,
                    },
                )
            } else {
                None
            },
            None => Some(
                IssueView::UuidMismatch {
                    mount_point,
                    expected_uuid: u,
                    live_uuid: match find_live(live, LiveKey::Mount, mount_point) {
                        Some(q) => Some(q.uuid),
                        None => None,
                    },
                },
            ),
        },
    }
}

/// After reading the lines `ls`: the issues of the entries so far, and the
/// mount points of every entry (blank lines, comments and lines with fewer
/// than three fields are not entries).
pub open spec fn scan_entries(ls: Seq<Seq<char>>, live: Seq<LiveView>) -> (
    Seq<IssueView>,
    Seq<Seq<char>>,
)
    decreases ls.len(),
{
    if ls.len() == 0 {
        (Seq::empty(), Seq::empty())
    } else {
        let (is, ms) = scan_entries(ls.drop_last(), live);
        let l = trim(ls.last(), Pat::Ws);
        let f = fields(l);
        if has_prefix(l, "#"@) || l.len() == 0 || f.len() < 3 {
            (is, ms)
        } else {
            (
                match entry_issue(f, live) {
                    Some(x) => is.push(x),
                    None => is,
                },
                ms.push(f[1]),
            )
        }
    }
}

/// Whether some entry is mounted at `none` or `swap`.
pub open spec fn declares_swap(ms: Seq<Seq<char>>) -> bool {
    exists|i: int| 0 <= i < ms.len() && (ms[i] == "none"@ || ms[i] == "swap"@)
}

/// One issue for each live swap partition, in order, when no entry declares swap.
pub open spec fn swap_issues(live: Seq<LiveView>, ms: Seq<Seq<char>>) -> Seq<IssueView>
    decreases live.len(),
{
    if live.len() == 0 {
        Seq::empty()
    } else {
        let prev = swap_issues(live.drop_last(), ms);
        if live.last().fstype == "swap"@ && !declares_swap(ms) {
            prev.push(IssueView::MissingSwap { live_swap_uuid: live.last().uuid })
        } else {
            prev
        }
    }
}

/// Every issue that the fstab text `content` raises against `live`.
pub open spec fn fstab_issues(content: Seq<char>, live: Seq<LiveView>) -> Seq<IssueView> {
    let (is, ms) = scan_entries(lines(content), live);
    is + swap_issues(live, ms)
}

pub struct FstabAuditor;

/// Why an audit could not run.
#[derive(Debug, Clone, Copy, PartialEq, Eq)]
pub enum FstabError {
    /// The target has no `/etc/fstab`.
    Missing,
}

impl FstabError {
    pub fn message(&self) -> (r: String)
        ensures
            r@ == "The target /etc/fstab configuration file is missing completely."@,
    {
        String::from_str("The target /etc/fstab configuration file is missing completely.")
    }
}

fn find_live_exec(live: &[LivePartition], k: LiveKey, v: &String) -> (r: Option<usize>)
    ensures
        match r {
            Some(i) => i < live@.len() && find_live(live_views(live@), k, v@) == Some(
                live@[i as int]@,
            ),
            None => find_live(live_views(live@), k, v@) is None,
        },
{
    let ghost lv = live_views(live@);
    let mut i: usize = 0;
    proof {
        assert(lv.skip(0) =~= lv);
    }
    while i < live.len()
        invariant
            i <= live@.len(),
            lv == live_views(live@),
            find_live(lv, k, v@) == find_live(lv.skip(i as int), k, v@),
        decreases live.len() - i,
    {
        proof {
            assert(lv.skip(i as int)[0] == live@[i as int]@);
            assert(lv.skip(i as int).drop_first() =~= lv.skip(i + 1));
        }
        let p = &live[i];
        let hit = match k {
            LiveKey::Path => p.path == *v,
            LiveKey::Uuid => p.uuid == *v,
            LiveKey::Mount => match &p.current_mount {
                Some(m) => *m == *v,
                None => false,
            },
        };
        if hit {
            return Some(i);
        }
        i = i + 1;
    }
    None
}

/// The UUID that a device column refers to.
fn target_uuid_exec(dev: &Vec<char>, live: &[LivePartition]) -> (r: Option<String>)
    ensures
        opt_view(r) == target_uuid(dev@, live_views(live@)),
{
    if starts_with_str(dev, "UUID=") {
        let pat = chars_of("UUID=");
        let empty: Vec<char> = Vec::new();
        proof {
            reveal_strlit("UUID=");
            assert(empty@ =~= Seq::<char>::empty());
        }
        let a = replace_exec(dev, &pat, &empty);
        let b = trim_exec(&a, Pat::Ch('"'));
        let c = trim_exec(&b, Pat::Ch('\''));
        Some(string_of(&c))
    } else if starts_with_str(dev, "/dev/") {
        let d = string_of(dev);
        match find_live_exec(live, LiveKey::Path, &d) {
            Some(i) => Some(live[i].uuid.clone()),
            None => None,
        }
    } else {
        None
    }
}

/// The issue that an fstab entry with fields `f` raises, if any.
fn entry_issue_exec(f: &Vec<Vec<char>>, live: &[LivePartition]) -> (r: Option<FstabIssue>)
    requires
        f.len() >= 3,
    ensures
        match r {
            Some(x) => entry_issue(f@.map_values(|c: Vec<char>| c@), live_views(live@)) == Some(
                x@,
            ),
            None => entry_issue(f@.map_values(|c: Vec<char>| c@), live_views(live@)) is None,
        },
{
    let ghost fv = f@.map_values(|c: Vec<char>| c@);
    let ghost lv = live_views(live@);
    let mount_point = string_of(&f[1]);
    let fstab_type = string_of(&f[2]);
    assert(fv[0] == f@[0]@ && fv[1] == f@[1]@ && fv[2] == f@[2]@);
    match target_uuid_exec(&f[0], live) {
        None => None,
        Some(u) => match find_live_exec(live, LiveKey::Uuid, &u) {
            Some(i) => {
                let none = String::from_str("none");
                if live[i].fstype != fstab_type && fstab_type != none {
                    Some(
                        FstabIssue::UnusualFsType {
                            mount_point,
                            fstab_type,
                            live_type: live[i].fstype.clone(),
                        },
                    )
                } else {
                    None
                }
            },
            None => {
                let live_uuid = match find_live_exec(live, LiveKey::Mount, &mount_point) {
                    Some(j) => Some(live[j].uuid.clone()),
                    None => None,
                };
                Some(FstabIssue::UuidMismatch { mount_point, expected_uuid: u, live_uuid })
            },
        },
    }
}

impl FstabAuditor {
    /// Audits the text of the target's `/etc/fstab` (`None` when the file does
    /// not exist) against the live partitions.
    pub fn audit_fstab(fstab: Option<&str>, live_devs: &[LivePartition]) -> (r: Result<
        Vec<FstabIssue>,
        FstabError,
    >)
        ensures
            match fstab {
                None => r == Err::<Vec<FstabIssue>, FstabError>(FstabError::Missing),
                Some(c) => r matches Ok(is) && issue_views(is@) == fstab_issues(
                    c@,
                    live_views(live_devs@),
                ),
            },
    {
        match fstab {
            None => Err(FstabError::Missing),
            Some(content) => {
                let v = chars_of(content);
                let ls = lines_exec(&v);
                let ghost g = lines(v@);
                let ghost lv = live_views(live_devs@);
                let mut issues: Vec<FstabIssue> = Vec::new();
                let mut mounts: Vec<String> = Vec::new();
                let mut i: usize = 0;
                while i < ls.len()
                    invariant
                        i <= ls.len(),
                        views_as(ls@, g),
                        lv == live_views(live_devs@),
                        issue_views(issues@) == scan_entries(g.take(i as int), lv).0,
                        mounts@.map_values(|m: String| m@) == scan_entries(g.take(i as int), lv).1,
                    decreases ls.len() - i,
                {
                    proof {
                        assert(g.take(i + 1).drop_last() =~= g.take(i as int));
                        assert(g.take(i + 1).last() == g[i as int]);
                    }
                    let line = trim_exec(&ls[i], Pat::Ws);
                    let f = split_whitespace(&line);
                    let ghost fv = f@.map_values(|c: Vec<char>| c@);
                    proof {
                        assert(fv =~= fields(line@));
                    }
                    if !starts_with_str(&line, "#") && line.len() > 0 && f.len() >= 3 {
                        let ghost old_issues = issues@;
                        let ghost old_mounts = mounts@;
                        match entry_issue_exec(&f, live_devs) {
                            Some(x) => {
                                issues.push(x);
                                proof {
                                    assert(issue_views(issues@) =~= issue_views(old_issues).push(
                                        x@,
                                    ));
                                }
                            },
                            None => {},
                        }
                        mounts.push(string_of(&f[1]));
                        proof {
                            assert(fv[1] == f@[1]@);
                            assert(mounts@.map_values(|m: String| m@) =~= old_mounts.map_values(
                                |m: String| m@,
                            ).push(fv[1]));
                        }
                    }
                    i = i + 1;
                }
                proof {
                    assert(g.take(ls.len() as int) =~= g);
                }
                let ghost ms = mounts@.map_values(|m: String| m@);
                let swap_declared = declares_swap_exec(&mounts);
                let ghost scanned = issue_views(issues@);
                let mut k: usize = 0;
                proof {
                    assert(lv.take(0) =~= Seq::<LiveView>::empty());
                    assert(scanned + swap_issues(lv.take(0), ms) =~= scanned);
                }
                while k < live_devs.len()
                    invariant
                        k <= live_devs@.len(),
                        lv == live_views(live_devs@),
                        ms == mounts@.map_values(|m: String| m@),
                        swap_declared == declares_swap(ms),
                        issue_views(issues@) == scanned + swap_issues(lv.take(k as int), ms),
                    decreases live_devs.len() - k,
                {
                    proof {
                        assert(lv.take(k + 1).drop_last() =~= lv.take(k as int));
                        assert(lv.take(k + 1).last() == live_devs@[k as int]@);
                    }
                    let swap = String::from_str("swap");
                    if live_devs[k].fstype == swap && !swap_declared {
                        let ghost before = issues@;
                        issues.push(
                            FstabIssue::MissingSwap { live_swap_uuid: live_devs[k].uuid.clone() },
                        );
                        proof {
                            assert(issue_views(issues@) =~= issue_views(before).push(
                                IssueView::MissingSwap { live_swap_uuid: live_devs@[k as int].uuid@ },
                            ));
                        }
                    }
                    k = k + 1;
                }
                proof {
                    assert(lv.take(live_devs.len() as int) =~= lv);
                }
                Ok(issues)
            },
        }
    }
}

fn declares_swap_exec(ms: &Vec<String>) -> (r: bool)
    ensures
        r == declares_swap(ms@.map_values(|m: String| m@)),
{
    let ghost mv = ms@.map_values(|m: String| m@);
    let none = String::from_str("none");
    let swap = String::from_str("swap");
    let mut i: usize = 0;
    while i < ms.len()
        invariant
            i <= ms.len(),
            mv == ms@.map_values(|m: String| m@),
            none@ == "none"@,
            swap@ == "swap"@,
            forall|j: int| 0 <= j < i ==> !(mv[j] == "none"@ || mv[j] == "swap"@),
        decreases ms.len() - i,
    {
        if ms[i] == none || ms[i] == swap {
            assert(mv[i as int] == ms@[i as int]@);
            return true;
        }
        i = i + 1;
    }
    false
}

} // verus!
