//! Where the installed system is mounted, what is bind-mounted into it, and
//! in which order the mounts below a directory are taken down.
use vstd::prelude::*;
use crate::host::string_seq_views;
use crate::text::{
    chars_of, fields, has_prefix, lines, lines_exec, split_whitespace, starts_with,
    string_of, views_as,
};

verus! {

/// Where the root of the installed system is mounted.
pub open spec fn mount_path() -> Seq<char> {
    "/mnt"@
}

/// Where its EFI system partition is mounted.
pub open spec fn mount_efi_path() -> Seq<char> {
    "/mnt/boot/efi"@
}

/// The kernel filesystems bind-mounted into the installed system, as
/// `(source, target)`, in the order they are mounted.
pub open spec fn spec_bind_mounts() -> Seq<(Seq<char>, Seq<char>)> {
    seq![
        ("/dev"@, "/mnt/dev"@),
        ("/proc"@, "/mnt/proc"@),
        ("/run"@, "/mnt/run"@),
        ("/sys"@, "/mnt/sys"@),
    ]
}

pub fn bind_mounts() -> (r: Vec<(String, String)>)
    ensures
        r@.len() == spec_bind_mounts().len(),
        forall|i: int|
            0 <= i < r@.len() ==> (#[trigger] r@[i]).0@ == spec_bind_mounts()[i].0 && r@[i].1@
                == spec_bind_mounts()[i].1,
{
    let mut r: Vec<(String, String)> = Vec::new();
    r.push((String::from_str("/dev"), String::from_str("/mnt/dev")));
    r.push((String::from_str("/proc"), String::from_str("/mnt/proc")));
    r.push((String::from_str("/run"), String::from_str("/mnt/run")));
    r.push((String::from_str("/sys"), String::from_str("/mnt/sys")));
    r
}

/// The mount points below `dir` that the lines of `/proc/mounts` name, in the
/// order of the table.  A mount point is below `dir` when it starts with `dir`
/// followed by `/`; `dir` itself and a sibling such as `dir2` are not below it.
pub open spec fn submounts_of(ls: Seq<Seq<char>>, dir: Seq<char>) -> Seq<Seq<char>>
    decreases ls.len(),
{
    if ls.len() == 0 {
        Seq::empty()
    } else {
        let prev = submounts_of(ls.drop_last(), dir);
        let f = fields(ls.last());
        if f.len() >= 2 && has_prefix(f[1], dir + "/"@) {
            prev.push(f[1])
        } else {
            prev
        }
    }
}

/// The mount points of length `n`, in their order.
pub open spec fn of_len(ms: Seq<Seq<char>>, n: int) -> Seq<Seq<char>> {
    ms.filter(|m: Seq<char>| m.len() == n)
}

/// The greatest length of a mount point.
pub open spec fn max_len(ms: Seq<Seq<char>>) -> nat
    decreases ms.len(),
{
    if ms.len() == 0 {
        0
    } else {
        let p = max_len(ms.drop_last());
        if ms.last().len() > p {
            ms.last().len()
        } else {
            p
        }
    }
}

/// The mount points of lengths `top` down to `n`: the longest first, and
/// those of one length in their order.
pub open spec fn by_len_from(ms: Seq<Seq<char>>, top: int, n: int) -> Seq<Seq<char>>
    decreases top - n + 1,
{
    if n > top || n < 0 {
        Seq::empty()
    } else {
        by_len_from(ms, top, n + 1) + of_len(ms, n)
    }
}

/// The mount points, deepest (longest) first, the table's order kept among
/// those of one length.
pub open spec fn deepest_first(ms: Seq<Seq<char>>) -> Seq<Seq<char>> {
    by_len_from(ms, max_len(ms) as int, 0)
}

/// The mounts below `dir` in the order in which they are unmounted.
pub open spec fn spec_unmount_order(mounts: Seq<char>, dir: Seq<char>) -> Seq<Seq<char>> {
    deepest_first(submounts_of(lines(mounts), dir))
}

fn submounts_exec(mounts: &str, dir: &str) -> (r: Vec<Vec<char>>)
    ensures
        views_as(r@, submounts_of(lines(mounts@), dir@)),
{
    let v = chars_of(mounts);
    let mut dv = chars_of(dir);
    dv.push('/');
    let ls = lines_exec(&v);
    let ghost g = lines(mounts@);
    proof {
        reveal_strlit("/");
        assert(dv@ =~= dir@ + "/"@);
    }
    let mut r: Vec<Vec<char>> = Vec::new();
    let mut i: usize = 0;
    while i < ls.len()
        invariant
            i <= ls.len(),
            views_as(ls@, g),
            g == lines(mounts@),
            dv@ == dir@ + "/"@,
            views_as(r@, submounts_of(g.take(i as int), dir@)),
        decreases ls.len() - i,
    {
        proof {
            assert(g.take(i + 1).drop_last() =~= g.take(i as int));
            assert(g.take(i + 1).last() == g[i as int]);
        }
        let f = split_whitespace(&ls[i]);
        if f.len() >= 2 && starts_with(&f[1], &dv) {
            let m = f[1].clone();
            proof {
                assert(m@ == f@[1]@);
            }
            r.push(m);
        }
        i = i + 1;
    }
    proof {
        assert(g.take(ls.len() as int) =~= g);
    }
    r
}

fn max_len_exec(ms: &Vec<Vec<char>>) -> (r: usize)
    ensures
        r == max_len(ms@.map_values(|m: Vec<char>| m@)),
{
    let ghost g = ms@.map_values(|m: Vec<char>| m@);
    let mut best: usize = 0;
    let mut i: usize = 0;
    while i < ms.len()
        invariant
            i <= ms.len(),
            g == ms@.map_values(|m: Vec<char>| m@),
            best == max_len(g.take(i as int)),
        decreases ms.len() - i,
    {
        proof {
            assert(g.take(i + 1).drop_last() =~= g.take(i as int));
            assert(g.take(i + 1).last() == ms@[i as int]@);
        }
        if ms[i].len() > best {
            best = ms[i].len();
        }
        i = i + 1;
    }
    proof {
        assert(g.take(ms.len() as int) =~= g);
    }
    best
}

/// The mount points below `dir` that the text of `/proc/mounts` names, in
/// the order in which they are unmounted: the deepest (longest) first, the
/// table's order kept among those of one length.
pub fn submounts_deepest_first(mounts: &str, dir: &str) -> (r: Vec<String>)
    ensures
        string_seq_views(r@) == spec_unmount_order(mounts@, dir@),
{
    let ms = submounts_exec(mounts, dir);
    let ghost g = submounts_of(lines(mounts@), dir@);
    proof {
        assert(ms@.map_values(|m: Vec<char>| m@) =~= g);
    }
    let top = max_len_exec(&ms);
    let mut out: Vec<String> = Vec::new();
    let mut l: usize = top;
    let mut done = false;
    proof {
        assert(string_seq_views(out@) =~= by_len_from(g, top as int, top + 1));
    }
    while !done
        invariant
            views_as(ms@, g),
            top == max_len(g),
            l <= top,
            !done ==> string_seq_views(out@) == by_len_from(g, top as int, l + 1),
            done ==> string_seq_views(out@) == by_len_from(g, top as int, 0),
        decreases l + (if done { 0int } else { 1int }),
    {
        let ghost base = string_seq_views(out@);
        let mut j: usize = 0;
        proof {
            assert(g.take(0).filter(|m: Seq<char>| m.len() == l as int) =~= Seq::<Seq<char>>::empty());
            assert(base + Seq::<Seq<char>>::empty() =~= base);
        }
        while j < ms.len()
            invariant
                j <= ms.len(),
                views_as(ms@, g),
                string_seq_views(out@) == base + g.take(j as int).filter(
                    |m: Seq<char>| m.len() == l as int,
                ),
            decreases ms.len() - j,
        {
            let ghost before = out@;
            proof {
                assert(g.take(j + 1) =~= g.take(j as int).push(g[j as int]));
                g.take(j as int).lemma_filter_push(g[j as int], |m: Seq<char>| m.len() == l as int);
            }
            if ms[j].len() == l {
                out.push(string_of(&ms[j]));
                proof {
                    assert(string_seq_views(out@) =~= string_seq_views(before).push(g[j as int]));
                }
            }
            j = j + 1;
        }
        proof {
            assert(g.take(ms.len() as int) =~= g);
            assert(by_len_from(g, top as int, l as int) == by_len_from(g, top as int, l + 1) + of_len(
                g,
                l as int,
            ));
        }
        if l == 0 {
            done = true;
        } else {
            l = l - 1;
        }
    }
    out
}

} // verus!
