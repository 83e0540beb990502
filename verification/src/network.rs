//! The IPv4 address shown on the welcome screen, read from the output of
//! `ip -4 addr show scope global`.
use vstd::prelude::*;
use crate::text::{
    copy_range, fields, find_char, first_index_of, has_prefix, lines, lines_exec, chars_of,
    split_whitespace, starts_with_str, string_of, trim, trim_exec, views_as, Pat,
};

verus! {

/// An address without its prefix length (`192.168.1.5/24` -> `192.168.1.5`).
pub open spec fn strip_prefix_len(a: Seq<char>) -> Seq<char> {
    match first_index_of(a, '/') {
        Some(i) => a.subrange(0, i),
        None => a,
    }
}

/// The address of the first `inet` line that names one.
pub open spec fn first_inet(ls: Seq<Seq<char>>) -> Option<Seq<char>>
    decreases ls.len(),
{
    if ls.len() == 0 {
        None
    } else {
        let l = trim(ls[0], Pat::Ws);
        let f = fields(l);
        if has_prefix(l, "inet "@) && f.len() > 1 {
            Some(strip_prefix_len(f[1]))
        } else {
            first_inet(ls.drop_first())
        }
    }
}

fn strip_prefix_len_exec(a: &Vec<char>) -> (r: Vec<char>)
    ensures
        r@ == strip_prefix_len(a@),
{
    match find_char(a, '/') {
        Some(i) => {
            proof {
                let j = choose|j: int|
                    0 <= j < a@.len() && a@[j] == '/' && forall|k: int| 0 <= k < j ==> a@[k] != '/';
                assert(j == i) by {
                    if j < i {
                        assert(a@[j] != '/');
                    }
                    if i < j {
                        assert(a@[i as int] != '/');
                    }
                }
            }
            copy_range(a, 0, i)
        },
        None => copy_range(a, 0, a.len()),
    }
}

/// The first global IPv4 address in the output of `ip -4 addr show scope global`.
pub fn ip_from_addr_output(stdout: &str) -> (r: Option<String>)
    ensures
        match first_inet(lines(stdout@)) {
            Some(a) => r matches Some(s) && s@ == a,
            None => r is None,
        },
{
    let v = chars_of(stdout);
    let ls = lines_exec(&v);
    let ghost g = lines(stdout@);
    let mut i: usize = 0;
    proof {
        assert(g.skip(0) =~= g);
    }
    while i < ls.len()
        invariant
            i <= ls.len(),
            views_as(ls@, g),
            g == lines(stdout@),
            first_inet(g) == first_inet(g.skip(i as int)),
        decreases ls.len() - i,
    {
        proof {
            assert(g.skip(i as int)[0] == g[i as int]);
            assert(g.skip(i as int).drop_first() =~= g.skip(i + 1));
        }
        let line = trim_exec(&ls[i], Pat::Ws);
        if starts_with_str(&line, "inet ") {
            let parts = split_whitespace(&line);
            if parts.len() > 1 {
                let ip = strip_prefix_len_exec(&parts[1]);
                return Some(string_of(&ip));
            }
        }
        i = i + 1;
    }
    None
}

} // verus!
