//! Path and name handling over plain strings.
//!
//! Paths are modelled as strings with `/` separators. All matching on
//! extensions is ASCII case-insensitive, which for the extensions this
//! library cares about coincides with Unicode lowercasing.

use vstd::prelude::*;
use vstd::string::*;

verus! {

/// `c` matches the lower-case ASCII pattern character `l`, ignoring ASCII case.
pub open spec fn matches_ci(c: char, l: char) -> bool {
    c == l || (65 <= c as int <= 90 && c as int + 32 == l as int)
}

/// `s` ends with `suf`, ASCII case-insensitively (`suf` is a lower-case pattern).
pub open spec fn spec_has_suffix_ci(s: Seq<char>, suf: Seq<char>) -> bool {
    s.len() >= suf.len() && (forall|i: int|
        0 <= i < suf.len() ==> matches_ci(s[s.len() - suf.len() + i], #[trigger] suf[i]))
}

/// Does `c` match the lower-case ASCII pattern character `l`?
pub fn char_matches_ci(c: char, l: char) -> (r: bool)
    ensures
        r == matches_ci(c, l),
{
    c == l || (c as u32 >= 65 && c as u32 <= 90 && (c as u32) + 32 == (l as u32))
}

/// Does `s` end with the lower-case pattern `suf`, ignoring ASCII case?
pub fn has_suffix_ci(s: &str, suf: &str) -> (r: bool)
    ensures
        r == spec_has_suffix_ci(s@, suf@),
{
    let n = s.unicode_len();
    let k = suf.unicode_len();
    if n < k {
        return false;
    }
    let mut i: usize = 0;
    while i < k
        invariant
            i <= k <= n,
            n == s@.len(),
            k == suf@.len(),
            forall|j: int| 0 <= j < i ==> matches_ci(s@[n - k + j], #[trigger] suf@[j]),
        decreases k - i,
    {
        let c = s.get_char(n - k + i);
        let l = suf.get_char(i);
        if !char_matches_ci(c, l) {
            assert(!matches_ci(s@[n - k + i], suf@[i as int]));
            return false;
        }
        i += 1;
    }
    true
}

/// `s` with its last `k` characters replaced by `ext`.
pub fn replace_suffix(s: &str, k: usize, ext: &str) -> (r: String)
    requires
        k <= s@.len(),
    ensures
        r@ == s@.subrange(0, s@.len() - k) + ext@,
{
    let n = s.unicode_len();
    let base = s.substring_char(0, n - k);
    let mut out = base.to_owned();
    out.append(ext);
    out
}

/// Index of the last `/` in `s`, or `-1` if there is none.
pub open spec fn last_sep(s: Seq<char>) -> int
    decreases s.len(),
{
    if s.len() == 0 {
        -1
    } else if s[s.len() - 1] == '/' {
        s.len() - 1
    } else {
        last_sep(s.drop_last())
    }
}

pub proof fn lemma_last_sep_bounds(s: Seq<char>)
    ensures
        -1 <= last_sep(s) < s.len(),
        last_sep(s) >= 0 ==> s[last_sep(s)] == '/',
        forall|j: int| last_sep(s) < j < s.len() ==> s[j] != '/',
    decreases s.len(),
{
    if s.len() > 0 && s[s.len() - 1] != '/' {
        lemma_last_sep_bounds(s.drop_last());
        assert forall|j: int| last_sep(s) < j < s.len() implies s[j] != '/' by {
            if j < s.len() - 1 {
                assert(s.drop_last()[j] != '/');
            }
        }
    }
}

fn find_last_sep(s: &str) -> (r: Option<usize>)
    ensures
        match r {
            Some(i) => last_sep(s@) == i as int,
            None => last_sep(s@) == -1,
        },
{
    let n = s.unicode_len();
    proof {
        assert(s@.take(n as int) =~= s@);
    }
    let mut i: usize = n;
    while i > 0
        invariant
            i <= n,
            n == s@.len(),
            last_sep(s@) == last_sep(s@.take(i as int)),
        decreases i,
    {
        let c = s.get_char(i - 1);
        proof {
            assert(s@.take(i as int).drop_last() =~= s@.take(i - 1));
            assert(s@.take(i as int).last() == s@[i - 1]);
        }
        if c == '/' {
            return Some(i - 1);
        }
        i -= 1;
    }
    proof {
        assert(s@.take(0) =~= Seq::<char>::empty());
    }
    None
}

/// The name after the last `/` (the whole string if there is no `/`).
pub open spec fn spec_file_name(s: Seq<char>) -> Seq<char> {
    s.subrange(last_sep(s) + 1, s.len() as int)
}

/// The directory part before the last `/`: empty if there is no `/`,
/// `/` alone for an entry directly under the filesystem root.
pub open spec fn spec_parent(s: Seq<char>) -> Seq<char> {
    if last_sep(s) == -1 {
        Seq::empty()
    } else if last_sep(s) == 0 {
        seq!['/']
    } else {
        s.subrange(0, last_sep(s))
    }
}

/// The name after the last `/` of `s`.
pub fn file_name(s: &str) -> (r: String)
    ensures
        r@ == spec_file_name(s@),
{
    proof {
        lemma_last_sep_bounds(s@);
    }
    let n = s.unicode_len();
    match find_last_sep(s) {
        Some(i) => s.substring_char(i + 1, n).to_owned(),
        None => s.to_owned(),
    }
}

/// The directory part of `s`.
pub fn parent_dir(s: &str) -> (r: String)
    ensures
        r@ == spec_parent(s@),
{
    proof {
        lemma_last_sep_bounds(s@);
    }
    match find_last_sep(s) {
        Some(i) => {
            if i == 0 {
                let r = String::from_str("/");
                proof {
                    reveal_strlit("/");
                    assert(r@ =~= seq!['/']);
                }
                r
            } else {
                s.substring_char(0, i).to_owned()
            }
        },
        None => String::new(),
    }
}

/// `dir` and `name` joined with a `/` (just `name` if `dir` is empty; no
/// doubled separator if `dir` already ends with one).
pub open spec fn spec_join(dir: Seq<char>, name: Seq<char>) -> Seq<char> {
    if dir.len() == 0 {
        name
    } else if dir[dir.len() - 1] == '/' {
        dir + name
    } else {
        dir + seq!['/'] + name
    }
}

/// Join a directory and a file name into one path.
pub fn join_path(dir: &str, name: &str) -> (r: String)
    ensures
        r@ == spec_join(dir@, name@),
{
    let n = dir.unicode_len();
    if n == 0 {
        return name.to_owned();
    }
    let c = dir.get_char(n - 1);
    if c == '/' {
        let mut out = dir.to_owned();
        out.append(name);
        out
    } else {
        let mut out = dir.to_owned();
        out.append("/");
        out.append(name);
        proof {
            reveal_strlit("/");
            assert(out@ =~= dir@ + seq!['/'] + name@);
        }
        out
    }
}

/// Index of the last `.` in `s`, or `-1` if there is none.
pub open spec fn last_dot(s: Seq<char>) -> int
    decreases s.len(),
{
    if s.len() == 0 {
        -1
    } else if s[s.len() - 1] == '.' {
        s.len() - 1
    } else {
        last_dot(s.drop_last())
    }
}

/// The file name without its extension: everything before the last `.`,
/// except that a lone leading `.` never counts as an extension separator.
pub open spec fn spec_stem(name: Seq<char>) -> Seq<char> {
    if last_dot(name) <= 0 {
        name
    } else {
        name.subrange(0, last_dot(name))
    }
}

proof fn lemma_last_dot_bounds(s: Seq<char>)
    ensures
        -1 <= last_dot(s) < s.len(),
    decreases s.len(),
{
    if s.len() > 0 && s[s.len() - 1] != '.' {
        lemma_last_dot_bounds(s.drop_last());
    }
}

fn find_last_dot(s: &str) -> (r: Option<usize>)
    ensures
        match r {
            Some(i) => last_dot(s@) == i as int,
            None => last_dot(s@) == -1,
        },
{
    let n = s.unicode_len();
    proof {
        assert(s@.take(n as int) =~= s@);
    }
    let mut i: usize = n;
    while i > 0
        invariant
            i <= n,
            n == s@.len(),
            last_dot(s@) == last_dot(s@.take(i as int)),
        decreases i,
    {
        let c = s.get_char(i - 1);
        proof {
            assert(s@.take(i as int).drop_last() =~= s@.take(i - 1));
            assert(s@.take(i as int).last() == s@[i - 1]);
        }
        if c == '.' {
            return Some(i - 1);
        }
        i -= 1;
    }
    proof {
        assert(s@.take(0) =~= Seq::<char>::empty());
    }
    None
}

/// The stem of a file name (the name without its last extension).
pub fn stem(name: &str) -> (r: String)
    ensures
        r@ == spec_stem(name@),
{
    proof {
        lemma_last_dot_bounds(name@);
    }
    match find_last_dot(name) {
        Some(i) => {
            if i == 0 {
                name.to_owned()
            } else {
                name.substring_char(0, i).to_owned()
            }
        },
        None => name.to_owned(),
    }
}

/// `d` lies at or below the directory `root` (component-wise, not a bare
/// string prefix: `root/ab` is not inside `root/a`).
pub open spec fn spec_inside(d: Seq<char>, root: Seq<char>) -> bool {
    d == root || (root.len() > 0 && root[root.len() - 1] == '/' && d.len() >= root.len()
        && d.subrange(0, root.len() as int) == root) || (d.len() > root.len() && d.subrange(
        0,
        root.len() as int,
    ) == root && d[root.len() as int] == '/')
}

/// Is the directory `d` at or below `root`?
pub fn inside(d: &str, root: &str) -> (r: bool)
    ensures
        r == spec_inside(d@, root@),
{
    let nd = d.unicode_len();
    let nr = root.unicode_len();
    if nd < nr {
        proof {
            assert(d@ != root@) by {
                assert(d@.len() != root@.len());
            }
        }
        return false;
    }
    let prefix = d.substring_char(0, nr);
    let eq_prefix = substrings_equal(prefix, root);
    if !eq_prefix {
        proof {
            if d@ == root@ {
                assert(d@.subrange(0, nr as int) =~= root@);
            }
        }
        return false;
    }
    if nd == nr {
        proof {
            assert(d@.subrange(0, nr as int) =~= d@);
        }
        return true;
    }
    if nr == 0 {
        let first = d.get_char(0);
        return first == '/';
    }
    let last_root = root.get_char(nr - 1);
    if last_root == '/' {
        return true;
    }
    let next = d.get_char(nr);
    next == '/'
}

/// Character-wise equality of two string slices.
fn substrings_equal(a: &str, b: &str) -> (r: bool)
    ensures
        r == (a@ == b@),
{
    let na = a.unicode_len();
    let nb = b.unicode_len();
    if na != nb {
        return false;
    }
    let mut i: usize = 0;
    while i < na
        invariant
            i <= na,
            na == a@.len(),
            na == b@.len(),
            forall|j: int| 0 <= j < i ==> a@[j] == b@[j],
        decreases na - i,
    {
        if a.get_char(i) != b.get_char(i) {
            return false;
        }
        i += 1;
    }
    proof {
        assert(a@ =~= b@);
    }
    true
}

} // verus!
