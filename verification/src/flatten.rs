//! Flattening: after a successful conversion, collapse the chain of
//! ancestor directories that now hold nothing but the output.
//!
//! The walk goes upward from the output's parent while each ancestor is
//! strictly inside the root boundary and holds exactly one entry, and
//! stops at the first ancestor failing either test — or at the root, so
//! nothing outside the boundary is ever touched. The surrounding binary
//! gathers the entry counts, performs the one rename and the directory
//! removals the plan lists, and abandons the rest on any I/O failure.

use vstd::prelude::*;
use vstd::string::*;
use crate::names::{
    file_name, inside, join_path, parent_dir, spec_file_name, spec_inside, spec_join, spec_parent,
};

verus! {

/// `d` is a proper descendant of the directory `root`.
pub open spec fn strictly_inside(d: Seq<char>, root: Seq<char>) -> bool {
    spec_inside(d, root) && d != root
}

/// The ancestors of `file` that are strictly inside `root`, innermost
/// first, starting at `file`'s parent and stopping before the root.
pub open spec fn spec_chain(file: Seq<char>, root: Seq<char>) -> Seq<Seq<char>>
    decreases file.len(),
{
    let p = spec_parent(file);
    if p.len() < file.len() && strictly_inside(p, root) {
        seq![p] + spec_chain(p, root)
    } else {
        seq![]
    }
}

/// The index of the first `false` in `s` at or after `from`, or the
/// length of `s` if every entry is `true`.
pub open spec fn first_false(s: Seq<bool>, from: int) -> int
    decreases s.len() - from,
{
    if from < 0 || from >= s.len() {
        s.len() as int
    } else if !s[from] {
        from
    } else {
        first_false(s, from + 1)
    }
}

/// The directory the output lands in when the first `k` ancestors of the
/// chain collapse: the next chain entry, or past the end of the chain the
/// parent of its last entry (the root, or the first ancestor outside it).
pub open spec fn spec_flatten_dest_dir(file: Seq<char>, root: Seq<char>, k: int) -> Seq<char> {
    let chain = spec_chain(file, root);
    if k < chain.len() {
        chain[k]
    } else if chain.len() > 0 {
        spec_parent(chain[chain.len() - 1])
    } else {
        spec_parent(file)
    }
}

/// The ancestors of `file` strictly inside `root`, innermost first. The
/// caller probes each for its entry count, stopping early if it likes:
/// only the flags up to the first non-singleton matter to the plan.
pub fn ancestor_chain(file: &String, root: &String) -> (c: Vec<String>)
    ensures
        c.deep_view() == spec_chain(file@, root@),
{
    let mut out: Vec<String> = Vec::new();
    let mut cur: String = file.clone();
    proof {
        assert(out.deep_view() + spec_chain(cur@, root@) =~= spec_chain(file@, root@));
    }
    loop
        invariant
            spec_chain(file@, root@) == out.deep_view() + spec_chain(cur@, root@),
        ensures
            spec_chain(file@, root@) == out.deep_view(),
        decreases cur@.len(),
    {
        let p = parent_dir(cur.as_str());
        let shorter = p.as_str().unicode_len() < cur.as_str().unicode_len();
        if !(shorter && inside(p.as_str(), root.as_str()) && !(p == *root)) {
            proof {
                assert(spec_chain(cur@, root@) =~= Seq::<Seq<char>>::empty());
                assert(out.deep_view() + spec_chain(cur@, root@) =~= out.deep_view());
            }
            break;
        }
        let ghost before = out.deep_view();
        out.push(p.clone());
        proof {
            assert(out.deep_view() =~= before.push(spec_parent(cur@)));
            assert(spec_chain(cur@, root@) =~= seq![spec_parent(cur@)] + spec_chain(p@, root@));
            assert(out.deep_view() + spec_chain(p@, root@) =~= before + spec_chain(cur@, root@));
        }
        cur = p;
    }
    out
}

/// The moves that flatten one output: rename it to `dest`, then remove
/// the listed directories, innermost first.
pub struct FlattenPlan {
    pub dest: String,
    pub remove: Vec<String>,
}

/// Plan the flatten for `file` under the boundary `root`. `chain` is the
/// ancestor chain of [`ancestor_chain`]; `singleton[i]` says whether
/// `chain[i]` currently holds exactly one entry. `None` means no move:
/// the output's own parent already fails a test. Otherwise the output
/// moves to the first ancestor that stops the walk — never outside the
/// root — and exactly the collapsed ancestors are removed, innermost
/// first.
pub fn plan_flatten(
    file: &String,
    root: &String,
    chain: &Vec<String>,
    singleton: &Vec<bool>,
) -> (r: Option<FlattenPlan>)
    requires
        chain.deep_view() == spec_chain(file@, root@),
        singleton@.len() == chain@.len(),
    ensures
        match r {
            None => first_false(singleton@, 0) == 0,
            Some(plan) => {
                let k = first_false(singleton@, 0);
                &&& k > 0
                &&& plan.remove.deep_view() == spec_chain(file@, root@).take(k)
                &&& plan.dest@ == spec_join(
                    spec_flatten_dest_dir(file@, root@, k),
                    spec_file_name(file@),
                )
            },
        },
{
    let n = singleton.len();
    let mut k: usize = 0;
    while k < n && singleton[k]
        invariant
            k <= n,
            n == singleton@.len(),
            first_false(singleton@, 0) == first_false(singleton@, k as int),
        decreases n - k,
    {
        k += 1;
    }
    if k == 0 {
        return None;
    }
    let dest_dir = if k < chain.len() {
        chain[k].clone()
    } else {
        parent_dir(chain[chain.len() - 1].as_str())
    };
    let name = file_name(file.as_str());
    let dest = join_path(dest_dir.as_str(), name.as_str());
    let mut remove: Vec<String> = Vec::new();
    let mut i: usize = 0;
    while i < k
        invariant
            i <= k,
            k <= chain@.len(),
            remove.deep_view() =~= chain.deep_view().take(i as int),
        decreases k - i,
    {
        let ghost before = remove.deep_view();
        remove.push(chain[i].clone());
        proof {
            assert(remove.deep_view() =~= before.push(chain.deep_view()[i as int]));
            assert(chain.deep_view().take(i + 1) =~= chain.deep_view().take(i as int).push(
                chain.deep_view()[i as int],
            ));
        }
        i += 1;
    }
    Some(FlattenPlan { dest, remove })
}

} // verus!
