//! Reading track file references out of a cue sheet.
//!
//! A cue sheet is a line-oriented text sidecar of a raw binary disc
//! image. The only directive this library needs is `FILE`: each such line
//! names one file holding track data. The grammar accepted here follows
//! the common form: the keyword is matched ASCII case-insensitively at
//! the start of a line (after optional blanks), and the file name after
//! it is either quoted — with `"` or `'`, up to the matching closing
//! quote — or a bare word running to the next blank. A `FILE` line with
//! no name, or with an unclosed quote, names nothing. Everything else on
//! the line (the format word that follows the name) is ignored, as are
//! all other directives.

use vstd::prelude::*;
use vstd::string::*;
use crate::names::{char_matches_ci, matches_ci};

verus! {

/// Blank characters inside a cue sheet line (a carriage return counts,
/// so Windows line endings need no special case).
pub open spec fn is_cue_ws(c: char) -> bool {
    c == ' ' || c == '\t' || c == '\r'
}

/// The first index at or after `from` holding a non-blank character,
/// or the length of `s` if there is none.
pub open spec fn first_non_ws(s: Seq<char>, from: int) -> int
    decreases s.len() - from,
{
    if from < 0 || from >= s.len() {
        s.len() as int
    } else if is_cue_ws(s[from]) {
        first_non_ws(s, from + 1)
    } else {
        from
    }
}

/// The first index at or after `from` holding a blank character,
/// or the length of `s` if there is none.
pub open spec fn first_ws(s: Seq<char>, from: int) -> int
    decreases s.len() - from,
{
    if from < 0 || from >= s.len() {
        s.len() as int
    } else if is_cue_ws(s[from]) {
        from
    } else {
        first_ws(s, from + 1)
    }
}

/// The first index at or after `from` holding `c`, or the length of `s`
/// if there is none.
pub open spec fn find_char(s: Seq<char>, c: char, from: int) -> int
    decreases s.len() - from,
{
    if from < 0 || from >= s.len() {
        s.len() as int
    } else if s[from] == c {
        from
    } else {
        find_char(s, c, from + 1)
    }
}

/// The file name a single cue sheet line contributes, if the line is a
/// well-formed `FILE` directive.
pub open spec fn line_file_name(line: Seq<char>) -> Option<Seq<char>> {
    let i = first_non_ws(line, 0);
    if i + 4 >= line.len() {
        None
    } else if !(matches_ci(line[i], 'f') && matches_ci(line[i + 1], 'i') && matches_ci(
        line[i + 2],
        'l',
    ) && matches_ci(line[i + 3], 'e')) {
        None
    } else if !is_cue_ws(line[i + 4]) {
        None
    } else {
        let j = first_non_ws(line, i + 4);
        if j >= line.len() {
            None
        } else if line[j] == '"' || line[j] == '\'' {
            let k = find_char(line, line[j], j + 1);
            if k >= line.len() {
                None
            } else {
                Some(line.subrange(j + 1, k))
            }
        } else {
            Some(line.subrange(j, first_ws(line, j)))
        }
    }
}

/// The file names of every `FILE` directive at or after position `pos`
/// (a line start) in the cue sheet text, in order.
pub open spec fn spec_track_files(text: Seq<char>, pos: int) -> Seq<Seq<char>>
    decreases text.len() - pos,
{
    if pos < 0 || pos >= text.len() {
        seq![]
    } else {
        let end = find_char(text, '\n', pos);
        let line = text.subrange(pos, end);
        let next = if end < pos {
            pos + 1
        } else if end + 1 > text.len() {
            text.len() as int
        } else {
            end + 1
        };
        let rest = spec_track_files(text, next);
        match line_file_name(line) {
            Some(f) => seq![f] + rest,
            None => rest,
        }
    }
}

fn skip_ws(s: &str, from: usize) -> (r: usize)
    requires
        from <= s@.len(),
    ensures
        from <= r <= s@.len(),
        r == first_non_ws(s@, from as int),
{
    let n = s.unicode_len();
    let mut i = from;
    while i < n
        invariant
            from <= i <= n,
            n == s@.len(),
            first_non_ws(s@, from as int) == first_non_ws(s@, i as int),
        decreases n - i,
    {
        let c = s.get_char(i);
        if !(c == ' ' || c == '\t' || c == '\r') {
            return i;
        }
        i += 1;
    }
    n
}

fn scan_ws(s: &str, from: usize) -> (r: usize)
    requires
        from <= s@.len(),
    ensures
        from <= r <= s@.len(),
        r == first_ws(s@, from as int),
{
    let n = s.unicode_len();
    let mut i = from;
    while i < n
        invariant
            from <= i <= n,
            n == s@.len(),
            first_ws(s@, from as int) == first_ws(s@, i as int),
        decreases n - i,
    {
        let c = s.get_char(i);
        if c == ' ' || c == '\t' || c == '\r' {
            return i;
        }
        i += 1;
    }
    n
}

fn scan_char(s: &str, c: char, from: usize) -> (r: usize)
    requires
        from <= s@.len(),
    ensures
        from <= r <= s@.len(),
        r == find_char(s@, c, from as int),
{
    let n = s.unicode_len();
    let mut i = from;
    while i < n
        invariant
            from <= i <= n,
            n == s@.len(),
            find_char(s@, c, from as int) == find_char(s@, c, i as int),
        decreases n - i,
    {
        if s.get_char(i) == c {
            return i;
        }
        i += 1;
    }
    n
}

/// Parse one line of a cue sheet; the file name if it is a `FILE` directive.
fn parse_file_line(line: &str) -> (r: Option<String>)
    ensures
        match r {
            Some(f) => line_file_name(line@) == Some(f@),
            None => line_file_name(line@) is None,
        },
{
    let n = line.unicode_len();
    let i = skip_ws(line, 0);
    if n - i < 5 {
        return None;
    }
    let kw = char_matches_ci(line.get_char(i), 'f') && char_matches_ci(line.get_char(i + 1), 'i')
        && char_matches_ci(line.get_char(i + 2), 'l') && char_matches_ci(
        line.get_char(i + 3),
        'e',
    );
    if !kw {
        return None;
    }
    let sep = line.get_char(i + 4);
    if !(sep == ' ' || sep == '\t' || sep == '\r') {
        return None;
    }
    let j = skip_ws(line, i + 4);
    if j >= n {
        return None;
    }
    let q = line.get_char(j);
    if q == '"' || q == '\'' {
        let k = scan_char(line, q, j + 1);
        if k >= n {
            None
        } else {
            Some(line.substring_char(j + 1, k).to_owned())
        }
    } else {
        let k = scan_ws(line, j);
        Some(line.substring_char(j, k).to_owned())
    }
}

/// Every file a cue sheet references through its `FILE` directives, in
/// the order the directives appear. A sheet without such directives
/// yields an empty list.
pub fn cue_track_files(text: &str) -> (r: Vec<String>)
    ensures
        r.deep_view() == spec_track_files(text@, 0),
{
    let n = text.unicode_len();
    let mut out: Vec<String> = Vec::new();
    let mut pos: usize = 0;
    proof {
        assert(out.deep_view() + spec_track_files(text@, 0) =~= spec_track_files(text@, 0));
    }
    while pos < n
        invariant
            pos <= n,
            n == text@.len(),
            spec_track_files(text@, 0) == out.deep_view() + spec_track_files(text@, pos as int),
        decreases n - pos,
    {
        let end = scan_char(text, '\n', pos);
        let line = text.substring_char(pos, end);
        let ghost before = out.deep_view();
        match parse_file_line(line) {
            Some(f) => {
                out.push(f);
                proof {
                    assert(out.deep_view() =~= before.push(
                        line_file_name(text@.subrange(pos as int, end as int)).unwrap(),
                    ));
                }
            },
            None => {},
        }
        let next = if end < n {
            end + 1
        } else {
            n
        };
        proof {
            assert(spec_track_files(text@, 0) =~= out.deep_view() + spec_track_files(
                text@,
                next as int,
            ));
        }
        pos = next;
    }
    proof {
        assert(spec_track_files(text@, 0) =~= out.deep_view());
    }
    out
}

} // verus!
