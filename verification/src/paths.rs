//! Slash-separated path rules: segment splitting, prefix stripping under a
//! root and joining, as used for phone paths and local destinations.
use vstd::prelude::*;

use crate::text::{chars_of, string_from_chars};

verus! {

/// Whether a path is absolute (starts with `/`).
pub open spec fn is_abs(p: Seq<char>) -> bool {
    p.len() > 0 && p[0] == '/'
}

/// Add a finished segment, ignoring empty and `.` segments.
pub open spec fn flush(done: Seq<Seq<char>>, cur: Seq<char>) -> Seq<Seq<char>> {
    if cur.len() == 0 || cur == seq!['.'] {
        done
    } else {
        done.push(cur)
    }
}

/// Segments finished so far and the segment being read, after reading `p`.
pub open spec fn split_acc(p: Seq<char>) -> (Seq<Seq<char>>, Seq<char>)
    decreases p.len(),
{
    if p.len() == 0 {
        (Seq::empty(), Seq::empty())
    } else {
        let (done, cur) = split_acc(p.drop_last());
        if p.last() == '/' {
            (flush(done, cur), Seq::empty())
        } else {
            (done, cur.push(p.last()))
        }
    }
}

/// The segments of a path: its `/`-separated parts, without empty and `.`
/// parts (so repeated and trailing separators do not matter).
pub open spec fn path_segments(p: Seq<char>) -> Seq<Seq<char>> {
    flush(split_acc(p).0, split_acc(p).1)
}

/// Segments joined by single `/` separators.
pub open spec fn join_segments(s: Seq<Seq<char>>) -> Seq<char>
    decreases s.len(),
{
    if s.len() == 0 {
        Seq::empty()
    } else if s.len() == 1 {
        s[0]
    } else {
        join_segments(s.drop_last()) + seq!['/'] + s.last()
    }
}

/// `base` joined with a relative path: a separator is inserted unless `base`
/// is empty or already ends with one.
pub open spec fn join_path(base: Seq<char>, rel: Seq<char>) -> Seq<char> {
    if base.len() == 0 {
        rel
    } else if base.last() == '/' {
        base + rel
    } else {
        base + seq!['/'] + rel
    }
}

/// Whether any segment is `..`.
pub open spec fn has_parent_segment(s: Seq<Seq<char>>) -> bool {
    exists|i: int| 0 <= i < s.len() && s[i] == seq!['.', '.']
}

/// Split a path into segments (see `path_segments`).
pub fn segments(p: &Vec<char>) -> (r: Vec<Vec<char>>)
    ensures
        r@.map_values(|v: Vec<char>| v@) == path_segments(p@),
{
    let mut done: Vec<Vec<char>> = Vec::new();
    let mut cur: Vec<char> = Vec::new();
    let mut i: usize = 0;
    while i < p.len()
        invariant
            i <= p@.len(),
            (done@.map_values(|v: Vec<char>| v@), cur@) == split_acc(p@.subrange(0, i as int)),
        decreases p@.len() - i,
    {
        let c = p[i];
        assert(p@.subrange(0, i as int + 1).drop_last() =~= p@.subrange(0, i as int));
        if c == '/' {
            let ghost d = done@;
            if cur.len() == 0 || (cur.len() == 1 && cur[0] == '.') {
                proof {
                    if cur@.len() == 1 {
                        assert(cur@ =~= seq!['.']);
                    }
                }
            } else {
                proof {
                    assert(cur@ != seq!['.']) by {
                        if cur@ == seq!['.'] {
                            assert(cur@[0] == '.');
                        }
                    }
                }
                done.push(cur);
                assert(done@.map_values(|v: Vec<char>| v@) =~= d.map_values(|v: Vec<char>| v@).push(
                    cur@,
                ));
            }
            cur = Vec::new();
        } else {
            cur.push(c);
        }
        i = i + 1;
    }
    assert(p@.subrange(0, p@.len() as int) =~= p@);
    let ghost d = done@;
    if cur.len() == 0 || (cur.len() == 1 && cur[0] == '.') {
        proof {
            if cur@.len() == 1 {
                assert(cur@ =~= seq!['.']);
            }
        }
    } else {
        proof {
            assert(cur@ != seq!['.']) by {
                if cur@ == seq!['.'] {
                    assert(cur@[0] == '.');
                }
            }
        }
        done.push(cur);
        assert(done@.map_values(|v: Vec<char>| v@) =~= d.map_values(|v: Vec<char>| v@).push(cur@));
    }
    done
}

/// Join segments `s[from..]` with `/` onto `out`.
pub fn push_joined(out: &mut Vec<char>, s: &Vec<Vec<char>>, from: usize)
    requires
        from <= s@.len(),
    ensures
        final(out)@ == old(out)@ + join_segments(
            s@.map_values(|v: Vec<char>| v@).subrange(from as int, s@.len() as int),
        ),
{
    let ghost sv = s@.map_values(|v: Vec<char>| v@);
    let mut i: usize = from;
    while i < s.len()
        invariant
            from <= i <= s@.len(),
            sv == s@.map_values(|v: Vec<char>| v@),
            out@ == old(out)@ + join_segments(sv.subrange(from as int, i as int)),
        decreases s@.len() - i,
    {
        let ghost before = out@;
        if i > from {
            out.push('/');
        }
        crate::text::append_chars(out, &s[i]);
        proof {
            let a = sv.subrange(from as int, i as int);
            let b = sv.subrange(from as int, i as int + 1);
            assert(b.drop_last() =~= a);
            assert(b.last() == s@[i as int]@);
            if i > from {
                assert(out@ =~= old(out)@ + (join_segments(a) + seq!['/'] + b.last()));
            } else {
                assert(a.len() == 0);
                assert(out@ =~= old(out)@ + b[0]);
            }
        }
        i = i + 1;
    }
}

/// Append a relative path to `base` (see `join_path`).
pub fn push_join_base(out: &mut Vec<char>, base: &Vec<char>)
    requires
        old(out)@.len() == 0,
    ensures
        base@.len() == 0 ==> final(out)@.len() == 0,
        base@.len() > 0 && base@.last() == '/' ==> final(out)@ == base@,
        base@.len() > 0 && base@.last() != '/' ==> final(out)@ == base@ + seq!['/'],
{
    crate::text::append_chars(out, base);
    if base.len() > 0 && base[base.len() - 1] != '/' {
        out.push('/');
    }
}

/// Whether segments `s[from..]` include a `..`.
pub fn any_parent_segment(s: &Vec<Vec<char>>, from: usize) -> (r: bool)
    requires
        from <= s@.len(),
    ensures
        r == has_parent_segment(s@.map_values(|v: Vec<char>| v@).subrange(from as int, s@.len() as int)),
{
    let ghost sv = s@.map_values(|v: Vec<char>| v@).subrange(from as int, s@.len() as int);
    let mut i: usize = from;
    while i < s.len()
        invariant
            from <= i <= s@.len(),
            sv == s@.map_values(|v: Vec<char>| v@).subrange(from as int, s@.len() as int),
            forall|j: int| 0 <= j < i - from ==> sv[j] != seq!['.', '.'],
        decreases s@.len() - i,
    {
        if s[i].len() == 2 && s[i][0] == '.' && s[i][1] == '.' {
            assert(sv[i - from] =~= seq!['.', '.']);
            return true;
        }
        assert(sv[i - from] == s@[i as int]@);
        assert(sv[i - from] != seq!['.', '.']) by {
            if sv[i - from] == seq!['.', '.'] {
                assert(s@[i as int]@[0] == '.');
            }
        }
        i = i + 1;
    }
    false
}

/// Whether `s[0..r.len()]` equals `r`.
pub fn segments_start_with(s: &Vec<Vec<char>>, r: &Vec<Vec<char>>) -> (b: bool)
    ensures
        b == (r@.len() <= s@.len() && s@.map_values(|v: Vec<char>| v@).subrange(0, r@.len() as int)
            == r@.map_values(|v: Vec<char>| v@)),
{
    let ghost sv = s@.map_values(|v: Vec<char>| v@);
    let ghost rv = r@.map_values(|v: Vec<char>| v@);
    if r.len() > s.len() {
        return false;
    }
    let mut i: usize = 0;
    while i < r.len()
        invariant
            i <= r@.len() <= s@.len(),
            sv == s@.map_values(|v: Vec<char>| v@),
            rv == r@.map_values(|v: Vec<char>| v@),
            forall|j: int| 0 <= j < i ==> sv[j] == rv[j],
        decreases r@.len() - i,
    {
        let a = string_from_chars(s[i].as_slice());
        let b = string_from_chars(r[i].as_slice());
        if !crate::text::str_eq(a.as_str(), b.as_str()) {
            assert(sv[i as int] != rv[i as int]);
            assert(sv.subrange(0, r@.len() as int)[i as int] == sv[i as int]);
            return false;
        }
        i = i + 1;
    }
    assert(sv.subrange(0, r@.len() as int) =~= rv);
    true
}

/// The directory prefix a path keeps when its last part is replaced: the
/// root for absolute paths, a leading `./` for paths that start with one.
pub open spec fn path_lead(p: Seq<char>) -> Seq<char> {
    if is_abs(p) {
        seq!['/']
    } else if p.len() >= 2 && p[0] == '.' && p[1] == '/' {
        seq!['.', '/']
    } else {
        Seq::empty()
    }
}

/// The file name of a path: its last segment, unless there is none or it
/// is `..`.
pub open spec fn file_name_of(p: Seq<char>) -> Option<Seq<char>> {
    let segs = path_segments(p);
    if segs.len() > 0 && segs.last() != seq!['.', '.'] {
        Some(segs.last())
    } else {
        None
    }
}

/// The directory of a path with a file name, in normal form: its lead and
/// the segments before the last.
pub open spec fn parent_dir_of(p: Seq<char>) -> Seq<char> {
    path_lead(p) + join_segments(path_segments(p).drop_last())
}

/// The directory and file name of a path (see `parent_dir_of`,
/// `file_name_of`); `None` when it has no file name.
pub fn parent_and_name(p: &str) -> (r: Option<(Vec<char>, Vec<char>)>)
    ensures
        r is None <==> file_name_of(p@) is None,
        r matches Some((dir, name)) ==> file_name_of(p@) == Some(name@) && dir@ == parent_dir_of(p@),
{
    let cs = chars_of(p);
    let segs = segments(&cs);
    let ghost sv = segs@.map_values(|v: Vec<char>| v@);
    let n = segs.len();
    if n == 0 {
        return None;
    }
    assert(sv.last() == segs@[n - 1]@);
    if segs[n - 1].len() == 2 && segs[n - 1][0] == '.' && segs[n - 1][1] == '.' {
        assert(segs@[n - 1]@ =~= seq!['.', '.']);
        return None;
    }
    assert(sv.last() != seq!['.', '.']) by {
        if segs@[n - 1]@ == seq!['.', '.'] {
            assert(segs@[n - 1]@[0] == '.' && segs@[n - 1]@[1] == '.');
        }
    }
    let mut dir: Vec<char> = Vec::new();
    if cs.len() > 0 && cs[0] == '/' {
        dir.push('/');
    } else if cs.len() >= 2 && cs[0] == '.' && cs[1] == '/' {
        dir.push('.');
        dir.push('/');
    }
    assert(dir@ =~= path_lead(p@));
    let ghost lead = dir@;
    let mut parts: Vec<Vec<char>> = Vec::new();
    let mut i: usize = 0;
    while i + 1 < n
        invariant
            n == segs@.len(),
            n > 0,
            i <= n - 1,
            parts@.map_values(|v: Vec<char>| v@) == sv.subrange(0, i as int),
            sv == segs@.map_values(|v: Vec<char>| v@),
        decreases n - i,
    {
        let ghost before = parts@;
        let c = crate::text::copy_chars(&segs[i]);
        assert(c@ == sv[i as int]);
        parts.push(c);
        assert(parts@ == before.push(c));
        assert(parts@.map_values(|v: Vec<char>| v@) =~= before.map_values(|v: Vec<char>| v@).push(c@));
        assert(sv.subrange(0, i as int + 1) =~= sv.subrange(0, i as int).push(sv[i as int]));
        i = i + 1;
    }
    assert(sv.subrange(0, n - 1) =~= sv.drop_last());
    push_joined(&mut dir, &parts, 0);
    assert(parts@.map_values(|v: Vec<char>| v@).subrange(0, parts@.len() as int) =~= parts@.map_values(
        |v: Vec<char>| v@,
    ));
    let name = crate::text::copy_chars(&segs[n - 1]);
    assert(dir@ == lead + join_segments(sv.drop_last()));
    Some((dir, name))
}

/// A path without its trailing `/` characters.
pub open spec fn trim_slashes(p: Seq<char>) -> Seq<char>
    decreases p.len(),
{
    if p.len() > 0 && p.last() == '/' {
        trim_slashes(p.drop_last())
    } else {
        p
    }
}

/// Characters of `p` without its trailing `/` characters.
pub fn trim_trailing_slashes(p: &str) -> (r: Vec<char>)
    ensures
        r@ == trim_slashes(p@),
{
    let mut cs = chars_of(p);
    while cs.len() > 0 && cs[cs.len() - 1] == '/'
        invariant
            trim_slashes(cs@) == trim_slashes(p@),
        decreases cs@.len(),
    {
        let ghost before = cs@;
        cs.pop();
        assert(cs@ =~= before.drop_last());
    }
    cs
}

} // verus!
