//! Paths as text.
//!
//! A path is a string whose components are separated by `/`. Repeated
//! separators, a trailing separator and components that are `.` (other than
//! a leading one) carry no meaning and are skipped, so `/a//b/./` names the
//! same three components as `/a/b`: the root, `a` and `b`.

use vstd::prelude::*;
use crate::text::{
    extend_range,
    from_chars,
    index_of,
    next_index_of,
    same_text,
    substring,
    to_chars,
    views,
};

verus! {

/// The greatest index below `end` at which `p` holds a separator, or `-1`.
pub open spec fn last_sep(p: Seq<char>, end: int) -> int
    decreases end,
{
    if end <= 0 || end > p.len() {
        -1
    } else if p[end - 1] == '/' {
        end - 1
    } else {
        last_sep(p, end - 1)
    }
}

/// Where the first `end` characters of `p` end once trailing separators and
/// trailing `.` components are dropped. The root and a leading `.` stay.
pub open spec fn trimmed_end(p: Seq<char>, end: int) -> int
    decreases end,
{
    if end <= 0 || end > p.len() {
        0
    } else {
        let s = last_sep(p, end);
        if s == end - 1 {
            if end == 1 {
                1
            } else {
                trimmed_end(p, end - 1)
            }
        } else if s == end - 2 && p[end - 1] == '.' {
            if s < 0 {
                1
            } else {
                trimmed_end(p, end - 1)
            }
        } else {
            end
        }
    }
}

/// The last component of `p` as written: empty for the empty path and for
/// the root.
pub open spec fn last_component(p: Seq<char>) -> Seq<char> {
    let e = trimmed_end(p, p.len() as int);
    p.subrange(last_sep(p, e) + 1, e)
}

/// The name of the file or directory that `p` leads to: its last component,
/// unless that is the root, `.` or `..`.
pub open spec fn file_name_of(p: Seq<char>) -> Option<Seq<char>> {
    let c = last_component(p);
    if c.len() == 0 || c == seq!['.'] || c == seq!['.', '.'] {
        None
    } else {
        Some(c)
    }
}

/// The path without its last component, where it has one and that is not
/// the root.
pub open spec fn parent_of(p: Seq<char>) -> Option<Seq<char>> {
    let e = trimmed_end(p, p.len() as int);
    if last_component(p).len() == 0 {
        None
    } else {
        Some(p.take(trimmed_end(p, last_sep(p, e) + 1)))
    }
}

/// The greatest index at which `name` holds a dot, or `-1`.
pub open spec fn last_dot(name: Seq<char>, end: int) -> int
    decreases end,
{
    if end <= 0 || end > name.len() {
        -1
    } else if name[end - 1] == '.' {
        end - 1
    } else {
        last_dot(name, end - 1)
    }
}

/// The extension of a file name: what follows its last dot, unless the name
/// has no dot or only begins with one.
pub open spec fn name_extension(name: Seq<char>) -> Option<Seq<char>> {
    let d = last_dot(name, name.len() as int);
    if d > 0 {
        Some(name.skip(d + 1))
    } else {
        None
    }
}

/// A file name without its extension.
pub open spec fn name_stem(name: Seq<char>) -> Seq<char> {
    let d = last_dot(name, name.len() as int);
    if d > 0 {
        name.take(d)
    } else {
        name
    }
}

/// The extension of the file that `p` names.
pub open spec fn extension_of(p: Seq<char>) -> Option<Seq<char>> {
    match file_name_of(p) {
        Some(name) => name_extension(name),
        None => None,
    }
}

/// The name of the file that `p` names, without its extension.
pub open spec fn file_stem_of(p: Seq<char>) -> Option<Seq<char>> {
    match file_name_of(p) {
        Some(name) => Some(name_stem(name)),
        None => None,
    }
}

/// The file that `p` names is hidden: its name begins with a dot.
pub open spec fn is_hidden_path(p: Seq<char>) -> bool {
    match file_name_of(p) {
        Some(name) => name[0] == '.',
        None => false,
    }
}

/// `name` seen from the directory `base`: `name` itself where it is
/// absolute, else `base`, a separator where `base` needs one, and `name`.
pub open spec fn joined(base: Seq<char>, name: Seq<char>) -> Seq<char> {
    if name.len() > 0 && name[0] == '/' {
        name
    } else if base.len() == 0 || base.last() == '/' {
        base + name
    } else {
        base + seq!['/'] + name
    }
}

/// The relation between an optional string and the optional text it stands
/// for.
pub open spec fn opt_view(r: Option<String>) -> Option<Seq<char>> {
    match r {
        Some(s) => Some(s@),
        None => None,
    }
}

/// Executable form of [`last_sep`].
pub fn find_last_sep(p: &Vec<char>, end: usize) -> (r: Option<usize>)
    requires
        end <= p.len(),
    ensures
        match r {
            Some(i) => i as int == last_sep(p@, end as int) && i < end,
            None => last_sep(p@, end as int) == -1,
        },
{
    let mut i: usize = end;
    while i > 0
        invariant
            i <= end <= p.len(),
            last_sep(p@, end as int) == last_sep(p@, i as int),
        decreases i,
    {
        if p[i - 1] == '/' {
            return Some(i - 1);
        }
        i -= 1;
    }
    None
}

/// Executable form of [`trimmed_end`].
pub fn trim_end(p: &Vec<char>, end: usize) -> (r: usize)
    requires
        end <= p.len(),
    ensures
        r as int == trimmed_end(p@, end as int),
        r <= end,
{
    let mut e: usize = end;
    while e > 0
        invariant
            e <= end <= p.len(),
            trimmed_end(p@, end as int) == trimmed_end(p@, e as int),
        decreases e,
    {
        let s = find_last_sep(p, e);
        let ends_with_sep = match s {
            Some(i) => e - i == 1,
            None => false,
        };
        let ends_with_dot = p[e - 1] == '.' && match s {
            Some(i) => e - i == 2,
            None => e == 1,
        };
        if ends_with_sep {
            if e == 1 {
                return 1;
            }
            e -= 1;
        } else if ends_with_dot {
            if s.is_none() {
                return 1;
            }
            e -= 1;
        } else {
            return e;
        }
    }
    0
}

/// The bounds of the last component of `p`.
pub fn last_component_bounds(p: &Vec<char>) -> (r: (usize, usize))
    ensures
        r.0 <= r.1 <= p.len(),
        r.1 as int == trimmed_end(p@, p@.len() as int),
        r.0 as int == last_sep(p@, r.1 as int) + 1,
        p@.subrange(r.0 as int, r.1 as int) == last_component(p@),
{
    let e = trim_end(p, p.len());
    let start: usize = match find_last_sep(p, e) {
        Some(i) => i + 1,
        None => 0,
    };
    (start, e)
}

/// The bounds of the file name in `p`, where it has one.
pub fn file_name_bounds(p: &Vec<char>) -> (r: Option<(usize, usize)>)
    ensures
        match r {
            Some((a, b)) => a < b <= p.len() && file_name_of(p@) == Some(
                p@.subrange(a as int, b as int),
            ),
            None => file_name_of(p@) is None,
        },
{
    let (a, b) = last_component_bounds(p);
    let ghost c = p@.subrange(a as int, b as int);
    if a == b {
        return None;
    }
    if b - a == 1 && p[a] == '.' {
        assert(c =~= seq!['.']);
        return None;
    }
    if b - a == 2 && p[a] == '.' && p[a + 1] == '.' {
        assert(c =~= seq!['.', '.']);
        return None;
    }
    assert(c != seq!['.']) by {
        if c == seq!['.'] {
            assert(c.len() == 1 && c[0] == '.');
        }
    }
    assert(c != seq!['.', '.']) by {
        if c == seq!['.', '.'] {
            assert(c.len() == 2 && c[0] == '.' && c[1] == '.');
        }
    }
    Some((a, b))
}

/// The last component of `path`, where that names a file or a directory.
pub fn file_name(path: &str) -> (r: Option<String>)
    ensures
        opt_view(r) == file_name_of(path@),
{
    let p = to_chars(path);
    match file_name_bounds(&p) {
        Some((a, b)) => Some(substring(&p, a, b)),
        None => None,
    }
}

/// Executable form of [`last_dot`] on the part of `p` from `a` up to `b`;
/// the result is an index into `p`.
pub fn find_last_dot(p: &Vec<char>, a: usize, b: usize) -> (r: Option<usize>)
    requires
        a <= b <= p.len(),
    ensures
        match r {
            Some(i) => a <= i < b && i - a == last_dot(
                p@.subrange(a as int, b as int),
                b - a,
            ),
            None => last_dot(p@.subrange(a as int, b as int), b - a) == -1,
        },
{
    let ghost name = p@.subrange(a as int, b as int);
    let mut i: usize = b;
    while i > a
        invariant
            a <= i <= b <= p.len(),
            name == p@.subrange(a as int, b as int),
            last_dot(name, b - a) == last_dot(name, i - a),
        decreases i,
    {
        assert(name[i - 1 - a] == p@[i - 1]);
        if p[i - 1] == '.' {
            return Some(i - 1);
        }
        i -= 1;
    }
    None
}

/// The extension of the file that `path` names, without the dot.
pub fn extension(path: &str) -> (r: Option<String>)
    ensures
        opt_view(r) == extension_of(path@),
{
    let p = to_chars(path);
    match file_name_bounds(&p) {
        Some((a, b)) => {
            let ghost name = p@.subrange(a as int, b as int);
            match find_last_dot(&p, a, b) {
                Some(d) => {
                    if d > a {
                        assert(name.skip(d - a + 1) =~= p@.subrange(d + 1, b as int));
                        Some(substring(&p, d + 1, b))
                    } else {
                        None
                    }
                },
                None => None,
            }
        },
        None => None,
    }
}

/// The name of the file that `path` names, without its extension.
pub fn file_stem(path: &str) -> (r: Option<String>)
    ensures
        opt_view(r) == file_stem_of(path@),
{
    let p = to_chars(path);
    match file_name_bounds(&p) {
        Some((a, b)) => {
            let ghost name = p@.subrange(a as int, b as int);
            match find_last_dot(&p, a, b) {
                Some(d) => {
                    if d > a {
                        assert(name.take(d - a) =~= p@.subrange(a as int, d as int));
                        Some(substring(&p, a, d))
                    } else {
                        Some(substring(&p, a, b))
                    }
                },
                None => Some(substring(&p, a, b)),
            }
        },
        None => None,
    }
}

/// The directory that holds what `path` names.
pub fn parent(path: &str) -> (r: Option<String>)
    ensures
        opt_view(r) == parent_of(path@),
{
    let p = to_chars(path);
    let (a, b) = last_component_bounds(&p);
    if a == b {
        return None;
    }
    let e = trim_end(&p, a);
    assert(p@.take(e as int) =~= p@.subrange(0, e as int));
    Some(substring(&p, 0, e))
}

/// Whether the file that `path` names is hidden.
pub fn is_hidden(path: &str) -> (r: bool)
    ensures
        r == is_hidden_path(path@),
{
    let p = to_chars(path);
    match file_name_bounds(&p) {
        Some((a, b)) => p[a] == '.',
        None => false,
    }
}

/// Resolves `name` against the directory `base`.
pub fn join(base: &str, name: &str) -> (r: String)
    ensures
        r@ == joined(base@, name@),
{
    let b = to_chars(base);
    let n = to_chars(name);
    let mut out: Vec<char> = Vec::new();
    if n.len() > 0 && n[0] == '/' {
        return from_chars(&n);
    }
    extend_range(&mut out, &b, 0, b.len());
    assert(b@.subrange(0, b@.len() as int) =~= b@);
    if b.len() > 0 && b[b.len() - 1] != '/' {
        out.push('/');
    }
    extend_range(&mut out, &n, 0, n.len());
    assert(n@.subrange(0, n@.len() as int) =~= n@);
    assert(out@ =~= joined(b@, n@));
    from_chars(&out)
}

/// The named components of `p` from index `pos` on: the parts between
/// separators, but for empty parts and parts that are `.`.
pub open spec fn parts_from(p: Seq<char>, pos: int) -> Seq<Seq<char>>
    decreases p.len() + 1 - pos,
{
    if pos < 0 || pos >= p.len() {
        Seq::empty()
    } else {
        let e = next_index_of(p, '/', pos);
        let part = p.subrange(pos, e);
        if e < pos || e > p.len() {
            Seq::empty()
        } else if part.len() == 0 || part == seq!['.'] {
            parts_from(p, e + 1)
        } else {
            seq![part] + parts_from(p, e + 1)
        }
    }
}

/// The components of `p`: the root `/` where `p` begins with a separator,
/// or `.` where it begins with that component, and then its named
/// components.
pub open spec fn components(p: Seq<char>) -> Seq<Seq<char>> {
    if p.len() > 0 && p[0] == '/' {
        seq![seq!['/']] + parts_from(p, 1)
    } else if p.len() > 0 && p[0] == '.' && (p.len() == 1 || p[1] == '/') {
        seq![seq!['.']] + parts_from(p, 1)
    } else {
        parts_from(p, 0)
    }
}

/// `path` lies at or below `base`: the components of `base` are the first
/// components of `path`.
pub open spec fn lies_under(path: Seq<char>, base: Seq<char>) -> bool {
    components(base).is_prefix_of(components(path))
}

/// The components of `path`.
pub fn split_components(path: &str) -> (r: Vec<String>)
    ensures
        views(r@) == components(path@),
{
    let p = to_chars(path);
    let mut out: Vec<String> = Vec::new();
    let mut pos: usize = 0;
    assert(views(out@) =~= Seq::<Seq<char>>::empty());
    if p.len() > 0 && p[0] == '/' {
        out.push("/".to_owned());
        proof {
            reveal_strlit("/");
            assert("/"@ =~= seq!['/']);
            assert(views(out@) =~= seq![seq!['/']]);
        }
        pos = 1;
    } else if p.len() > 0 && p[0] == '.' && (p.len() == 1 || p[1] == '/') {
        out.push(".".to_owned());
        proof {
            reveal_strlit(".");
            assert("."@ =~= seq!['.']);
            assert(views(out@) =~= seq![seq!['.']]);
        }
        pos = 1;
    }
    loop
        invariant
            pos <= p.len(),
            p@ == path@,
            components(path@) == views(out@) + parts_from(p@, pos as int),
        decreases p.len() - pos,
    {
        if pos >= p.len() {
            assert(views(out@) + Seq::<Seq<char>>::empty() =~= views(out@));
            return out;
        }
        assert(p@.take(p@.len() as int) =~= p@);
        let e = index_of(&p, '/', pos, p.len());
        let ghost before = views(out@);
        let ghost part = p@.subrange(pos as int, e as int);
        let skip = e == pos || (e - pos == 1 && p[pos] == '.');
        proof {
            if e - pos == 1 && p@[pos as int] == '.' {
                assert(part =~= seq!['.']);
            }
            if part == seq!['.'] {
                assert(part.len() == 1 && part[0] == '.');
            }
        }
        if !skip {
            out.push(substring(&p, pos, e));
            assert(views(out@) =~= before + seq![part]);
            assert(before + (seq![part] + parts_from(p@, e + 1)) =~= (before + seq![part])
                + parts_from(p@, e + 1));
        }
        if e >= p.len() {
            assert(parts_from(p@, e + 1) =~= Seq::<Seq<char>>::empty());
            assert(views(out@) + Seq::<Seq<char>>::empty() =~= views(out@));
            return out;
        }
        pos = e + 1;
    }
}

/// Whether `path` lies at or below the directory `base`, component by
/// component.
pub fn starts_with(path: &str, base: &str) -> (r: bool)
    ensures
        r == lies_under(path@, base@),
{
    let p = split_components(path);
    let b = split_components(base);
    if b.len() > p.len() {
        return false;
    }
    let mut i: usize = 0;
    while i < b.len()
        invariant
            i <= b.len() <= p.len(),
            views(p@) == components(path@),
            views(b@) == components(base@),
            forall|k: int| 0 <= k < i ==> components(base@)[k] == components(path@)[k],
        decreases b.len() - i,
    {
        assert(views(p@)[i as int] == p@[i as int]@);
        assert(views(b@)[i as int] == b@[i as int]@);
        if !same_text(p[i].as_str(), b[i].as_str()) {
            return false;
        }
        i += 1;
    }
    assert(components(base@) =~= components(path@).subrange(0, components(base@).len() as int));
    true
}

/// The first `n` of the components `parts` as a path: with a separator
/// between each two, but none after the root.
pub open spec fn slashed(parts: Seq<Seq<char>>, n: int) -> Seq<char>
    decreases n,
{
    if n <= 0 {
        Seq::empty()
    } else if n == 1 {
        parts[0]
    } else if parts[n - 2] == seq!['/'] {
        slashed(parts, n - 1) + parts[n - 1]
    } else {
        slashed(parts, n - 1) + seq!['/'] + parts[n - 1]
    }
}

/// `path` as seen from `base`: the components of `path` that follow those
/// of `base`, or `path` as it is where it does not lie under `base`.
pub open spec fn relative_path(path: Seq<char>, base: Seq<char>) -> Seq<char> {
    if lies_under(path, base) {
        let rest = components(path).skip(components(base).len() as int);
        slashed(rest, rest.len() as int)
    } else {
        path
    }
}

/// The name of an entry in an archive of what lies under `base`: the path
/// of the entry as seen from `base`, with a separator at the end for a
/// directory.
pub open spec fn entry_name(path: Seq<char>, base: Seq<char>, is_dir: bool) -> Seq<char> {
    if is_dir {
        relative_path(path, base) + seq!['/']
    } else {
        relative_path(path, base)
    }
}

/// `path` as seen from the directory `base`.
pub fn relative_to(path: &str, base: &str) -> (r: String)
    ensures
        r@ == relative_path(path@, base@),
{
    if !starts_with(path, base) {
        return path.to_owned();
    }
    let p = split_components(path);
    let b = split_components(base);
    let ghost rest = components(path@).skip(components(base@).len() as int);
    let mut out: Vec<char> = Vec::new();
    let mut i: usize = b.len();
    while i < p.len()
        invariant
            b.len() <= i <= p.len(),
            views(p@) == components(path@),
            views(b@) == components(base@),
            rest == components(path@).skip(components(base@).len() as int),
            out@ == slashed(rest, i - b.len()),
        decreases p.len() - i,
    {
        if i > b.len() {
            let after_root = same_text(p[i - 1].as_str(), "/");
            proof {
                reveal_strlit("/");
                assert("/"@ =~= seq!['/']);
                assert(rest[i - b.len() - 1] == views(p@)[i - 1]);
            }
            if !after_root {
                out.push('/');
            }
        }
        let part = to_chars(p[i].as_str());
        extend_range(&mut out, &part, 0, part.len());
        assert(part@.subrange(0, part@.len() as int) =~= part@);
        assert(rest[i - b.len()] == views(p@)[i as int]);
        assert(out@ =~= slashed(rest, i - b.len() + 1));
        i += 1;
    }
    from_chars(&out)
}

/// The name of an entry in an archive of what lies under `base`.
pub fn archive_entry_name(path: &str, base: &str, is_dir: bool) -> (r: String)
    ensures
        r@ == entry_name(path@, base@, is_dir),
{
    let mut name = to_chars(relative_to(path, base).as_str());
    if is_dir {
        name.push('/');
    }
    from_chars(&name)
}

} // verus!
