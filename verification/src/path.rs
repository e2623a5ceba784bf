//! Unix paths as sequences of components, the way `std::path::Path` reads them.

use vstd::prelude::*;

use crate::text::{chars_eq, chars_eq_str, chars_of, copy_chars, runs, split_runs, Separator};

verus! {

/// The component that stands for the root directory.
pub open spec fn root_component() -> Seq<char> {
    seq!['/']
}

/// The component that stands for a leading `.`.
pub open spec fn cur_dir_component() -> Seq<char> {
    seq!['.']
}

/// The parent-directory component `..`.
pub open spec fn parent_dir_component() -> Seq<char> {
    seq!['.', '.']
}

/// `rs` without its `.` entries.
pub open spec fn drop_dots(rs: Seq<Seq<char>>) -> Seq<Seq<char>>
    decreases rs.len(),
{
    if rs.len() == 0 {
        seq![]
    } else {
        let rest = drop_dots(rs.drop_last());
        if rs.last() == cur_dir_component() {
            rest
        } else {
            rest.push(rs.last())
        }
    }
}

/// The components of path `p`: the root (written `/`) or a leading `.` if the
/// path has one, then its non-empty segments between `/` separators other than
/// `.`. Repeated separators and a trailing separator add nothing.
pub open spec fn path_components(p: Seq<char>) -> Seq<Seq<char>> {
    let normal = drop_dots(runs(p, Separator::Char('/')));
    if p.len() > 0 && p[0] == '/' {
        seq![root_component()] + normal
    } else if p.len() > 0 && p[0] == '.' && (p.len() == 1 || p[1] == '/') {
        seq![cur_dir_component()] + normal
    } else {
        normal
    }
}

/// The final component of `p` when it names a file or directory (not the
/// root, a lone `.`, or `..`), as `Path::file_name` returns it.
pub open spec fn file_name(p: Seq<char>) -> Option<Seq<char>> {
    let c = path_components(p);
    if c.len() > 0 && c.last() != root_component() && c.last() != cur_dir_component() && c.last()
        != parent_dir_component() {
        Some(c.last())
    } else {
        None
    }
}

/// Whether the components of `base` are a prefix of those of `p`, as
/// `Path::starts_with` decides.
pub open spec fn path_starts_with(p: Seq<char>, base: Seq<char>) -> bool {
    let a = path_components(p);
    let b = path_components(base);
    b.len() <= a.len() && a.take(b.len() as int) == b
}

/// The components of `p`; see [`path_components`].
pub fn components(p: &str) -> (r: Vec<Vec<char>>)
    ensures
        r.deep_view() == path_components(p@),
{
    let cs = chars_of(p);
    let segs = split_runs(cs.as_slice(), Separator::Char('/'));
    let mut out: Vec<Vec<char>> = Vec::new();
    let ghost prefix: Seq<Seq<char>> = if cs@.len() > 0 && cs@[0] == '/' {
        seq![root_component()]
    } else if cs@.len() > 0 && cs@[0] == '.' && (cs@.len() == 1 || cs@[1] == '/') {
        seq![cur_dir_component()]
    } else {
        seq![]
    };
    if cs.len() > 0 && cs[0] == '/' {
        let mut root: Vec<char> = Vec::new();
        root.push('/');
        assert(root@ =~= root_component());
        assert(root.deep_view() =~= root@);
        out.push(root);
        assert(out.deep_view() =~= seq![root_component()]);
    } else if cs.len() > 0 && cs[0] == '.' && (cs.len() == 1 || cs[1] == '/') {
        let mut dot: Vec<char> = Vec::new();
        dot.push('.');
        assert(dot@ =~= cur_dir_component());
        assert(dot.deep_view() =~= dot@);
        out.push(dot);
        assert(out.deep_view() =~= seq![cur_dir_component()]);
    }
    assert(out.deep_view() =~= prefix);
    let mut i: usize = 0;
    assert(segs.deep_view().take(0) =~= Seq::<Seq<char>>::empty());
    assert(prefix + drop_dots(Seq::<Seq<char>>::empty()) =~= prefix);
    while i < segs.len()
        invariant
            0 <= i <= segs@.len(),
            segs.deep_view() == runs(p@, Separator::Char('/')),
            out.deep_view() == prefix + drop_dots(segs.deep_view().take(i as int)),
        decreases segs.len() - i,
    {
        let ghost before = out.deep_view();
        let seg = &segs[i];
        let mut dot: Vec<char> = Vec::new();
        dot.push('.');
        assert(dot@ =~= cur_dir_component());
        assert(segs.deep_view().take(i + 1).drop_last() =~= segs.deep_view().take(i as int));
        assert(segs.deep_view()[i as int] == seg@);
        if !chars_eq(seg.as_slice(), dot.as_slice()) {
            let copy = copy_chars(seg.as_slice());
            assert(copy.deep_view() =~= copy@);
            out.push(copy);
            assert(out.deep_view() =~= before.push(seg@));
        }
        assert(out.deep_view() =~= prefix + drop_dots(segs.deep_view().take(i + 1)));
        i = i + 1;
    }
    assert(segs.deep_view().take(segs@.len() as int) =~= segs.deep_view());
    out
}

/// The final component of `p`, if it names a file or directory.
pub fn path_file_name(p: &str) -> (r: Option<Vec<char>>)
    ensures
        r is Some <==> file_name(p@) is Some,
        r matches Some(v) ==> file_name(p@) == Some(v@),
{
    let c = components(p);
    if c.len() == 0 {
        return None;
    }
    let last = &c[c.len() - 1];
    assert(c.deep_view().last() == last@);
    proof {
        reveal_strlit("/");
        reveal_strlit(".");
        reveal_strlit("..");
        assert("/"@ =~= root_component());
        assert("."@ =~= cur_dir_component());
        assert(".."@ =~= parent_dir_component());
    }
    if chars_eq_str(last.as_slice(), "/") || chars_eq_str(last.as_slice(), ".") || chars_eq_str(
        last.as_slice(),
        "..",
    ) {
        return None;
    }
    Some(copy_chars(last.as_slice()))
}

/// Whether `base` is a component-wise prefix of `p`.
pub fn starts_with_path(p: &str, base: &str) -> (r: bool)
    ensures
        r == path_starts_with(p@, base@),
{
    let a = components(p);
    let b = components(base);
    if b.len() > a.len() {
        return false;
    }
    let mut i: usize = 0;
    while i < b.len()
        invariant
            0 <= i <= b@.len() <= a@.len(),
            a.deep_view() == path_components(p@),
            b.deep_view() == path_components(base@),
            forall|k: int| 0 <= k < i ==> a.deep_view()[k] == b.deep_view()[k],
        decreases b.len() - i,
    {
        assert(a.deep_view()[i as int] == a[i as int]@);
        assert(b.deep_view()[i as int] == b[i as int]@);
        if !chars_eq(a[i].as_slice(), b[i].as_slice()) {
            assert(a.deep_view().take(b@.len() as int)[i as int] != b.deep_view()[i as int]);
            return false;
        }
        i = i + 1;
    }
    assert(a.deep_view().take(b@.len() as int) =~= b.deep_view());
    true
}

} // verus!
