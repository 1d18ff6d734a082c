//! Paths compared the way `std::path::Path` compares them: component by component, so that
//! `a//b`, `a/./b` and `a/b/` are the same path, and the parent of a path.

use vstd::prelude::*;

use crate::paths::{
    body_start, body_start_exec, extension_dot, file_name, join_path,
    lemma_last_index_in_range, path_joined, segment_start, segment_start_exec, trimmed_end,
    trimmed_end_exec,
};
use crate::text::{chars_of, push_all, split_at_char, string_from_range};

verus! {

/// A component of a path on Unix.
pub enum PathComponent {
    RootDir,
    CurDir,
    ParentDir,
    Normal(Seq<char>),
}

/// `before` followed by the component that the segment `s` gives: an empty or `.` segment
/// gives none, `..` the parent component, any other a name.
pub open spec fn segment_step(before: Seq<PathComponent>, s: Seq<char>) -> Seq<PathComponent> {
    if s.len() == 0 || s == seq!['.'] {
        before
    } else if s == seq!['.', '.'] {
        before.push(PathComponent::ParentDir)
    } else {
        before.push(PathComponent::Normal(s))
    }
}

/// The components that the segments `segs` between separators give.
pub open spec fn segment_components(segs: Seq<Seq<char>>) -> Seq<PathComponent>
    decreases segs.len(),
{
    if segs.len() == 0 {
        seq![]
    } else {
        segment_step(segment_components(segs.drop_last()), segs.last())
    }
}

/// The components of `p`, as `Path::components` gives them: the root, or a leading `.` of a
/// relative path, then the components of the segments after it.
pub open spec fn components(p: Seq<char>) -> Seq<PathComponent> {
    let first: Seq<PathComponent> = if p.len() > 0 && p[0] == '/' {
        seq![PathComponent::RootDir]
    } else if body_start(p) == 1 {
        seq![PathComponent::CurDir]
    } else {
        seq![]
    };
    first + segment_components(split_at_char(p.skip(body_start(p)), '/'))
}

/// `a` comes before `b` in lexicographic order of characters (which is also the order of
/// their UTF-8 bytes).
pub open spec fn chars_before(a: Seq<char>, b: Seq<char>) -> bool
    decreases a.len(),
{
    if a.len() == 0 {
        b.len() > 0
    } else if b.len() == 0 {
        false
    } else if a[0] != b[0] {
        a[0] < b[0]
    } else {
        chars_before(a.drop_first(), b.drop_first())
    }
}

/// The rank of a component's kind in the order of `std::path::Component`.
pub open spec fn component_rank(c: PathComponent) -> int {
    match c {
        PathComponent::RootDir => 0,
        PathComponent::CurDir => 1,
        PathComponent::ParentDir => 2,
        PathComponent::Normal(_) => 3,
    }
}

/// Component `a` comes before component `b`.
pub open spec fn component_before(a: PathComponent, b: PathComponent) -> bool {
    match (a, b) {
        (PathComponent::Normal(x), PathComponent::Normal(y)) => chars_before(x, y),
        _ => component_rank(a) < component_rank(b),
    }
}

/// The component sequence `a` comes before `b`, in lexicographic order.
pub open spec fn components_before(a: Seq<PathComponent>, b: Seq<PathComponent>) -> bool
    decreases a.len(),
{
    if a.len() == 0 {
        b.len() > 0
    } else if b.len() == 0 {
        false
    } else if a[0] != b[0] {
        component_before(a[0], b[0])
    } else {
        components_before(a.drop_first(), b.drop_first())
    }
}

/// Path `a` comes before path `b`, as `Path` orders them.
pub open spec fn path_before(a: Seq<char>, b: Seq<char>) -> bool {
    components_before(components(a), components(b))
}

/// Paths `a` and `b` are the same path, as `Path` compares them.
pub open spec fn same_path(a: Seq<char>, b: Seq<char>) -> bool {
    components(a) == components(b)
}

proof fn lemma_chars_before_irreflexive(a: Seq<char>)
    ensures
        !chars_before(a, a),
    decreases a.len(),
{
    if a.len() > 0 {
        lemma_chars_before_irreflexive(a.drop_first());
    }
}

proof fn lemma_chars_before_total(a: Seq<char>, b: Seq<char>)
    ensures
        a != b ==> chars_before(a, b) || chars_before(b, a),
    decreases a.len(),
{
    if a.len() == 0 {
        if b.len() == 0 {
            assert(a =~= b);
        }
    } else if b.len() > 0 && a[0] == b[0] {
        lemma_chars_before_total(a.drop_first(), b.drop_first());
        if a.drop_first() == b.drop_first() {
            assert(a =~= seq![a[0]] + a.drop_first());
            assert(b =~= seq![b[0]] + b.drop_first());
        }
    }
}

proof fn lemma_chars_before_asymmetric(a: Seq<char>, b: Seq<char>)
    ensures
        chars_before(a, b) ==> !chars_before(b, a),
    decreases a.len(),
{
    if a.len() > 0 && b.len() > 0 && a[0] == b[0] {
        lemma_chars_before_asymmetric(a.drop_first(), b.drop_first());
    }
}

proof fn lemma_chars_before_transitive(a: Seq<char>, b: Seq<char>, c: Seq<char>)
    ensures
        chars_before(a, b) && chars_before(b, c) ==> chars_before(a, c),
    decreases a.len(),
{
    if a.len() > 0 && b.len() > 0 && c.len() > 0 {
        lemma_chars_before_transitive(a.drop_first(), b.drop_first(), c.drop_first());
    }
}

/// Character sequences are totally ordered by `chars_before`.
pub proof fn lemma_chars_before_order(a: Seq<char>, b: Seq<char>, c: Seq<char>)
    ensures
        !chars_before(a, a),
        a != b ==> chars_before(a, b) || chars_before(b, a),
        chars_before(a, b) ==> !chars_before(b, a),
        chars_before(a, b) && chars_before(b, c) ==> chars_before(a, c),
{
    lemma_chars_before_irreflexive(a);
    lemma_chars_before_total(a, b);
    lemma_chars_before_asymmetric(a, b);
    lemma_chars_before_transitive(a, b, c);
}

proof fn lemma_component_before_order(a: PathComponent, b: PathComponent, c: PathComponent)
    ensures
        !component_before(a, a),
        a != b ==> component_before(a, b) || component_before(b, a),
        component_before(a, b) ==> !component_before(b, a),
        component_before(a, b) && component_before(b, c) ==> component_before(a, c),
{
    match (a, b, c) {
        (PathComponent::Normal(x), PathComponent::Normal(y), PathComponent::Normal(z)) => {
            lemma_chars_before_order(x, y, z);
        },
        (PathComponent::Normal(x), PathComponent::Normal(y), _) => {
            lemma_chars_before_order(x, y, x);
        },
        (PathComponent::Normal(x), _, _) => {
            lemma_chars_before_order(x, x, x);
        },
        _ => {},
    }
}

proof fn lemma_components_before_irreflexive(a: Seq<PathComponent>)
    ensures
        !components_before(a, a),
    decreases a.len(),
{
    if a.len() > 0 {
        lemma_components_before_irreflexive(a.drop_first());
    }
}

proof fn lemma_components_before_total(a: Seq<PathComponent>, b: Seq<PathComponent>)
    ensures
        a != b ==> components_before(a, b) || components_before(b, a),
    decreases a.len(),
{
    if a.len() == 0 {
        if b.len() == 0 {
            assert(a =~= b);
        }
    } else if b.len() > 0 {
        if a[0] == b[0] {
            lemma_components_before_total(a.drop_first(), b.drop_first());
            if a.drop_first() == b.drop_first() {
                assert(a =~= seq![a[0]] + a.drop_first());
                assert(b =~= seq![b[0]] + b.drop_first());
            }
        } else {
            lemma_component_before_order(a[0], b[0], a[0]);
        }
    }
}

proof fn lemma_components_before_asymmetric(a: Seq<PathComponent>, b: Seq<PathComponent>)
    ensures
        components_before(a, b) ==> !components_before(b, a),
    decreases a.len(),
{
    if a.len() > 0 && b.len() > 0 {
        if a[0] == b[0] {
            lemma_components_before_asymmetric(a.drop_first(), b.drop_first());
        } else {
            lemma_component_before_order(a[0], b[0], a[0]);
        }
    }
}

proof fn lemma_components_before_transitive(
    a: Seq<PathComponent>,
    b: Seq<PathComponent>,
    c: Seq<PathComponent>,
)
    ensures
        components_before(a, b) && components_before(b, c) ==> components_before(a, c),
    decreases a.len(),
{
    if a.len() > 0 && b.len() > 0 && c.len() > 0 {
        lemma_components_before_transitive(a.drop_first(), b.drop_first(), c.drop_first());
        lemma_component_before_order(a[0], b[0], c[0]);
        lemma_component_before_order(b[0], c[0], a[0]);
        lemma_component_before_order(c[0], a[0], b[0]);
    }
}

proof fn lemma_components_before_order(
    a: Seq<PathComponent>,
    b: Seq<PathComponent>,
    c: Seq<PathComponent>,
)
    ensures
        !components_before(a, a),
        a != b ==> components_before(a, b) || components_before(b, a),
        components_before(a, b) ==> !components_before(b, a),
        components_before(a, b) && components_before(b, c) ==> components_before(a, c),
{
    lemma_components_before_irreflexive(a);
    lemma_components_before_total(a, b);
    lemma_components_before_asymmetric(a, b);
    lemma_components_before_transitive(a, b, c);
}

/// Paths are totally ordered: no path comes before itself, of two different paths one comes
/// first, and the order is transitive.
pub proof fn lemma_path_order(a: Seq<char>, b: Seq<char>, c: Seq<char>)
    ensures
        !path_before(a, a),
        !same_path(a, b) ==> path_before(a, b) || path_before(b, a),
        path_before(a, b) ==> !path_before(b, a) && !same_path(a, b),
        path_before(a, b) && path_before(b, c) ==> path_before(a, c),
        same_path(a, b) ==> !path_before(a, b),
{
    lemma_components_before_order(components(a), components(b), components(c));
    lemma_components_before_order(components(a), components(a), components(a));
}

/// A component of a path, as the library computes it.
pub enum Component {
    RootDir,
    CurDir,
    ParentDir,
    Normal(Vec<char>),
}

impl Component {
    /// The component this stands for.
    pub open spec fn model(self) -> PathComponent {
        match self {
            Component::RootDir => PathComponent::RootDir,
            Component::CurDir => PathComponent::CurDir,
            Component::ParentDir => PathComponent::ParentDir,
            Component::Normal(v) => PathComponent::Normal(v@),
        }
    }
}

/// The components that `cs` stand for.
pub open spec fn models(cs: Seq<Component>) -> Seq<PathComponent> {
    cs.map_values(|c: Component| c.model())
}

fn push_segment(out: &mut Vec<Component>, seg: Vec<char>)
    ensures
        models(final(out)@) == segment_step(models(old(out)@), seg@),
{
    let ghost before = models(out@);
    let n = seg.len();
    if n == 0 || (n == 1 && seg[0] == '.') {
        proof {
            if n == 1 {
                assert(seg@ =~= seq!['.']);
            }
        }
    } else if n == 2 && seg[0] == '.' && seg[1] == '.' {
        assert(seg@ =~= seq!['.', '.']);
        out.push(Component::ParentDir);
        assert(models(out@) =~= before.push(PathComponent::ParentDir));
    } else {
        proof {
            if seg@ == seq!['.'] {
                assert(seg@[0] == '.');
            }
            if seg@ == seq!['.', '.'] {
                assert(seg@[0] == '.' && seg@[1] == '.');
            }
        }
        let ghost sv = seg@;
        out.push(Component::Normal(seg));
        assert(models(out@) =~= before.push(PathComponent::Normal(sv)));
    }
}

/// The components of `path`.
pub fn components_of(path: &str) -> (r: Vec<Component>)
    ensures
        models(r@) == components(path@),
{
    let p = chars_of(path);
    let b = body_start_exec(&p);
    let mut first: Vec<Component> = Vec::new();
    if p.len() > 0 && p[0] == '/' {
        first.push(Component::RootDir);
    } else if b == 1 {
        first.push(Component::CurDir);
    }
    let ghost first_model = models(first@);
    let ghost rest = p@.skip(b as int);
    let mut body: Vec<Component> = Vec::new();
    let mut current: Vec<char> = Vec::new();
    let mut i: usize = b;
    while i < p.len()
        invariant
            b <= i <= p.len(),
            rest == p@.skip(b as int),
            ({
                let parts = split_at_char(rest.take(i - b), '/');
                &&& parts.len() >= 1
                &&& models(body@) == segment_components(parts.drop_last())
                &&& current@ == parts.last()
            }),
        decreases p.len() - i,
    {
        let ghost parts = split_at_char(rest.take(i - b), '/');
        assert(rest.take(i + 1 - b).drop_last() =~= rest.take(i - b));
        assert(rest.take(i + 1 - b).last() == p@[i as int]);
        if p[i] == '/' {
            let mut seg: Vec<char> = Vec::new();
            std::mem::swap(&mut seg, &mut current);
            push_segment(&mut body, seg);
            let ghost next = split_at_char(rest.take(i + 1 - b), '/');
            assert(next == parts.push(seq![]));
            assert(next.drop_last() =~= parts);
            assert(parts =~= parts.drop_last().push(parts.last()));
        } else {
            current.push(p[i]);
            let ghost next = split_at_char(rest.take(i + 1 - b), '/');
            assert(next == parts.update(parts.len() - 1, parts.last().push(p@[i as int])));
            assert(next.drop_last() =~= parts.drop_last());
        }
        i += 1;
    }
    let ghost parts = split_at_char(rest.take(i - b), '/');
    assert(rest.take(i - b) =~= rest);
    assert(parts =~= parts.drop_last().push(parts.last()));
    push_segment(&mut body, current);
    let ghost body_model = models(body@);
    assert(body_model == segment_components(parts));
    let mut out = first;
    out.append(&mut body);
    assert(models(out@) =~= first_model + body_model);
    out
}

/// Where one path stands relative to another.
#[derive(Debug, PartialEq, Eq, Structural, Clone, Copy)]
pub enum PathOrder {
    Before,
    Same,
    After,
}

fn component_order(a: &Component, b: &Component) -> (r: PathOrder)
    ensures
        r == PathOrder::Same <==> a.model() == b.model(),
        r == PathOrder::Before <==> component_before(a.model(), b.model()),
        r == PathOrder::After <==> component_before(b.model(), a.model()),
{
    proof {
        lemma_component_before_order(a.model(), b.model(), a.model());
    }
    match (a, b) {
        (Component::Normal(x), Component::Normal(y)) => chars_order(x, y),
        _ => {
            let ra: u8 = match a {
                Component::RootDir => 0,
                Component::CurDir => 1,
                Component::ParentDir => 2,
                Component::Normal(_) => 3,
            };
            let rb: u8 = match b {
                Component::RootDir => 0,
                Component::CurDir => 1,
                Component::ParentDir => 2,
                Component::Normal(_) => 3,
            };
            if ra < rb {
                PathOrder::Before
            } else if ra == rb {
                PathOrder::Same
            } else {
                PathOrder::After
            }
        },
    }
}

fn chars_order(x: &Vec<char>, y: &Vec<char>) -> (r: PathOrder)
    ensures
        r == PathOrder::Same <==> x@ == y@,
        r == PathOrder::Before <==> chars_before(x@, y@),
        r == PathOrder::After <==> chars_before(y@, x@),
{
    proof {
        lemma_chars_before_order(x@, y@, x@);
    }
    let mut i: usize = 0;
    assert(x@.skip(0) =~= x@);
    assert(y@.skip(0) =~= y@);
    loop
        invariant
            i <= x.len(),
            i <= y.len(),
            x@.take(i as int) == y@.take(i as int),
            chars_before(x@, y@) == chars_before(x@.skip(i as int), y@.skip(i as int)),
            chars_before(y@, x@) == chars_before(y@.skip(i as int), x@.skip(i as int)),
        decreases x.len() - i,
    {
        if i == x.len() || i == y.len() {
            if i == x.len() && i == y.len() {
                assert(x@ =~= x@.take(i as int));
                assert(y@ =~= y@.take(i as int));
                return PathOrder::Same;
            } else if i == x.len() {
                assert(x@ != y@) by {
                    assert(x@.len() != y@.len());
                }
                return PathOrder::Before;
            } else {
                assert(x@ != y@) by {
                    assert(x@.len() != y@.len());
                }
                return PathOrder::After;
            }
        }
        if x[i] != y[i] {
            assert(x@ != y@) by {
                assert(x@[i as int] != y@[i as int]);
            }
            if x[i] < y[i] {
                return PathOrder::Before;
            } else {
                return PathOrder::After;
            }
        }
        assert(x@.skip(i as int).drop_first() =~= x@.skip(i + 1));
        assert(y@.skip(i as int).drop_first() =~= y@.skip(i + 1));
        assert(x@.take(i + 1) =~= x@.take(i as int).push(x@[i as int]));
        assert(y@.take(i + 1) =~= y@.take(i as int).push(y@[i as int]));
        i += 1;
    }
}

/// Where path `a` stands relative to path `b`, as `Path` orders them.
pub fn path_order(a: &str, b: &str) -> (r: PathOrder)
    ensures
        r == PathOrder::Same <==> same_path(a@, b@),
        r == PathOrder::Before <==> path_before(a@, b@),
        r == PathOrder::After <==> path_before(b@, a@),
{
    let ca = components_of(a);
    let cb = components_of(b);
    proof {
        lemma_path_order(a@, b@, a@);
    }
    let ghost ma = models(ca@);
    let ghost mb = models(cb@);
    let mut i: usize = 0;
    assert(ma.skip(0) =~= ma);
    assert(mb.skip(0) =~= mb);
    loop
        invariant
            i <= ca.len(),
            i <= cb.len(),
            ma == models(ca@),
            mb == models(cb@),
            ma == components(a@),
            mb == components(b@),
            ma.take(i as int) == mb.take(i as int),
            components_before(ma, mb) == components_before(ma.skip(i as int), mb.skip(i as int)),
            components_before(mb, ma) == components_before(mb.skip(i as int), ma.skip(i as int)),
        decreases ca.len() - i,
    {
        proof {
            lemma_path_order(a@, b@, a@);
        }
        if i == ca.len() || i == cb.len() {
            if i == ca.len() && i == cb.len() {
                assert(ma.len() == ca.len());
                assert(mb.len() == cb.len());
                assert(ma =~= ma.take(i as int));
                assert(mb =~= mb.take(i as int));
                return PathOrder::Same;
            } else if i == ca.len() {
                assert(ma != mb) by {
                    assert(ma.len() != mb.len());
                }
                return PathOrder::Before;
            } else {
                assert(ma != mb) by {
                    assert(ma.len() != mb.len());
                }
                return PathOrder::After;
            }
        }
        let o = component_order(&ca[i], &cb[i]);
        assert(ma[i as int] == ca@[i as int].model());
        assert(mb[i as int] == cb@[i as int].model());
        match o {
            PathOrder::Same => {},
            _ => {
                assert(ma != mb) by {
                    assert(ma[i as int] != mb[i as int]);
                }
                return o;
            },
        }
        assert(ma.skip(i as int).drop_first() =~= ma.skip(i + 1));
        assert(mb.skip(i as int).drop_first() =~= mb.skip(i + 1));
        assert(ma.take(i + 1) =~= ma.take(i as int).push(ma[i as int]));
        assert(mb.take(i + 1) =~= mb.take(i as int).push(mb[i as int]));
        i += 1;
    }
}

/// The parent of `p`, as `Path::parent` gives it: `p` without its last component and the
/// separators and `.` components before it. A path that is only a root, or empty, has none;
/// a lone leading `.` has the empty path as parent.
pub open spec fn parent_path(p: Seq<char>) -> Option<Seq<char>> {
    let b = body_start(p);
    let e = trimmed_end(p, b, p.len() as int);
    if e > b {
        let s = segment_start(p, b, e);
        let cut = if s > b {
            s - 1
        } else {
            b
        };
        Some(p.take(trimmed_end(p, b, cut)))
    } else if b == 1 && p[0] == '.' {
        Some(seq![])
    } else {
        None
    }
}

/// The parent of `path`, if it has one.
pub fn parent_of(path: &str) -> (r: Option<String>)
    ensures
        parent_path(path@) == (match r {
            Some(s) => Some(s@),
            None => None,
        }),
{
    let p = chars_of(path);
    let b = body_start_exec(&p);
    let e = trimmed_end_exec(&p, b, p.len());
    if e > b {
        let s = segment_start_exec(&p, b, e);
        let cut = if s > b {
            s - 1
        } else {
            b
        };
        let t = trimmed_end_exec(&p, b, cut);
        let r = string_from_range(&p, 0, t);
        assert(p@.subrange(0, t as int) =~= p@.take(t as int));
        Some(r)
    } else if b == 1 && p[0] == '.' {
        Some(String::new())
    } else {
        None
    }
}

/// Where the file stem of `p` ends, if `p` has a file name.
pub open spec fn stem_end(p: Seq<char>) -> Option<int> {
    let b = body_start(p);
    let e = trimmed_end(p, b, p.len() as int);
    if e <= b {
        None
    } else {
        let s = segment_start(p, b, e);
        let name = p.subrange(s, e);
        if name == seq!['.', '.'] {
            None
        } else {
            match extension_dot(name) {
                Some(d) => Some(s + d),
                None => Some(e),
            }
        }
    }
}

/// `p` with the extension `ext`, as `PathBuf::set_extension` gives it: everything after the
/// file stem is replaced by `.` and `ext` (by nothing when `ext` is empty); a path without a
/// file name is left as it is.
pub open spec fn with_extension(p: Seq<char>, ext: Seq<char>) -> Seq<char> {
    match stem_end(p) {
        Some(k) => if ext.len() == 0 {
            p.take(k)
        } else {
            p.take(k) + seq!['.'] + ext
        },
        None => p,
    }
}

/// `p` with the extension `json`.
pub open spec fn with_json_extension(p: Seq<char>) -> Seq<char> {
    with_extension(p, "json"@)
}

/// `p` with its file name replaced by `name`, as `Path::with_file_name` gives it: `name` is
/// joined onto the parent, or onto `p` itself when it has no file name.
pub open spec fn with_file_name(p: Seq<char>, name: Seq<char>) -> Seq<char> {
    let base = if file_name(p) is Some {
        match parent_path(p) {
            Some(q) => q,
            None => p,
        }
    } else {
        p
    };
    path_joined(base, name)
}

/// `path` with the extension `ext`.
pub fn set_extension(path: &str, ext: &str) -> (r: String)
    ensures
        r@ == with_extension(path@, ext@),
{
    let p = chars_of(path);
    let b = body_start_exec(&p);
    let e = trimmed_end_exec(&p, b, p.len());
    if e <= b {
        return path.to_owned();
    }
    let s = segment_start_exec(&p, b, e);
    if e - s == 2 && p[s] == '.' && p[s + 1] == '.' {
        assert(p@.subrange(s as int, e as int) =~= seq!['.', '.']);
        return path.to_owned();
    }
    let ghost name = p@.subrange(s as int, e as int);
    proof {
        if name == seq!['.', '.'] {
            assert(name[0] == p@[s as int]);
            assert(name[1] == p@[s + 1]);
        }
    }
    let name_text = string_from_range(&p, s, e);
    let n = chars_of(name_text.as_str());
    let k = match crate::paths::last_index_exec(&n, 0, n.len(), '.') {
        Some(d) => if d == 0 {
            e
        } else {
            s + d
        },
        None => e,
    };
    let mut out = String::new();
    let prefix = string_from_range(&p, 0, k);
    crate::text::push_str(&mut out, prefix.as_str());
    assert(p@.subrange(0, k as int) =~= p@.take(k as int));
    if chars_of(ext).len() > 0 {
        crate::text::push_char(&mut out, '.');
        crate::text::push_str(&mut out, ext);
        assert(out@ =~= p@.take(k as int) + seq!['.'] + ext@);
    }
    out
}

/// `path` with the extension `json`.
pub fn set_json_extension(path: &str) -> (r: String)
    ensures
        r@ == with_json_extension(path@),
{
    set_extension(path, "json")
}

/// `path` with its file name replaced by `name`.
pub fn path_with_file_name(path: &str, name: &str) -> (r: String)
    ensures
        r@ == with_file_name(path@, name@),
{
    let has_name = crate::paths::file_name_of(path).is_some();
    if has_name {
        match parent_of(path) {
            Some(q) => join_path(q.as_str(), name),
            None => join_path(path, name),
        }
    } else {
        join_path(path, name)
    }
}

/// The components of `base` begin the components of `p`, as `Path::starts_with` decides.
pub open spec fn path_starts_with(p: Seq<char>, base: Seq<char>) -> bool {
    let cp = components(p);
    let cb = components(base);
    cb.len() <= cp.len() && cp.take(cb.len() as int) == cb
}

/// Whether the path `p` lies under `base`, component by component.
pub fn starts_with_path(p: &str, base: &str) -> (b: bool)
    ensures
        b == path_starts_with(p@, base@),
{
    let cp = components_of(p);
    let cb = components_of(base);
    if cb.len() > cp.len() {
        return false;
    }
    let mut i: usize = 0;
    while i < cb.len()
        invariant
            cb.len() <= cp.len(),
            i <= cb.len(),
            models(cp@) == components(p@),
            models(cb@) == components(base@),
            forall|j: int| 0 <= j < i ==> #[trigger] models(cp@)[j] == models(cb@)[j],
        decreases cb.len() - i,
    {
        if component_order(&cp[i], &cb[i]) != PathOrder::Same {
            assert(models(cp@).take(cb.len() as int)[i as int] != models(cb@)[i as int]);
            return false;
        }
        i += 1;
    }
    assert(models(cp@).take(cb.len() as int) =~= models(cb@));
    true
}

} // verus!
