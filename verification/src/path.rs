//! Lexical resolution of `/`-separated paths against a working directory.
//!
//! A path is split at every `/`; empty and `.` components are dropped, `..`
//! removes the component before it (and stays at the root), and every other
//! component is appended. A relative path starts from the working directory's
//! components, an absolute one from the root.
use vstd::prelude::*;

use crate::text::{has_char, str_eq};

verus! {

/// The pieces of `p` between `/` separators (always at least one piece).
pub open spec fn split_path(p: Seq<char>) -> Seq<Seq<char>>
    decreases p.len(),
{
    if p.len() == 0 {
        seq![Seq::<char>::empty()]
    } else {
        let r = split_path(p.drop_last());
        if p.last() == '/' {
            r.push(Seq::<char>::empty())
        } else {
            r.update(r.len() - 1, r.last().push(p.last()))
        }
    }
}

/// The component `..`.
pub open spec fn parent_component() -> Seq<char> {
    seq!['.', '.']
}

/// The component `.`.
pub open spec fn current_component() -> Seq<char> {
    seq!['.']
}

/// One step of resolution: the components after reading piece `seg`.
pub open spec fn step(stack: Seq<Seq<char>>, seg: Seq<char>) -> Seq<Seq<char>> {
    if seg.len() == 0 || seg == current_component() {
        stack
    } else if seg == parent_component() {
        if stack.len() > 0 {
            stack.drop_last()
        } else {
            stack
        }
    } else {
        stack.push(seg)
    }
}

/// The components reached from `base` by reading the pieces `segs` in order.
pub open spec fn normalize_from(base: Seq<Seq<char>>, segs: Seq<Seq<char>>) -> Seq<Seq<char>>
    decreases segs.len(),
{
    if segs.len() == 0 {
        base
    } else {
        step(normalize_from(base, segs.drop_last()), segs.last())
    }
}

/// `p` starts at the root.
pub open spec fn is_absolute(p: Seq<char>) -> bool {
    p.len() > 0 && p[0] == '/'
}

/// The components that `p` names on its own.
pub open spec fn path_components(p: Seq<char>) -> Seq<Seq<char>> {
    normalize_from(Seq::empty(), split_path(p))
}

/// The components that `dir` names when read from the working directory `cwd`.
pub open spec fn resolve_path(cwd: Seq<char>, dir: Seq<char>) -> Seq<Seq<char>> {
    normalize_from(
        if is_absolute(dir) {
            Seq::empty()
        } else {
            path_components(cwd)
        },
        split_path(dir),
    )
}

/// `/c1/c2/...` for the components `st` (empty for no component).
pub open spec fn render_components(st: Seq<Seq<char>>) -> Seq<char>
    decreases st.len(),
{
    if st.len() == 0 {
        Seq::empty()
    } else {
        render_components(st.drop_last()) + seq!['/'] + st.last()
    }
}

/// The absolute path text of the components `st` (`/` for the root).
pub open spec fn absolute_text(st: Seq<Seq<char>>) -> Seq<char> {
    if st.len() == 0 {
        seq!['/']
    } else {
        render_components(st)
    }
}

/// The components `a` begin the components `b` (`Path::starts_with`).
pub open spec fn components_prefix(a: Seq<Seq<char>>, b: Seq<Seq<char>>) -> bool {
    a.len() <= b.len() && b.take(a.len() as int) == a
}

/// `dir`, read from `cwd`, stays inside `cwd`.
pub open spec fn stays_within(cwd: Seq<char>, dir: Seq<char>) -> bool {
    components_prefix(path_components(cwd), resolve_path(cwd, dir))
}

/// The views of a sequence of string slices.
pub open spec fn views<'a>(v: Seq<&'a str>) -> Seq<Seq<char>> {
    v.map_values(|s: &'a str| s@)
}

/// Applies the piece `p[start..end]` to the components `stack`.
fn apply_piece<'a>(stack: &mut Vec<&'a str>, p: &'a str, chars: &Vec<char>, start: usize, end: usize)
    requires
        chars@ == p@,
        start <= end <= p@.len(),
    ensures
        views(final(stack)@) == step(views(old(stack)@), p@.subrange(start as int, end as int)),
{
    let ghost seg = p@.subrange(start as int, end as int);
    let len = end - start;
    let is_cur = len == 1 && chars[start] == '.';
    let is_parent = len == 2 && chars[start] == '.' && chars[start + 1] == '.';
    proof {
        assert(seg.len() == len);
        assert(current_component().len() == 1);
        assert(parent_component().len() == 2);
        if len == 1 {
            assert(seg[0] == chars@[start as int]);
            if chars@[start as int] == '.' {
                assert(seg =~= current_component());
            } else {
                assert(seg[0] != current_component()[0]);
            }
        }
        if len == 2 {
            assert(seg[0] == chars@[start as int]);
            assert(seg[1] == chars@[start + 1]);
            if chars@[start as int] == '.' && chars@[start + 1] == '.' {
                assert(seg =~= parent_component());
            } else {
                assert(seg[0] != parent_component()[0] || seg[1] != parent_component()[1]);
            }
        }
    }
    let ghost old_stack = stack@;
    if len == 0 || is_cur {
    } else if is_parent {
        if stack.len() > 0 {
            stack.pop();
            assert(views(stack@) =~= views(old_stack).drop_last());
        }
    } else {
        let piece = p.substring_char(start, end);
        stack.push(piece);
        assert(views(stack@) =~= views(old_stack).push(seg));
    }
}

/// Reads the pieces of `p` onto the components `stack`.
fn push_components<'a>(stack: &mut Vec<&'a str>, p: &'a str)
    ensures
        views(final(stack)@) == normalize_from(views(old(stack)@), split_path(p@)),
{
    let chars = crate::text::chars_of(p);
    let n = chars.len();
    let ghost base = views(stack@);
    let ghost mut segs: Seq<Seq<char>> = Seq::empty();
    let mut start: usize = 0;
    let mut i: usize = 0;
    assert(p@.take(0) =~= Seq::<char>::empty());
    assert(p@.subrange(0, 0) =~= Seq::<char>::empty());
    while i < n
        invariant
            chars@ == p@,
            n == p@.len(),
            start <= i <= n,
            split_path(p@.take(i as int)) == segs.push(p@.subrange(start as int, i as int)),
            views(stack@) == normalize_from(base, segs),
        decreases n - i,
    {
        if chars[i] == '/' {
            let ghost seg = p@.subrange(start as int, i as int);
            apply_piece(stack, p, &chars, start, i);
            proof {
                let ns = segs.push(seg);
                assert(ns.drop_last() =~= segs);
                assert(p@.take(i + 1).drop_last() =~= p@.take(i as int));
                assert(p@.take(i + 1).last() == '/');
                assert(p@.subrange(i + 1, i + 1) =~= Seq::<char>::empty());
                segs = ns;
            }
            start = i + 1;
        } else {
            proof {
                assert(p@.take(i + 1).drop_last() =~= p@.take(i as int));
                assert(p@.take(i + 1).last() == chars@[i as int]);
                assert(p@.subrange(start as int, i + 1) =~= p@.subrange(start as int, i as int).push(
                    chars@[i as int],
                ));
                assert(segs.push(p@.subrange(start as int, i as int)).update(
                    segs.len() as int,
                    p@.subrange(start as int, i + 1),
                ) =~= segs.push(p@.subrange(start as int, i + 1)));
            }
        }
        i = i + 1;
    }
    let ghost seg = p@.subrange(start as int, n as int);
    apply_piece(stack, p, &chars, start, n);
    proof {
        let ns = segs.push(seg);
        assert(ns.drop_last() =~= segs);
        assert(p@.take(n as int) =~= p@);
    }
}

/// The text `/c1/c2/...` of the components `stack` (`/` for none).
fn render<'a>(stack: &Vec<&'a str>) -> (r: String)
    ensures
        r@ == absolute_text(views(stack@)),
{
    let mut out = String::new();
    let mut k: usize = 0;
    while k < stack.len()
        invariant
            k <= stack@.len(),
            out@ == render_components(views(stack@).take(k as int)),
        decreases stack@.len() - k,
    {
        out.append("/");
        out.append(stack[k]);
        proof {
            reveal_strlit("/");
            let t = views(stack@).take(k + 1);
            assert(t.drop_last() =~= views(stack@).take(k as int));
            assert(t.last() == stack@[k as int]@);
        }
        k = k + 1;
    }
    assert(views(stack@).take(stack@.len() as int) =~= views(stack@));
    if stack.len() == 0 {
        let r = String::from_str("/");
        proof {
            reveal_strlit("/");
        }
        assert(r@ =~= seq!['/']);
        r
    } else {
        out
    }
}

/// Whether the components `a` begin the components `b`.
fn is_prefix_of<'a>(a: &Vec<&'a str>, b: &Vec<&'a str>) -> (r: bool)
    ensures
        r == components_prefix(views(a@), views(b@)),
{
    if a.len() > b.len() {
        return false;
    }
    let mut k: usize = 0;
    while k < a.len()
        invariant
            a@.len() <= b@.len(),
            k <= a@.len(),
            forall|j: int| 0 <= j < k ==> a@[j]@ == b@[j]@,
        decreases a@.len() - k,
    {
        if !str_eq(a[k], b[k]) {
            assert(views(b@).take(views(a@).len() as int)[k as int] != views(a@)[k as int]);
            return false;
        }
        k = k + 1;
    }
    assert(views(b@).take(views(a@).len() as int) =~= views(a@));
    true
}

/// `dir` read from `cwd` as an absolute path text, or `None` where it leaves `cwd`.
pub fn resolve_within(cwd: &str, dir: &str) -> (r: Option<String>)
    ensures
        r is Some <==> stays_within(cwd@, dir@),
        r matches Some(t) ==> t@ == absolute_text(resolve_path(cwd@, dir@)),
{
    let mut base: Vec<&str> = Vec::new();
    assert(views(base@) =~= Seq::<Seq<char>>::empty());
    push_components(&mut base, cwd);
    let absolute = dir.unicode_len() > 0 && dir.get_char(0) == '/';
    let mut resolved: Vec<&str> = Vec::new();
    assert(views(resolved@) =~= Seq::<Seq<char>>::empty());
    if !absolute {
        push_components(&mut resolved, cwd);
    }
    push_components(&mut resolved, dir);
    if is_prefix_of(&base, &resolved) {
        Some(render(&resolved))
    } else {
        None
    }
}

/// Whether the path `path` lies at or below `base`, comparing their components
/// (`Path::starts_with` on the paths as written).
pub fn path_starts_with(path: &str, base: &str) -> (r: bool)
    ensures
        r == components_prefix(path_components(base@), path_components(path@)),
{
    let mut b: Vec<&str> = Vec::new();
    assert(views(b@) =~= Seq::<Seq<char>>::empty());
    push_components(&mut b, base);
    let mut p: Vec<&str> = Vec::new();
    assert(views(p@) =~= Seq::<Seq<char>>::empty());
    push_components(&mut p, path);
    is_prefix_of(&b, &p)
}

/// A component as resolution keeps it: not empty, no `/`, not `.` or `..`.
pub open spec fn clean_component(c: Seq<char>) -> bool {
    &&& c.len() > 0
    &&& !has_char(c, '/')
    &&& c != current_component()
    &&& c != parent_component()
}

/// Every component of `st` is clean.
pub open spec fn all_clean(st: Seq<Seq<char>>) -> bool {
    forall|i: int| 0 <= i < st.len() ==> clean_component(#[trigger] st[i])
}

/// A path without `/` is a single piece.
pub proof fn lemma_split_single(p: Seq<char>)
    requires
        !has_char(p, '/'),
    ensures
        split_path(p) == seq![p],
    decreases p.len(),
{
    if p.len() > 0 {
        let q = p.drop_last();
        assert(!has_char(q, '/')) by {
            if has_char(q, '/') {
                let i = choose|i: int| 0 <= i < q.len() && #[trigger] q[i] == '/';
                assert(p[i] == '/');
            }
        }
        lemma_split_single(q);
        assert(p.last() != '/') by {
            assert(p[p.len() - 1] == p.last());
        }
        assert(seq![q.push(p.last())] =~= seq![p]) by {
            assert(q.push(p.last()) =~= p);
        }
    } else {
        assert(p =~= Seq::<char>::empty());
    }
}

/// Appending `/` and a piece without `/` appends that piece.
pub proof fn lemma_split_append(a: Seq<char>, b: Seq<char>)
    requires
        !has_char(b, '/'),
    ensures
        split_path(a + seq!['/'] + b) == split_path(a).push(b),
    decreases b.len(),
{
    if b.len() == 0 {
        assert(a + seq!['/'] + b =~= a.push('/'));
        assert((a.push('/')).drop_last() =~= a);
        assert(b =~= Seq::<char>::empty());
    } else {
        let b2 = b.drop_last();
        assert(!has_char(b2, '/')) by {
            if has_char(b2, '/') {
                let i = choose|i: int| 0 <= i < b2.len() && #[trigger] b2[i] == '/';
                assert(b[i] == '/');
            }
        }
        lemma_split_append(a, b2);
        let x = a + seq!['/'] + b;
        assert(x.drop_last() =~= a + seq!['/'] + b2);
        assert(x.last() == b.last());
        assert(b.last() != '/') by {
            assert(b[b.len() - 1] == b.last());
        }
        assert(split_path(a).push(b2).update(split_path(a).len() as int, b2.push(b.last()))
            =~= split_path(a).push(b)) by {
            assert(b2.push(b.last()) =~= b);
        }
    }
}

/// The pieces of a path hold no `/`.
pub proof fn lemma_split_pieces(p: Seq<char>)
    ensures
        split_path(p).len() >= 1,
        forall|i: int| 0 <= i < split_path(p).len() ==> !has_char(#[trigger] split_path(p)[i], '/'),
    decreases p.len(),
{
    if p.len() > 0 {
        lemma_split_pieces(p.drop_last());
        let r = split_path(p.drop_last());
        if p.last() != '/' {
            let l = r.last().push(p.last());
            assert(!has_char(l, '/')) by {
                if has_char(l, '/') {
                    let i = choose|i: int| 0 <= i < l.len() && #[trigger] l[i] == '/';
                    if i < l.len() - 1 {
                        assert(r.last()[i] == '/');
                        assert(r[r.len() - 1] == r.last());
                    }
                }
            }
            assert forall|i: int| 0 <= i < split_path(p).len() implies !has_char(
                #[trigger] split_path(p)[i],
                '/',
            ) by {
                if i < r.len() - 1 {
                    assert(split_path(p)[i] == r[i]);
                }
            }
        } else {
            assert forall|i: int| 0 <= i < split_path(p).len() implies !has_char(
                #[trigger] split_path(p)[i],
                '/',
            ) by {
                if i < r.len() {
                    assert(split_path(p)[i] == r[i]);
                } else {
                    assert(split_path(p)[i] =~= Seq::<char>::empty());
                }
            }
        }
    }
}

/// Reading pieces without `/` from clean components gives clean components.
pub proof fn lemma_normalize_clean(base: Seq<Seq<char>>, segs: Seq<Seq<char>>)
    requires
        all_clean(base),
        forall|i: int| 0 <= i < segs.len() ==> !has_char(#[trigger] segs[i], '/'),
    ensures
        all_clean(normalize_from(base, segs)),
    decreases segs.len(),
{
    if segs.len() > 0 {
        let s2 = segs.drop_last();
        assert forall|i: int| 0 <= i < s2.len() implies !has_char(#[trigger] s2[i], '/') by {
            assert(s2[i] == segs[i]);
        }
        lemma_normalize_clean(base, s2);
        let st = normalize_from(base, s2);
        let seg = segs.last();
        assert(!has_char(seg, '/')) by {
            assert(segs[segs.len() - 1] == seg);
        }
        let nst = step(st, seg);
        assert forall|i: int| 0 <= i < nst.len() implies clean_component(#[trigger] nst[i]) by {
            if i < st.len() {
                assert(nst[i] == st[i]);
            }
        }
    }
}

/// The components of a path are clean.
pub proof fn lemma_components_clean(p: Seq<char>)
    ensures
        all_clean(path_components(p)),
{
    lemma_split_pieces(p);
    lemma_normalize_clean(Seq::empty(), split_path(p));
}

/// The components of `dir` read from `cwd` are clean.
pub proof fn lemma_resolved_clean(cwd: Seq<char>, dir: Seq<char>)
    ensures
        all_clean(resolve_path(cwd, dir)),
{
    lemma_components_clean(cwd);
    lemma_split_pieces(dir);
    let base = if is_absolute(dir) {
        Seq::<Seq<char>>::empty()
    } else {
        path_components(cwd)
    };
    lemma_normalize_clean(base, split_path(dir));
}

/// Splitting the text of components without `/` gives an empty piece, then the components.
pub proof fn lemma_split_render(st: Seq<Seq<char>>)
    requires
        all_clean(st),
    ensures
        split_path(render_components(st)) == seq![Seq::<char>::empty()] + st,
    decreases st.len(),
{
    if st.len() == 0 {
        assert(render_components(st) =~= Seq::<char>::empty());
        assert(seq![Seq::<char>::empty()] + st =~= seq![Seq::<char>::empty()]);
    } else {
        let s2 = st.drop_last();
        assert(all_clean(s2)) by {
            assert forall|i: int| 0 <= i < s2.len() implies clean_component(#[trigger] s2[i]) by {
                assert(s2[i] == st[i]);
            }
        }
        lemma_split_render(s2);
        assert(clean_component(st[st.len() - 1]));
        lemma_split_append(render_components(s2), st.last());
        assert((seq![Seq::<char>::empty()] + s2).push(st.last()) =~= seq![Seq::<char>::empty()]
            + st);
    }
}

/// Reading an empty piece and then clean components from the root gives those components.
pub proof fn lemma_normalize_render(st: Seq<Seq<char>>)
    requires
        all_clean(st),
    ensures
        normalize_from(Seq::empty(), seq![Seq::<char>::empty()] + st) == st,
    decreases st.len(),
{
    let segs = seq![Seq::<char>::empty()] + st;
    if st.len() == 0 {
        assert(segs.drop_last() =~= Seq::<Seq<char>>::empty());
        assert(segs.last() =~= Seq::<char>::empty());
        assert(normalize_from(Seq::empty(), segs.drop_last()) == Seq::<Seq<char>>::empty());
        assert(normalize_from(Seq::empty(), segs) == step(Seq::empty(), segs.last()));
        assert(st =~= Seq::<Seq<char>>::empty());
    } else {
        let s2 = st.drop_last();
        assert(all_clean(s2)) by {
            assert forall|i: int| 0 <= i < s2.len() implies clean_component(#[trigger] s2[i]) by {
                assert(s2[i] == st[i]);
            }
        }
        lemma_normalize_render(s2);
        assert(segs.drop_last() =~= seq![Seq::<char>::empty()] + s2);
        assert(segs.last() == st.last());
        assert(clean_component(st[st.len() - 1]));
        assert(s2.push(st.last()) =~= st);
        assert(normalize_from(Seq::empty(), segs) == step(
            normalize_from(Seq::empty(), segs.drop_last()),
            segs.last(),
        ));
        assert(step(s2, st.last()) == s2.push(st.last()));
    }
}

/// The text of clean components reads back as those components.
pub proof fn lemma_absolute_text_reads_back(st: Seq<Seq<char>>)
    requires
        all_clean(st),
    ensures
        path_components(absolute_text(st)) == st,
{
    if st.len() == 0 {
        let t = seq!['/'];
        assert(t.drop_last() =~= Seq::<char>::empty());
        assert(split_path(Seq::<char>::empty()) =~= seq![Seq::<char>::empty()]);
        assert(split_path(t) == split_path(t.drop_last()).push(Seq::<char>::empty()));
        assert(split_path(t) =~= seq![Seq::<char>::empty(), Seq::<char>::empty()]);
        let segs = split_path(t);
        assert(segs.drop_last() =~= seq![Seq::<char>::empty()]);
        assert(seq![Seq::<char>::empty()].drop_last() =~= Seq::<Seq<char>>::empty());
        let e = Seq::<Seq<char>>::empty();
        assert(normalize_from(e, Seq::<Seq<char>>::empty()) == e);
        assert(normalize_from(e, seq![Seq::<char>::empty()]) == step(e, Seq::<char>::empty()));
        assert(normalize_from(e, segs) == step(
            normalize_from(e, seq![Seq::<char>::empty()]),
            Seq::<char>::empty(),
        ));
        assert(absolute_text(st) == t);
        assert(st =~= Seq::<Seq<char>>::empty());
    } else {
        lemma_split_render(st);
        lemma_normalize_render(st);
    }
}

} // verus!
