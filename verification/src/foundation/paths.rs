use vstd::prelude::*;

use super::text::{
    copy_chars, chars_of, eq_exec, lemma_split_join, lemma_split_no_sep, lemma_split_pieces_no_sep,
    push_all, split, split_chars, string_of, views,
};

verus! {

/// The parts of `sep`-joined text.
pub open spec fn join(parts: Seq<Seq<char>>, sep: Seq<char>) -> Seq<char>
    decreases parts.len(),
{
    if parts.len() == 0 {
        Seq::<char>::empty()
    } else if parts.len() == 1 {
        parts[0]
    } else {
        join(parts.drop_last(), sep) + sep + parts.last()
    }
}

/// Joins the parts with `sep` between them, as `[String]::join` does.
pub fn join_exec(parts: &Vec<Vec<char>>, sep: &Vec<char>) -> (r: Vec<char>)
    ensures
        r@ == join(views(parts@), sep@),
{
    let mut r: Vec<char> = Vec::new();
    let mut i: usize = 0;
    while i < parts.len()
        invariant
            i <= parts.len(),
            r@ == join(views(parts@).subrange(0, i as int), sep@),
        decreases parts.len() - i,
    {
        let ghost pre = views(parts@).subrange(0, i + 1);
        assert(pre.drop_last() =~= views(parts@).subrange(0, i as int));
        if i > 0 {
            push_all(&mut r, sep);
        } else {
            assert(views(parts@).subrange(0, 0) =~= Seq::<Seq<char>>::empty());
        }
        push_all(&mut r, &parts[i]);
        i = i + 1;
    }
    assert(views(parts@).subrange(0, parts.len() as int) =~= views(parts@));
    r
}

/// A path component that names something: neither empty nor `.`.
pub open spec fn is_named(p: Seq<char>) -> bool {
    p.len() > 0 && p != "."@
}

/// The named components of `/`-separated parts, in order.
pub open spec fn named_parts(parts: Seq<Seq<char>>) -> Seq<Seq<char>>
    decreases parts.len(),
{
    if parts.len() == 0 {
        Seq::<Seq<char>>::empty()
    } else {
        let r = named_parts(parts.drop_last());
        if is_named(parts.last()) {
            r.push(parts.last())
        } else {
            r
        }
    }
}

/// The components of a path: the named parts between its `/` separators. Paths use `/` as the
/// separator and compare by these components, as `Path` does on Unix.
pub open spec fn components(s: Seq<char>) -> Seq<Seq<char>> {
    named_parts(split(s, '/'))
}

/// A path starts at the root.
pub open spec fn is_absolute(s: Seq<char>) -> bool {
    s.len() > 0 && s[0] == '/'
}

/// A path written from its root flag and its components.
pub open spec fn render(absolute: bool, comps: Seq<Seq<char>>) -> Seq<char> {
    if absolute {
        "/"@ + join(comps, "/"@)
    } else {
        join(comps, "/"@)
    }
}

/// `base` with `part` joined to it, as `Path::join` does: an absolute `part` replaces `base`.
pub open spec fn spec_path_join(base: Seq<char>, part: Seq<char>) -> Seq<char> {
    if is_absolute(part) {
        render(true, components(part))
    } else {
        render(is_absolute(base), components(base) + components(part))
    }
}

/// The components after applying `parts` one by one: `..` removes the last component, an empty
/// part or `.` does nothing, anything else is added.
pub open spec fn apply_parts(start: Seq<Seq<char>>, parts: Seq<Seq<char>>) -> Seq<Seq<char>>
    decreases parts.len(),
{
    if parts.len() == 0 {
        start
    } else {
        let r = apply_parts(start, parts.drop_last());
        let p = parts.last();
        if p == ".."@ {
            if r.len() > 0 {
                r.drop_last()
            } else {
                r
            }
        } else if is_named(p) {
            r.push(p)
        } else {
            r
        }
    }
}

/// `base` followed by the components of `relative`, where `..` goes up a level and a leading `/`
/// or `.` is ignored, as Node's `path.join` does.
pub open spec fn spec_join_normalized(base: Seq<char>, relative: Seq<char>) -> Seq<char> {
    render(is_absolute(base), apply_parts(components(base), split(relative, '/')))
}

fn is_named_exec(p: &Vec<char>) -> (b: bool)
    ensures
        b == is_named(p@),
{
    proof {
        reveal_strlit(".");
    }
    let dot = chars_of(".");
    p.len() > 0 && !eq_exec(p, &dot)
}

/// The components of a path.
pub fn components_exec(s: &Vec<char>) -> (r: Vec<Vec<char>>)
    ensures
        views(r@) == components(s@),
{
    let parts = split_chars(s, '/');
    let mut r: Vec<Vec<char>> = Vec::new();
    let mut i: usize = 0;
    assert(views(parts@).subrange(0, 0) =~= Seq::<Seq<char>>::empty());
    assert(views(r@) =~= Seq::<Seq<char>>::empty());
    while i < parts.len()
        invariant
            i <= parts.len(),
            views(r@) == named_parts(views(parts@).subrange(0, i as int)),
        decreases parts.len() - i,
    {
        let ghost pre = views(parts@).subrange(0, i + 1);
        assert(pre.drop_last() =~= views(parts@).subrange(0, i as int));
        assert(pre.last() == parts@[i as int]@);
        if is_named_exec(&parts[i]) {
            let ghost before = views(r@);
            r.push(copy_chars(&parts[i]));
            assert(views(r@) =~= before.push(parts@[i as int]@));
        }
        i = i + 1;
    }
    assert(views(parts@).subrange(0, parts.len() as int) =~= views(parts@));
    r
}

/// A path from a root flag and components.
pub fn render_exec(absolute: bool, comps: &Vec<Vec<char>>) -> (r: Vec<char>)
    ensures
        r@ == render(absolute, views(comps@)),
{
    proof {
        reveal_strlit("/");
    }
    let slash = chars_of("/");
    let joined = join_exec(comps, &slash);
    if absolute {
        let mut r = slash.clone();
        push_all(&mut r, &joined);
        r
    } else {
        joined
    }
}

/// Whether a path starts at the root.
pub fn is_absolute_exec(s: &Vec<char>) -> (b: bool)
    ensures
        b == is_absolute(s@),
{
    s.len() > 0 && s[0] == '/'
}

/// Joins `part` to `base`, as `Path::join` does.
pub fn path_join(base: &str, part: &str) -> (r: String)
    ensures
        r@ == spec_path_join(base@, part@),
{
    let b = chars_of(base);
    let p = chars_of(part);
    let part_comps = components_exec(&p);
    if is_absolute_exec(&p) {
        return string_of(&render_exec(true, &part_comps));
    }
    let mut comps = components_exec(&b);
    let mut i: usize = 0;
    let ghost base_comps = views(comps@);
    while i < part_comps.len()
        invariant
            i <= part_comps.len(),
            views(comps@) =~= base_comps + views(part_comps@).subrange(0, i as int),
        decreases part_comps.len() - i,
    {
        let ghost before = views(comps@);
        comps.push(copy_chars(&part_comps[i]));
        assert(views(comps@) =~= before.push(part_comps@[i as int]@));
        i = i + 1;
    }
    assert(views(part_comps@).subrange(0, part_comps.len() as int) =~= views(part_comps@));
    string_of(&render_exec(is_absolute_exec(&b), &comps))
}

/// Joins `relative` to `base`, resolving `..` and ignoring a leading `/` or `.`.
pub fn join_normalized_exec(base: &Vec<char>, relative: &Vec<char>) -> (r: Vec<char>)
    ensures
        r@ == spec_join_normalized(base@, relative@),
{
    let mut comps = components_exec(base);
    let parts = split_chars(relative, '/');
    let ghost start = views(comps@);
    let mut i: usize = 0;
    assert(views(parts@).subrange(0, 0) =~= Seq::<Seq<char>>::empty());
    proof {
        reveal_strlit("..");
    }
    let up = chars_of("..");
    while i < parts.len()
        invariant
            i <= parts.len(),
            up@ == ".."@,
            views(comps@) == apply_parts(start, views(parts@).subrange(0, i as int)),
        decreases parts.len() - i,
    {
        let ghost pre = views(parts@).subrange(0, i + 1);
        assert(pre.drop_last() =~= views(parts@).subrange(0, i as int));
        assert(pre.last() == parts@[i as int]@);
        let ghost before = views(comps@);
        if eq_exec(&parts[i], &up) {
            if comps.len() > 0 {
                comps.pop();
                assert(views(comps@) =~= before.drop_last());
            }
        } else if is_named_exec(&parts[i]) {
            comps.push(copy_chars(&parts[i]));
            assert(views(comps@) =~= before.push(parts@[i as int]@));
        }
        i = i + 1;
    }
    assert(views(parts@).subrange(0, parts.len() as int) =~= views(parts@));
    render_exec(is_absolute_exec(base), &comps)
}

/// One path component: it names something and holds no `/`.
pub open spec fn is_component(p: Seq<char>) -> bool {
    is_named(p) && !p.contains('/')
}

proof fn lemma_named_parts_all(ps: Seq<Seq<char>>)
    requires
        forall|k: int| 0 <= k < ps.len() ==> is_named(#[trigger] ps[k]),
    ensures
        named_parts(ps) == ps,
    decreases ps.len(),
{
    if ps.len() > 0 {
        lemma_named_parts_all(ps.drop_last());
        assert(is_named(ps[ps.len() - 1]));
        assert(ps.drop_last().push(ps.last()) =~= ps);
    }
}

proof fn lemma_named_parts_empty_front(ps: Seq<Seq<char>>)
    ensures
        named_parts(seq![Seq::<char>::empty()] + ps) == named_parts(ps),
    decreases ps.len(),
{
    let e = seq![Seq::<char>::empty()];
    if ps.len() == 0 {
        assert(e + ps =~= e);
        assert(e.drop_last() =~= Seq::<Seq<char>>::empty());
        reveal_with_fuel(named_parts, 2);
    } else {
        lemma_named_parts_empty_front(ps.drop_last());
        assert((e + ps).drop_last() =~= e + ps.drop_last());
        assert((e + ps).last() == ps.last());
    }
}

proof fn lemma_named_parts_are_components(ps: Seq<Seq<char>>)
    requires
        forall|k: int| 0 <= k < ps.len() ==> !(#[trigger] ps[k]).contains('/'),
    ensures
        forall|k: int| 0 <= k < named_parts(ps).len() ==> is_component(#[trigger] named_parts(ps)[k]),
    decreases ps.len(),
{
    if ps.len() > 0 {
        let d = ps.drop_last();
        assert forall|k: int| 0 <= k < d.len() implies !(#[trigger] d[k]).contains('/') by {
            assert(d[k] == ps[k]);
        }
        lemma_named_parts_are_components(d);
        assert(!ps[ps.len() - 1].contains('/'));
        let r = named_parts(d);
        if is_named(ps.last()) {
            assert forall|k: int| 0 <= k < named_parts(ps).len() implies is_component(
                #[trigger] named_parts(ps)[k],
            ) by {
                if k < r.len() {
                    assert(named_parts(ps)[k] == r[k]);
                }
            }
        }
    }
}

/// Every component of a path is a single component.
pub proof fn lemma_components_are_components(s: Seq<char>)
    ensures
        forall|k: int| 0 <= k < components(s).len() ==> is_component(#[trigger] components(s)[k]),
{
    lemma_split_pieces_no_sep(s, '/');
    lemma_named_parts_are_components(split(s, '/'));
}

proof fn lemma_split_join_all(comps: Seq<Seq<char>>)
    requires
        comps.len() > 0,
        forall|k: int| 0 <= k < comps.len() ==> !(#[trigger] comps[k]).contains('/'),
    ensures
        split(join(comps, "/"@), '/') == comps,
    decreases comps.len(),
{
    if comps.len() == 1 {
        lemma_split_no_sep(comps[0], '/');
        assert(seq![comps[0]] =~= comps);
    } else {
        let d = comps.drop_last();
        assert forall|k: int| 0 <= k < d.len() implies !(#[trigger] d[k]).contains('/') by {
            assert(d[k] == comps[k]);
        }
        lemma_split_join_all(d);
        reveal_strlit("/");
        assert("/"@ =~= seq!['/']);
        lemma_split_join(join(d, "/"@), comps.last(), '/');
        assert(!comps[comps.len() - 1].contains('/'));
        lemma_split_no_sep(comps.last(), '/');
        assert(d + seq![comps.last()] =~= comps);
    }
}

/// Reading back the components of a path written from single components gives them again.
pub proof fn lemma_components_render(absolute: bool, comps: Seq<Seq<char>>)
    requires
        forall|k: int| 0 <= k < comps.len() ==> is_component(#[trigger] comps[k]),
    ensures
        components(render(absolute, comps)) == comps,
{
    reveal_strlit("/");
    assert("/"@ =~= seq!['/']);
    let e = Seq::<char>::empty();
    assert(split(e, '/') =~= seq![e]);
    if comps.len() == 0 {
        assert(join(comps, "/"@) == e);
        if absolute {
            assert(render(absolute, comps) =~= e + seq!['/'] + e);
            lemma_split_join(e, e, '/');
            lemma_named_parts_empty_front(seq![e]);
        }
        assert(named_parts(seq![e]) =~= Seq::<Seq<char>>::empty()) by {
            assert(seq![e].drop_last() =~= Seq::<Seq<char>>::empty());
            reveal_with_fuel(named_parts, 2);
        }
    } else {
        assert forall|k: int| 0 <= k < comps.len() implies !(#[trigger] comps[k]).contains('/') by {
            assert(is_component(comps[k]));
        }
        assert forall|k: int| 0 <= k < comps.len() implies is_named(#[trigger] comps[k]) by {
            assert(is_component(comps[k]));
        }
        lemma_split_join_all(comps);
        lemma_named_parts_all(comps);
        if absolute {
            let j = join(comps, "/"@);
            assert(render(absolute, comps) =~= e + seq!['/'] + j);
            lemma_split_join(e, j, '/');
            assert(split(e, '/') + comps =~= seq![e] + comps);
            lemma_named_parts_empty_front(comps);
        }
    }
}

/// Joining a single component to a path adds exactly that component.
pub proof fn lemma_join_component(base: Seq<char>, part: Seq<char>)
    requires
        is_component(part),
    ensures
        components(spec_path_join(base, part)) == components(base).push(part),
{
    assert(!is_absolute(part)) by {
        if is_absolute(part) {
            assert(part.contains('/'));
        }
    }
    lemma_split_no_sep(part, '/');
    assert(named_parts(seq![part]) =~= seq![part]) by {
        assert(seq![part].drop_last() =~= Seq::<Seq<char>>::empty());
        reveal_with_fuel(named_parts, 2);
    }
    assert(components(part) =~= seq![part]);
    let c = components(base) + components(part);
    assert(c =~= components(base).push(part));
    lemma_components_are_components(base);
    assert forall|k: int| 0 <= k < c.len() implies is_component(#[trigger] c[k]) by {
        if k < components(base).len() {
            assert(c[k] == components(base)[k]);
        }
    }
    lemma_components_render(is_absolute(base), c);
}

/// A component followed by text without `/` is a component.
pub proof fn lemma_concat_component(a: Seq<char>, b: Seq<char>)
    requires
        is_component(a),
        !b.contains('/'),
    ensures
        is_component(a + b),
{
    reveal_strlit(".");
    if b.len() == 0 {
        assert(a + b =~= a);
    }
    assert((a + b) != "."@) by {
        if b.len() > 0 {
            assert((a + b).len() != "."@.len());
        }
    }
    if (a + b).contains('/') {
        let k = choose|k: int| 0 <= k < (a + b).len() && (a + b)[k] == '/';
        if k < a.len() {
            assert(a[k] == '/');
        } else {
            assert(b[k - a.len()] == '/');
        }
    }
}

/// Joining a relative path adds its components.
pub proof fn lemma_join_relative(base: Seq<char>, part: Seq<char>)
    requires
        !is_absolute(part),
    ensures
        components(spec_path_join(base, part)) == components(base) + components(part),
{
    let c = components(base) + components(part);
    lemma_components_are_components(base);
    lemma_components_are_components(part);
    assert forall|k: int| 0 <= k < c.len() implies is_component(#[trigger] c[k]) by {
        if k < components(base).len() {
            assert(c[k] == components(base)[k]);
        } else {
            assert(c[k] == components(part)[k - components(base).len()]);
        }
    }
    lemma_components_render(is_absolute(base), c);
}

} // verus!
