//! Lexical path cleaning and resolution of the two generated trees.
use vstd::prelude::*;
use vstd::string::*;

verus! {

/// A path component as cleaning keeps it: non-empty, without a separator,
/// and not the current-directory marker.
pub open spec fn valid_segment(c: Seq<char>) -> bool {
    &&& c.len() > 0
    &&& !c.contains('/')
    &&& c != seq!['.']
}

pub open spec fn all_valid(cs: Seq<Seq<char>>) -> bool {
    forall|i: int| 0 <= i < cs.len() ==> valid_segment(#[trigger] cs[i])
}

pub open spec fn is_parent(c: Seq<char>) -> bool {
    c == seq!['.', '.']
}

/// The segment `cur` contributes to the component list unless it is empty or `.`.
pub open spec fn keep(cur: Seq<char>) -> Seq<Seq<char>> {
    if cur.len() == 0 || cur == seq!['.'] {
        Seq::empty()
    } else {
        seq![cur]
    }
}

/// Components of `s` after `cur` (the part of the current segment already read):
/// `s` is split on `/`, and empty and `.` segments are dropped.
pub open spec fn components_from(s: Seq<char>, cur: Seq<char>) -> Seq<Seq<char>>
    decreases s.len(),
{
    if s.len() == 0 {
        keep(cur)
    } else if s[0] == '/' {
        keep(cur) + components_from(s.drop_first(), Seq::empty())
    } else {
        components_from(s.drop_first(), cur.push(s[0]))
    }
}

pub open spec fn components(s: Seq<char>) -> Seq<Seq<char>> {
    components_from(s, Seq::empty())
}

pub open spec fn is_rooted(s: Seq<char>) -> bool {
    s.len() > 0 && s[0] == '/'
}

/// One component of the left-to-right pass: `..` removes the component before
/// it unless that is `..` too or there is none; at the start of a rooted path
/// it is dropped, at the start of a relative one it is kept.
pub open spec fn apply_component(acc: Seq<Seq<char>>, c: Seq<char>, rooted: bool) -> Seq<Seq<char>> {
    if is_parent(c) {
        if acc.len() == 0 {
            if rooted {
                acc
            } else {
                acc.push(c)
            }
        } else if is_parent(acc.last()) {
            acc.push(c)
        } else {
            acc.drop_last()
        }
    } else {
        acc.push(c)
    }
}

pub open spec fn reduce(acc: Seq<Seq<char>>, cs: Seq<Seq<char>>, rooted: bool) -> Seq<Seq<char>>
    decreases cs.len(),
{
    if cs.len() == 0 {
        acc
    } else {
        reduce(apply_component(acc, cs[0], rooted), cs.drop_first(), rooted)
    }
}

/// The components that remain of `s` after cleaning (without the root).
pub open spec fn cleaned_components(s: Seq<char>) -> Seq<Seq<char>> {
    reduce(Seq::empty(), components(s), is_rooted(s))
}

/// Components joined with `/`.
pub open spec fn join_segments(cs: Seq<Seq<char>>) -> Seq<char>
    decreases cs.len(),
{
    if cs.len() == 0 {
        Seq::empty()
    } else if cs.len() == 1 {
        cs[0]
    } else {
        cs[0] + seq!['/'] + join_segments(cs.drop_first())
    }
}

/// The text of a path with the given root flag and components; a relative
/// path with no component is `.`.
pub open spec fn render_path(rooted: bool, cs: Seq<Seq<char>>) -> Seq<char> {
    if rooted {
        seq!['/'] + join_segments(cs)
    } else if cs.len() == 0 {
        seq!['.']
    } else {
        join_segments(cs)
    }
}

/// The lexically cleaned form of the path `s`: repeated separators collapsed,
/// `.` dropped, `..` folded into the component before it, `..` at the start
/// of a rooted path dropped, and `.` for a path left empty.
pub open spec fn cleaned(s: Seq<char>) -> Seq<char> {
    render_path(is_rooted(s), cleaned_components(s))
}

/// `..` components stand only at the start of a relative path.
pub open spec fn parents_leading(cs: Seq<Seq<char>>, rooted: bool) -> bool {
    forall|i: int|
        0 <= i < cs.len() && is_parent(#[trigger] cs[i]) ==> !rooted && forall|j: int|
            0 <= j < i ==> is_parent(#[trigger] cs[j])
}

proof fn lemma_components_segment(w: Seq<char>, rest: Seq<char>, cur: Seq<char>)
    requires
        !w.contains('/'),
    ensures
        components_from(w + rest, cur) == components_from(rest, cur + w),
    decreases w.len(),
{
    if w.len() == 0 {
        assert(w + rest =~= rest);
        assert(cur + w =~= cur);
    } else {
        let t = w.drop_first();
        assert((w + rest).drop_first() =~= t + rest);
        assert((w + rest)[0] == w[0]);
        assert(!t.contains('/')) by {
            if t.contains('/') {
                let k = choose|k: int| 0 <= k < t.len() && t[k] == '/';
                assert(w[k + 1] == '/');
            }
        }
        assert(w[0] != '/') by {
            if w[0] == '/' {
                assert(w.contains('/'));
            }
        }
        lemma_components_segment(t, rest, cur.push(w[0]));
        assert(cur.push(w[0]) + t =~= cur + w);
    }
}

proof fn lemma_components_join(cs: Seq<Seq<char>>)
    requires
        all_valid(cs),
    ensures
        components(join_segments(cs)) == cs,
    decreases cs.len(),
{
    let e: Seq<char> = Seq::empty();
    if cs.len() == 0 {
        assert(components(e) =~= cs);
    } else if cs.len() == 1 {
        assert(valid_segment(cs[0]));
        lemma_components_segment(cs[0], e, e);
        assert(cs[0] + e =~= cs[0]);
        assert(e + cs[0] =~= cs[0]);
        assert(components(join_segments(cs)) =~= cs);
    } else {
        let t = cs.drop_first();
        assert(valid_segment(cs[0]));
        assert(all_valid(t)) by {
            assert forall|i: int| 0 <= i < t.len() implies valid_segment(#[trigger] t[i]) by {
                assert(t[i] == cs[i + 1]);
            }
        }
        lemma_components_join(t);
        let rest = seq!['/'] + join_segments(t);
        assert(cs[0] + seq!['/'] + join_segments(t) =~= cs[0] + rest);
        lemma_components_segment(cs[0], rest, e);
        assert(e + cs[0] =~= cs[0]);
        assert(rest.drop_first() =~= join_segments(t));
        assert(components(join_segments(cs)) =~= seq![cs[0]] + t);
        assert(seq![cs[0]] + t =~= cs);
    }
}

proof fn lemma_join_first(cs: Seq<Seq<char>>)
    requires
        all_valid(cs),
        cs.len() > 0,
    ensures
        join_segments(cs).len() > 0,
        join_segments(cs)[0] == cs[0][0],
{
    assert(valid_segment(cs[0]));
}

proof fn lemma_render_components(rooted: bool, cs: Seq<Seq<char>>)
    requires
        all_valid(cs),
    ensures
        components(render_path(rooted, cs)) == cs,
        is_rooted(render_path(rooted, cs)) == rooted,
{
    let e: Seq<char> = Seq::empty();
    lemma_components_join(cs);
    if rooted {
        let j = join_segments(cs);
        assert((seq!['/'] + j).drop_first() =~= j);
        assert(components(seq!['/'] + j) =~= keep(e) + components(j));
        assert(keep(e) + components(j) =~= cs);
    } else if cs.len() == 0 {
        let d = seq!['.'];
        assert(d.drop_first() =~= e);
        assert(e.push('.') =~= d);
        assert(components_from(d, e) == components_from(e, d));
        assert(keep(d) =~= cs);
    } else {
        lemma_join_first(cs);
        assert(valid_segment(cs[0]));
        assert(cs[0][0] != '/') by {
            assert(cs[0].contains(cs[0][0]));
        }
    }
}

proof fn lemma_apply_keeps_shape(acc: Seq<Seq<char>>, c: Seq<char>, rooted: bool)
    requires
        all_valid(acc),
        parents_leading(acc, rooted),
        valid_segment(c),
    ensures
        all_valid(apply_component(acc, c, rooted)),
        parents_leading(apply_component(acc, c, rooted), rooted),
{
    let r = apply_component(acc, c, rooted);
    if is_parent(c) && acc.len() > 0 && !is_parent(acc.last()) {
        assert(r =~= acc.drop_last());
        assert forall|i: int| 0 <= i < r.len() implies valid_segment(#[trigger] r[i]) by {
            assert(r[i] == acc[i]);
        }
        assert forall|i: int|
            0 <= i < r.len() && is_parent(#[trigger] r[i]) implies !rooted && forall|j: int|
                0 <= j < i ==> is_parent(#[trigger] r[j]) by {
            assert(r[i] == acc[i]);
            assert forall|j: int| 0 <= j < i implies is_parent(#[trigger] r[j]) by {
                assert(r[j] == acc[j]);
            }
        }
    } else if is_parent(c) && acc.len() == 0 && rooted {
    } else {
        assert(r =~= acc.push(c));
        assert forall|i: int| 0 <= i < r.len() implies valid_segment(#[trigger] r[i]) by {
            if i < acc.len() {
                assert(r[i] == acc[i]);
            }
        }
        assert forall|i: int|
            0 <= i < r.len() && is_parent(#[trigger] r[i]) implies !rooted && forall|j: int|
                0 <= j < i ==> is_parent(#[trigger] r[j]) by {
            if i < acc.len() {
                assert(r[i] == acc[i]);
                assert forall|j: int| 0 <= j < i implies is_parent(#[trigger] r[j]) by {
                    assert(r[j] == acc[j]);
                }
            } else {
                if acc.len() > 0 {
                    assert(is_parent(acc[acc.len() - 1]));
                }
                assert forall|j: int| 0 <= j < i implies is_parent(#[trigger] r[j]) by {
                    assert(r[j] == acc[j]);
                }
            }
        }
    }
}

proof fn lemma_reduce_keeps_shape(acc: Seq<Seq<char>>, cs: Seq<Seq<char>>, rooted: bool)
    requires
        all_valid(acc),
        parents_leading(acc, rooted),
        all_valid(cs),
    ensures
        all_valid(reduce(acc, cs, rooted)),
        parents_leading(reduce(acc, cs, rooted), rooted),
    decreases cs.len(),
{
    if cs.len() > 0 {
        assert(valid_segment(cs[0]));
        lemma_apply_keeps_shape(acc, cs[0], rooted);
        let t = cs.drop_first();
        assert(all_valid(t)) by {
            assert forall|i: int| 0 <= i < t.len() implies valid_segment(#[trigger] t[i]) by {
                assert(t[i] == cs[i + 1]);
            }
        }
        lemma_reduce_keeps_shape(apply_component(acc, cs[0], rooted), t, rooted);
    }
}

proof fn lemma_reduce_clean_input(acc: Seq<Seq<char>>, cs: Seq<Seq<char>>, rooted: bool)
    requires
        parents_leading(acc + cs, rooted),
    ensures
        reduce(acc, cs, rooted) == acc + cs,
    decreases cs.len(),
{
    if cs.len() == 0 {
        assert(acc + cs =~= acc);
    } else {
        let all = acc + cs;
        let c = cs[0];
        assert(all[acc.len() as int] == c);
        if is_parent(c) {
            assert(!rooted);
            if acc.len() > 0 {
                assert(all[acc.len() - 1] == acc.last());
            }
        }
        assert(apply_component(acc, c, rooted) =~= acc.push(c));
        assert(acc.push(c) + cs.drop_first() =~= all);
        lemma_reduce_clean_input(acc.push(c), cs.drop_first(), rooted);
    }
}

proof fn lemma_components_valid(s: Seq<char>, cur: Seq<char>)
    requires
        !cur.contains('/'),
    ensures
        all_valid(components_from(s, cur)),
    decreases s.len(),
{
    if s.len() == 0 {
    } else if s[0] == '/' {
        let e: Seq<char> = Seq::empty();
        lemma_components_valid(s.drop_first(), e);
        let r = components_from(s, cur);
        let k = keep(cur);
        let t = components_from(s.drop_first(), e);
        assert forall|i: int| 0 <= i < r.len() implies valid_segment(#[trigger] r[i]) by {
            if i < k.len() {
                assert(r[i] == k[i]);
            } else {
                assert(r[i] == t[i - k.len()]);
            }
        }
    } else {
        let n = cur.push(s[0]);
        assert(!n.contains('/')) by {
            if n.contains('/') {
                let k = choose|k: int| 0 <= k < n.len() && n[k] == '/';
                if k < cur.len() {
                    assert(cur[k] == '/');
                }
            }
        }
        lemma_components_valid(s.drop_first(), n);
    }
}

/// Cleaning is idempotent: a cleaned path is left as it is by a second cleaning.
pub proof fn lemma_cleaned_idempotent(s: Seq<char>)
    ensures
        cleaned(cleaned(s)) == cleaned(s),
{
    let e: Seq<Seq<char>> = Seq::empty();
    let cs = cleaned_components(s);
    lemma_cleaned_shape(s);
    assert(e + cs =~= cs);
    lemma_reduce_clean_input(e, cs, is_rooted(s));
}

/// Relies on clean_path::clean, whose documented rules `cleaned` states for
/// paths separated by `/` (Unix targets; see `normalize`).
#[verifier::external_body]
fn clean_text(s: &str) -> (r: String)
    ensures
        r@ == cleaned(s@),
{
    clean_path::clean(s).to_string_lossy().into_owned()
}

/// Cleans a directory string without touching the file system.
///
/// The statement holds where `/` is the only path separator (Unix targets).
/// On Windows, `\` is a separator too, components are joined with `\` and
/// drive prefixes are kept, so the result there differs from `cleaned`, and
/// the depth that `resolve` counts from it may be wrong.
pub fn normalize(s: &str) -> (r: String)
    ensures
        r@ == cleaned(s@),
{
    clean_text(s)
}

/// What cleaning leaves has valid components, `..` only leading, and the
/// root flag and components of the input.
pub proof fn lemma_cleaned_shape(s: Seq<char>)
    ensures
        all_valid(cleaned_components(s)),
        parents_leading(cleaned_components(s), is_rooted(s)),
        components(cleaned(s)) == cleaned_components(s),
        is_rooted(cleaned(s)) == is_rooted(s),
{
    let e: Seq<Seq<char>> = Seq::empty();
    lemma_components_valid(s, Seq::empty());
    lemma_reduce_keeps_shape(e, components(s), is_rooted(s));
    lemma_render_components(is_rooted(s), cleaned_components(s));
}

/// `name` placed under `base`: a rooted name stands for itself.
pub open spec fn joined(base: Seq<char>, name: Seq<char>) -> Seq<char> {
    if is_rooted(name) {
        name
    } else {
        base + seq!['/'] + name
    }
}

/// The number of components of the cleaned directory name `dir`, a rooted
/// name counting its root as one. For a name without `..` this is the number
/// of `../` that lead from inside the tree back to the root. The current
/// directory gives 0.
pub open spec fn relative_depth(dir: Seq<char>) -> nat {
    cleaned_components(dir).len() + if is_rooted(dir) {
        1nat
    } else {
        0nat
    }
}

/// The two trees of a project, as the directories are placed and cleaned.
pub struct ResolvedPaths {
    /// Cleaned root directory.
    pub root: String,
    /// Cleaned directory name of the engine tree, relative to the root.
    pub engine_dir: String,
    /// Cleaned directory name of the extension tree, relative to the root.
    pub extension_dir: String,
    /// Cleaned path of the engine tree.
    pub engine_path: String,
    /// Cleaned path of the extension tree.
    pub extension_path: String,
    /// Levels between the engine tree and the root.
    pub depth: usize,
}

impl ResolvedPaths {
    pub open spec fn resolves(&self, root: Seq<char>, engine_dir: Seq<char>, extension_dir: Seq<char>) -> bool {
        &&& self.root@ == cleaned(root)
        &&& self.engine_dir@ == cleaned(engine_dir)
        &&& self.extension_dir@ == cleaned(extension_dir)
        &&& self.engine_path@ == cleaned(joined(cleaned(root), cleaned(engine_dir)))
        &&& self.extension_path@ == cleaned(joined(cleaned(root), cleaned(extension_dir)))
        &&& self.depth == relative_depth(engine_dir)
    }
}

fn join_dir(base: &str, name: &str) -> (r: String)
    ensures
        r@ == joined(base@, name@),
{
    let n: usize = name.unicode_len();
    if n > 0 && name.get_char(0) == '/' {
        name.to_owned()
    } else {
        let mut r = base.to_owned();
        r.append("/");
        r.append(name);
        proof {
            reveal_strlit("/");
        }
        assert(r@ =~= base@ + seq!['/'] + name@);
        r
    }
}

/// Number of components of `p`, its root counted as one.
fn component_count(p: &str) -> (n: usize)
    ensures
        n == components(p@).len() + if is_rooted(p@) {
            1nat
        } else {
            0nat
        },
{
    let len: usize = p.unicode_len();
    let ghost s = p@;
    let ghost e: Seq<char> = Seq::empty();
    let rooted = len > 0 && p.get_char(0) == '/';
    let first: usize = if rooted {
        1
    } else {
        0
    };
    assert(rooted ==> components_from(s, e) == components_from(s.skip(1), e)) by {
        if rooted {
            assert(s.drop_first() =~= s.skip(1));
            assert(keep(e) =~= Seq::<Seq<char>>::empty());
            assert(keep(e) + components_from(s.skip(1), e) =~= components_from(s.skip(1), e));
        }
    }
    assert(s.skip(0) =~= s);
    assert(s.subrange(first as int, first as int) =~= e);
    let mut count: usize = 0;
    let mut start: usize = first;
    let mut i: usize = first;
    while i < len
        invariant
            len == s.len(),
            p@ == s,
            e == Seq::<char>::empty(),
            first <= start <= i <= len,
            count + first <= start,
            count + components_from(s.skip(i as int), s.subrange(start as int, i as int)).len()
                == components_from(s.skip(first as int), e).len(),
            !s.subrange(start as int, i as int).contains('/'),
        decreases len - i,
    {
        let ghost cur = s.subrange(start as int, i as int);
        let ghost rest = s.skip(i as int);
        assert(rest[0] == s[i as int]);
        assert(rest.drop_first() =~= s.skip(i + 1));
        let c = p.get_char(i);
        if c == '/' {
            let kept = i > start && !(i == start + 1 && p.get_char(start) == '.');
            assert(kept == (keep(cur).len() == 1)) by {
                if i == start + 1 {
                    if s[start as int] == '.' {
                        assert(cur =~= seq!['.']);
                    } else {
                        assert(cur != seq!['.']) by {
                            assert(cur[0] != seq!['.'][0]);
                        }
                    }
                } else if i > start + 1 {
                    assert(cur.len() != seq!['.'].len());
                }
            }
            assert(components_from(rest, cur) == keep(cur) + components_from(s.skip(i + 1), e));
            if kept {
                count = count + 1;
            }
            start = i + 1;
            assert(s.subrange(i + 1, i + 1) =~= e);
        } else {
            assert(components_from(rest, cur) == components_from(s.skip(i + 1), cur.push(c)));
            assert(cur.push(c) =~= s.subrange(start as int, i + 1));
            assert(!s.subrange(start as int, i + 1).contains('/')) by {
                let t = s.subrange(start as int, i + 1);
                if t.contains('/') {
                    let k = choose|k: int| 0 <= k < t.len() && t[k] == '/';
                    if k < cur.len() {
                        assert(cur[k] == '/');
                    }
                }
            }
        }
        i = i + 1;
    }
    let ghost cur = s.subrange(start as int, len as int);
    assert(s.skip(len as int) =~= e);
    let kept = len > start && !(len == start + 1 && p.get_char(start) == '.');
    assert(kept == (keep(cur).len() == 1)) by {
        if len == start + 1 {
            if s[start as int] == '.' {
                assert(cur =~= seq!['.']);
            } else {
                assert(cur != seq!['.']) by {
                    assert(cur[0] != seq!['.'][0]);
                }
            }
        } else if len > start + 1 {
            assert(cur.len() != seq!['.'].len());
        }
    }
    if kept {
        count = count + 1;
    }
    count + first
}

/// Places the two directory names under `root`, cleans all three, and counts
/// the levels between the engine tree and the root.
pub fn resolve(root: &str, engine_dir: &str, extension_dir: &str) -> (r: ResolvedPaths)
    ensures
        r.resolves(root@, engine_dir@, extension_dir@),
{
    let root_clean = normalize(root);
    let engine_clean = normalize(engine_dir);
    let extension_clean = normalize(extension_dir);
    let engine_joined = join_dir(root_clean.as_str(), engine_clean.as_str());
    let extension_joined = join_dir(root_clean.as_str(), extension_clean.as_str());
    let engine_path = normalize(engine_joined.as_str());
    let extension_path = normalize(extension_joined.as_str());
    let depth = component_count(engine_clean.as_str());
    proof {
        lemma_cleaned_shape(engine_dir@);
    }
    ResolvedPaths {
        root: root_clean,
        engine_dir: engine_clean,
        extension_dir: extension_clean,
        engine_path,
        extension_path,
        depth,
    }
}

/// A directory name that cleans to the current directory lies at depth 0:
/// it is not counted as a component.
pub proof fn lemma_current_dir_depth(dir: Seq<char>)
    requires
        cleaned(dir) == seq!['.'],
    ensures
        relative_depth(dir) == 0,
{
    lemma_cleaned_shape(dir);
    let d = seq!['.'];
    let e: Seq<char> = Seq::empty();
    assert(d.drop_first() =~= e);
    assert(e.push('.') =~= d);
    assert(components_from(d, e) == components_from(e, d));
    assert(is_rooted(d) == false);
}

/// A single plain name (neither `.` nor `..`) lies at depth 1.
pub proof fn lemma_single_name_depth(dir: Seq<char>)
    requires
        valid_segment(dir),
        !is_parent(dir),
    ensures
        relative_depth(dir) == 1,
{
    let e: Seq<char> = Seq::empty();
    let es: Seq<Seq<char>> = Seq::empty();
    lemma_components_segment(dir, e, e);
    assert(dir + e =~= dir);
    assert(e + dir =~= dir);
    assert(components(dir) =~= seq![dir]);
    assert(is_rooted(dir) == false) by {
        assert(dir.contains(dir[0]));
    }
    assert(reduce(es, seq![dir], false) == reduce(seq![dir], seq![dir].drop_first(), false));
    assert(seq![dir].drop_first() =~= es);
}

} // verus!
