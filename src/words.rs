//! Where the word that makes an extension reloadable can occur in a manifest.
use vstd::prelude::*;
use crate::templates::{
    entries,
    entry,
    library_line,
    library_lines,
    manifest_text,
    platform,
    up_prefix,
    DEBUG,
    DLL,
    DYLIB,
    LIB,
    LIBRARIES_HEADER,
    LINUX_DEBUG,
    LINUX_RELEASE,
    MACOS_ARM_DEBUG,
    MACOS_ARM_RELEASE,
    MACOS_DEBUG,
    MACOS_RELEASE,
    MANIFEST_HEAD,
    NEWLINE,
    NO_PREFIX,
    PLATFORM_COUNT,
    QUOTE,
    RELEASE,
    RELOADABLE_LINE,
    RES_OPEN,
    SLASH,
    SO,
    TARGET,
    UP,
    WINDOWS_DEBUG,
    WINDOWS_RELEASE,
};

verus! {

/// The word whose line makes an extension reloadable.
pub const RELOADABLE_WORD: &'static str = "reloadable";

/// `w` stands in `s` from position `i` on.
pub open spec fn occurs_at(s: Seq<char>, w: Seq<char>, i: int) -> bool {
    0 <= i && i + w.len() <= s.len() && s.subrange(i, i + w.len()) == w
}

/// `s` holds the reloadable word nowhere.
pub open spec fn word_free(s: Seq<char>) -> bool {
    forall|i: int| !occurs_at(s, RELOADABLE_WORD@, i)
}

/// An occurrence in `a + b` lies in `a`, in `b`, or across the seam; one across
/// the seam holds the last character of `a` and the first of `b`, and begins
/// with a character of `a`.
proof fn lemma_occurrence_split(a: Seq<char>, b: Seq<char>, w: Seq<char>, i: int)
    requires
        occurs_at(a + b, w, i),
    ensures
        occurs_at(a, w, i) || occurs_at(b, w, i - a.len()) || (a.len() > 0 && b.len() > 0 && w.contains(
            a.last(),
        ) && w.contains(b[0]) && a.contains(w[0])),
{
    let s = a + b;
    let n = w.len();
    if i + n <= a.len() {
        assert(s.subrange(i, i + n) =~= a.subrange(i, i + n));
    } else if i >= a.len() {
        assert(s.subrange(i, i + n) =~= b.subrange(i - a.len(), i - a.len() + n));
    } else {
        let k = a.len() - 1 - i;
        assert(w[k] == s.subrange(i, i + n)[k]);
        assert(w[k + 1] == s.subrange(i, i + n)[k + 1]);
        assert(w[0] == s.subrange(i, i + n)[0]);
        assert(a[i] == s[i]);
        assert(w[k] == a.last());
        assert(w[k + 1] == b[0]);
    }
}

/// Joining two word-free texts makes none where the seam cannot lie inside the word.
proof fn lemma_free_concat(a: Seq<char>, b: Seq<char>)
    requires
        word_free(a),
        word_free(b),
        a.len() == 0 || b.len() == 0 || !RELOADABLE_WORD@.contains(a.last()) || !RELOADABLE_WORD@.contains(b[0])
            || !a.contains(RELOADABLE_WORD@[0]),
    ensures
        word_free(a + b),
{
    assert forall|i: int| !occurs_at(a + b, RELOADABLE_WORD@, i) by {
        if occurs_at(a + b, RELOADABLE_WORD@, i) {
            lemma_occurrence_split(a, b, RELOADABLE_WORD@, i);
            assert(!occurs_at(b, RELOADABLE_WORD@, i - a.len()));
        }
    }
}

proof fn lemma_up_prefix_chars(depth: nat)
    ensures
        forall|k: int| 0 <= k < up_prefix(depth).len() ==> #[trigger] up_prefix(depth)[k] == '.' || up_prefix(depth)[k] == '/',
        depth > 0 ==> up_prefix(depth).len() > 0 && up_prefix(depth).last() == '/',
    decreases depth,
{
    reveal_strlit("../");
    if depth > 0 {
        lemma_up_prefix_chars((depth - 1) as nat);
        let p = up_prefix((depth - 1) as nat);
        assert forall|k: int| 0 <= k < up_prefix(depth).len() implies #[trigger] up_prefix(depth)[k] == '.' || up_prefix(depth)[k] == '/' by {
            if k < p.len() {
                assert(up_prefix(depth)[k] == p[k]);
            } else {
                assert(up_prefix(depth)[k] == UP@[k - p.len()]);
            }
        }
    }
}

proof fn lemma_literals()
    ensures
        word_free(MANIFEST_HEAD@),
        word_free(LIBRARIES_HEADER@),
        word_free(RES_OPEN@),
        word_free(TARGET@),
        word_free(SLASH@),
        word_free(QUOTE@),
        word_free(NEWLINE@),
        word_free(DEBUG@),
        word_free(RELEASE@),
        word_free(LIB@),
        word_free(NO_PREFIX@),
        word_free(SO@),
        word_free(DLL@),
        word_free(DYLIB@),
        word_free(LINUX_DEBUG@),
        word_free(LINUX_RELEASE@),
        word_free(WINDOWS_DEBUG@),
        word_free(WINDOWS_RELEASE@),
        word_free(MACOS_DEBUG@),
        word_free(MACOS_RELEASE@),
        word_free(MACOS_ARM_DEBUG@),
        word_free(MACOS_ARM_RELEASE@),
        MANIFEST_HEAD@.len() > 0 && MANIFEST_HEAD@.last() == '\n',
        LIBRARIES_HEADER@.len() > 0 && LIBRARIES_HEADER@[0] == '\n' && LIBRARIES_HEADER@.last() == '\n',
        RES_OPEN@.len() > 0 && RES_OPEN@[0] == '"' && RES_OPEN@.last() == '/',
        TARGET@.len() > 0 && TARGET@[0] == '/' && TARGET@.last() == '/',
        SLASH@ == seq!['/'],
        QUOTE@ == seq!['"'],
        NEWLINE@ == seq!['\n'],
        !LIB@.contains('r'),
        NO_PREFIX@.len() == 0,
        SO@[0] == '.' && DLL@[0] == '.' && DYLIB@[0] == '.',
        RELOADABLE_LINE@.len() > 0 && RELOADABLE_LINE@.last() == '\n',
        RELOADABLE_LINE@.subrange(0, RELOADABLE_WORD@.len() as int) == RELOADABLE_WORD@,
        forall|j: int| occurs_at(RELOADABLE_LINE@, RELOADABLE_WORD@, j) ==> j == 0,
        !RELOADABLE_WORD@.contains('/') && !RELOADABLE_WORD@.contains('"') && !RELOADABLE_WORD@.contains('\n')
            && !RELOADABLE_WORD@.contains('.'),
        RELOADABLE_WORD@.len() == 10,
        RELOADABLE_WORD@[0] == 'r',
        RELOADABLE_LINE@.len() >= RELOADABLE_WORD@.len(),
        SO@.len() > 0 && DLL@.len() > 0 && DYLIB@.len() > 0,
        forall|s: Seq<char>, i: int| #[trigger] occurs_at(s, RELOADABLE_WORD@, i) ==> s[i] == 'r',
{
    reveal_strlit("reloadable");
    reveal_strlit("reloadable = true\n");
    reveal_strlit("[configuration]\nentry_symbol = \"gdext_rust_init\"\ncompatibility_minimum = 4.1\n");
    reveal_strlit("\n[libraries]\n");
    reveal_strlit("\"res://");
    reveal_strlit("/target/");
    reveal_strlit("/");
    reveal_strlit("\"");
    reveal_strlit("\n");
    reveal_strlit("debug");
    reveal_strlit("release");
    reveal_strlit("lib");
    reveal_strlit("");
    reveal_strlit(".so");
    reveal_strlit(".dll");
    reveal_strlit(".dylib");
    reveal_strlit("linux.debug.x86_64 =     ");
    reveal_strlit("linux.release.x86_64 =   ");
    reveal_strlit("windows.debug.x86_64 =   ");
    reveal_strlit("windows.release.x86_64 = ");
    reveal_strlit("macos.debug =            ");
    reveal_strlit("macos.release =          ");
    reveal_strlit("macos.debug.arm64 =      ");
    reveal_strlit("macos.release.arm64 =    ");
    let w = RELOADABLE_WORD@;
    assert forall|s: Seq<char>, i: int| occurs_at(s, w, i) implies s[i] == 'r' && s[i + 3] == 'o' && s[i
        + 8] == 'l' by {
        assert(s[i] == s.subrange(i, i + w.len())[0]);
        assert(s[i + 3] == s.subrange(i, i + w.len())[3]);
        assert(s[i + 8] == s.subrange(i, i + w.len())[8]);
    }
    assert(RELOADABLE_LINE@.subrange(0, w.len() as int) =~= w);
}

proof fn lemma_library_line_free(
    key: Seq<char>,
    profile: Seq<char>,
    pre: Seq<char>,
    ext: Seq<char>,
    depth: nat,
    dir: Seq<char>,
    name: Seq<char>,
)
    requires
        word_free(key),
        word_free(profile),
        word_free(pre),
        word_free(ext),
        word_free(dir),
        word_free(name),
        !pre.contains('r'),
        ext.len() > 0 && ext[0] == '.',
    ensures
        word_free(library_line(key, profile, pre, ext, up_prefix(depth), dir, name)),
{
    reveal(library_line);
    lemma_literals();
    lemma_up_prefix_chars(depth);
    let up = up_prefix(depth);
    assert(word_free(up)) by {
        assert forall|i: int| !occurs_at(up, RELOADABLE_WORD@, i) by {
            if occurs_at(up, RELOADABLE_WORD@, i) {
                assert(up[i] == '.' || up[i] == '/');
            }
        }
    }
    let a1 = key + RES_OPEN@;
    lemma_free_concat(key, RES_OPEN@);
    let a2 = a1 + up;
    lemma_free_concat(a1, up);
    assert(a2.last() == '/') by {
        if depth == 0 {
            assert(up.len() == 0);
            assert(a2 =~= a1);
        }
    }
    let a3 = a2 + dir;
    lemma_free_concat(a2, dir);
    let a4 = a3 + TARGET@;
    lemma_free_concat(a3, TARGET@);
    let a5 = a4 + profile;
    lemma_free_concat(a4, profile);
    let a6 = a5 + SLASH@;
    lemma_free_concat(a5, SLASH@);
    let t1 = name + ext;
    lemma_free_concat(name, ext);
    let t2 = pre + t1;
    lemma_free_concat(pre, t1);
    let a7 = a6 + t2;
    lemma_free_concat(a6, t2);
    lemma_free_concat(a7, QUOTE@);
    assert(library_line(key, profile, pre, ext, up, dir, name) =~= a7 + QUOTE@);
}

proof fn lemma_entries_free(k: nat, depth: nat, dir: Seq<char>, name: Seq<char>)
    requires
        word_free(dir),
        word_free(name),
        k <= PLATFORM_COUNT,
    ensures
        word_free(entries(k, up_prefix(depth), dir, name)),
        k > 0 ==> entries(k, up_prefix(depth), dir, name).len() > 0,
    decreases k,
{
    lemma_literals();
    let up = up_prefix(depth);
    if k > 0 {
        let p = platform(k - 1);
        lemma_library_line_free(p.0, p.1, p.2, p.3, depth, dir, name);
        reveal(library_line);
        assert(entry(k - 1, up, dir, name).len() > 0);
        if k > 1 {
            lemma_entries_free((k - 1) as nat, depth, dir, name);
            let prev = entries((k - 1) as nat, up, dir, name);
            lemma_free_concat(prev, NEWLINE@);
            lemma_free_concat(prev + NEWLINE@, entry(k - 1, up, dir, name));
        }
    }
}

/// The reloadable word shows only on its own line: without the flag the
/// manifest holds it nowhere; with the flag it holds it exactly once, at the
/// start of the line `reloadable = true` that directly follows the
/// configuration head. This needs the library name and the extension
/// directory not to hold the word themselves.
pub proof fn lemma_reloadable_word(name: Seq<char>, depth: nat, dir: Seq<char>)
    requires
        word_free(name),
        word_free(dir),
    ensures
        word_free(manifest_text(name, false, depth, dir)),
        forall|i: int|
            occurs_at(manifest_text(name, true, depth, dir), RELOADABLE_WORD@, i) <==> i == MANIFEST_HEAD@.len(),
        manifest_text(name, true, depth, dir).subrange(
            MANIFEST_HEAD@.len() as int,
            (MANIFEST_HEAD@.len() + RELOADABLE_LINE@.len()) as int,
        ) == RELOADABLE_LINE@,
{
    lemma_literals();
    let up = up_prefix(depth);
    let lines = library_lines(up, dir, name);
    lemma_entries_free(PLATFORM_COUNT as nat, depth, dir, name);
    let rest = LIBRARIES_HEADER@ + lines;
    lemma_free_concat(LIBRARIES_HEADER@, lines);
    let e: Seq<char> = Seq::empty();
    assert(manifest_text(name, false, depth, dir) =~= MANIFEST_HEAD@ + rest);
    lemma_free_concat(MANIFEST_HEAD@, rest);
    let head = MANIFEST_HEAD@;
    let line = RELOADABLE_LINE@;
    let s = manifest_text(name, true, depth, dir);
    assert(s =~= head + (line + rest));
    assert(s.subrange(head.len() as int, (head.len() + line.len()) as int) =~= line);
    assert forall|i: int| occurs_at(s, RELOADABLE_WORD@, i) <==> i == head.len() by {
        let w = RELOADABLE_WORD@;
        if occurs_at(s, w, i) {
            lemma_occurrence_split(head, line + rest, w, i);
            if occurs_at(line + rest, w, i - head.len()) {
                lemma_occurrence_split(line, rest, w, i - head.len());
            }
        }
        if i == head.len() {
            assert(s.subrange(i, i + w.len()) =~= line.subrange(0, w.len() as int));
        }
    }
}

} // verus!
