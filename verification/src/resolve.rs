//! The interpreter resolver: maps a shebang interpreter token, possibly a
//! full path and possibly version-suffixed, to the tags of its language by
//! stripping the path prefix and then progressively stripping dotted
//! version segments until the interpreter table answers.

use vstd::prelude::*;

use crate::tables::{get_interpreter_tags, lemma_table_reserved, reserved_free, spec_interpreter_tags};
use crate::tags::TagSet;

verus! {

/// How many characters at the end of `t` differ from `stop`.
pub open spec fn suffix_free_len(t: Seq<char>, stop: char) -> nat
    decreases t.len(),
{
    if t.len() == 0 || t.last() == stop {
        0
    } else {
        (1 + suffix_free_len(t.drop_last(), stop)) as nat
    }
}

pub proof fn lemma_suffix_free_props(t: Seq<char>, stop: char)
    ensures
        suffix_free_len(t, stop) <= t.len(),
        forall|k: int| t.len() - suffix_free_len(t, stop) <= k < t.len() ==> t[k] != stop,
        suffix_free_len(t, stop) < t.len() ==> t[t.len() - 1 - suffix_free_len(t, stop)] == stop,
    decreases t.len(),
{
    if t.len() > 0 && t.last() != stop {
        lemma_suffix_free_props(t.drop_last(), stop);
        assert forall|k: int| t.len() - suffix_free_len(t, stop) <= k < t.len() implies t[k]
            != stop by {
            if k < t.len() - 1 {
                assert(t.drop_last()[k] != stop);
            }
        }
    }
}

/// `suffix_free_len` is exactly the scan a backward loop performs: `m`
/// characters from the end differ from `stop`, and the one before them, if
/// any, is `stop`.
pub proof fn lemma_suffix_free_value(t: Seq<char>, stop: char, m: int)
    requires
        0 <= m <= t.len(),
        forall|k: int| t.len() - m <= k < t.len() ==> t[k] != stop,
        m < t.len() ==> t[t.len() - 1 - m] == stop,
    ensures
        suffix_free_len(t, stop) == m,
    decreases m,
{
    if m == 0 {
        if t.len() > 0 {
            assert(t.last() == stop);
        }
    } else {
        assert(t.last() != stop);
        assert forall|k: int| t.drop_last().len() - (m - 1) <= k < t.drop_last().len() implies t.drop_last()[k]
            != stop by {
            assert(t[k] != stop);
        }
        if m - 1 < t.drop_last().len() {
            assert(t.drop_last()[t.drop_last().len() - 1 - (m - 1)] == t[t.len() - 1 - m]);
        }
        lemma_suffix_free_value(t.drop_last(), stop, m - 1);
    }
}

/// The token without any leading path: the part after the last `/`, or the
/// whole token when it has no `/`.
pub open spec fn spec_basename(t: Seq<char>) -> Seq<char> {
    t.skip(t.len() - suffix_free_len(t, '/'))
}

/// Progressive resolution of an interpreter name: answer from the
/// interpreter table on a hit; on a miss, drop the final dotted segment and
/// retry; stop empty-handed when no dot is left.
pub open spec fn spec_resolve(t: Seq<char>) -> Set<Seq<char>>
    decreases t.len(),
{
    if t.len() == 0 {
        Set::empty()
    } else if spec_interpreter_tags(t) != Set::<Seq<char>>::empty() {
        spec_interpreter_tags(t)
    } else if suffix_free_len(t, '.') < t.len() {
        spec_resolve(t.take(t.len() - 1 - suffix_free_len(t, '.')))
    } else {
        Set::empty()
    }
}

/// What an interpreter token resolves to: its basename, progressively
/// stripped of dotted version segments, looked up in the interpreter table.
pub open spec fn spec_tags_from_interpreter(t: Seq<char>) -> Set<Seq<char>> {
    spec_resolve(spec_basename(t))
}

/// A token resolves exactly as its basename does: the path prefix plays no
/// part in resolution.
pub proof fn lemma_resolve_ignores_path(t: Seq<char>)
    ensures
        spec_tags_from_interpreter(spec_basename(t)) == spec_tags_from_interpreter(t),
{
    lemma_suffix_free_props(t, '/');
    let b = spec_basename(t);
    assert forall|k: int| b.len() - b.len() <= k < b.len() implies b[k] != '/' by {
        assert(b[k] == t[t.len() - suffix_free_len(t, '/') + k]);
    }
    lemma_suffix_free_value(b, '/', b.len() as int);
    assert(spec_basename(b) =~= b);
}

/// On an interpreter-table hit, resolution answers with exactly the table's
/// tags.
pub proof fn lemma_resolve_hit(t: Seq<char>)
    requires
        t.len() > 0,
        spec_interpreter_tags(t) != Set::<Seq<char>>::empty(),
    ensures
        spec_resolve(t) == spec_interpreter_tags(t),
{
}

/// On an interpreter-table miss, a token with a dot resolves as the token
/// shortened at its last dot does.
pub proof fn lemma_resolve_strip(t: Seq<char>)
    requires
        t.len() > 0,
        spec_interpreter_tags(t) == Set::<Seq<char>>::empty(),
        suffix_free_len(t, '.') < t.len(),
    ensures
        spec_resolve(t) == spec_resolve(t.take(t.len() - 1 - suffix_free_len(t, '.'))),
{
}

/// Interpreter resolution never yields a type or mode tag: those come only
/// from the classifier itself.
pub proof fn lemma_resolve_reserved(t: Seq<char>)
    ensures
        reserved_free(spec_resolve(t)),
    decreases t.len(),
{
    lemma_table_reserved(t);
    if t.len() > 0 && spec_interpreter_tags(t) == Set::<Seq<char>>::empty() && suffix_free_len(
        t,
        '.',
    ) < t.len() {
        lemma_resolve_reserved(t.take(t.len() - 1 - suffix_free_len(t, '.')));
    }
}

/// Interpreter resolution never yields an encoding tag: `text` and
/// `binary` come from the filename tables or from content sniffing alone.
pub proof fn lemma_resolve_encoding(t: Seq<char>)
    ensures
        !spec_resolve(t).contains("text"@),
        !spec_resolve(t).contains("binary"@),
    decreases t.len(),
{
    lemma_table_reserved(t);
    if t.len() > 0 && spec_interpreter_tags(t) == Set::<Seq<char>>::empty() && suffix_free_len(
        t,
        '.',
    ) < t.len() {
        lemma_resolve_encoding(t.take(t.len() - 1 - suffix_free_len(t, '.')));
    }
}

/// Finds the start of the suffix of `s` free of `stop`, by scanning from
/// the end.
fn scan_suffix_free(s: &str, stop: char) -> (m: usize)
    ensures
        m == suffix_free_len(s@, stop),
{
    let n = s.unicode_len();
    let mut m: usize = 0;
    while m < n && s.get_char(n - 1 - m) != stop
        invariant
            0 <= m <= n,
            n == s@.len(),
            forall|k: int| n - m <= k < n ==> s@[k] != stop,
        decreases n - m,
    {
        m += 1;
    }
    proof {
        lemma_suffix_free_value(s@, stop, m as int);
    }
    m
}

/// Maps an interpreter token from a shebang to the tags of its language.
///
/// The token's path prefix is ignored; a dotted version suffix is stripped
/// segment by segment, most specific first, until the interpreter table
/// answers. An unrecognized token yields the empty set.
pub fn tags_from_interpreter(interpreter: &str) -> (r: TagSet)
    ensures
        r@ == spec_tags_from_interpreter(interpreter@),
{
    let n = interpreter.unicode_len();
    let m = scan_suffix_free(interpreter, '/');
    proof {
        lemma_suffix_free_props(interpreter@, '/');
    }
    let mut cur: &str = interpreter.substring_char(n - m, n);
    proof {
        assert(cur@ =~= spec_basename(interpreter@));
    }
    loop
        invariant
            spec_resolve(cur@) == spec_tags_from_interpreter(interpreter@),
        decreases cur@.len(),
    {
        if cur.unicode_len() == 0 {
            let r = TagSet::new();
            return r;
        }
        let tags = get_interpreter_tags(cur);
        if !tags.is_empty() {
            return tags;
        }
        let d = scan_suffix_free(cur, '.');
        let len = cur.unicode_len();
        proof {
            lemma_suffix_free_props(cur@, '.');
        }
        if d == len {
            let r = TagSet::new();
            return r;
        }
        let next = cur.substring_char(0, len - 1 - d);
        proof {
            assert(next@ =~= cur@.take(cur@.len() - 1 - suffix_free_len(cur@, '.')));
        }
        cur = next;
    }
}

} // verus!
