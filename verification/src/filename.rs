//! Filename analysis: the special-name scan over a filename and its
//! dot-separated parts, extension extraction, and the combined
//! filename-to-tags resolution.

use vstd::prelude::*;

use crate::strutil::{spec_lower, to_ascii_lower};
use crate::tables::{
    get_extension_tags, get_extensions_need_binary_check_tags, get_name_tags,
    lemma_table_encoding, lemma_table_reserved, reserved_free, spec_binary_check_tags,
    spec_extension_tags, spec_name_tags,
};
use crate::tags::TagSet;

verus! {

/// How many characters at the start of `t` differ from `stop`.
pub open spec fn prefix_free_len(t: Seq<char>, stop: char) -> nat
    decreases t.len(),
{
    if t.len() == 0 || t[0] == stop {
        0
    } else {
        (1 + prefix_free_len(t.drop_first(), stop)) as nat
    }
}

/// `prefix_free_len` is exactly the scan a forward loop performs.
proof fn lemma_prefix_free_value(t: Seq<char>, stop: char, m: int)
    requires
        0 <= m <= t.len(),
        forall|k: int| 0 <= k < m ==> t[k] != stop,
        m < t.len() ==> t[m] == stop,
    ensures
        prefix_free_len(t, stop) == m,
    decreases m,
{
    if m == 0 {
        if t.len() > 0 {
            assert(t[0] == stop);
        }
    } else {
        assert(t[0] != stop);
        let d = t.drop_first();
        assert forall|k: int| 0 <= k < m - 1 implies d[k] != stop by {
            assert(d[k] == t[k + 1]);
        }
        if m - 1 < d.len() {
            assert(d[m - 1] == t[m]);
        }
        lemma_prefix_free_value(d, stop, m - 1);
    }
}

/// A filename split on `.`, keeping empty parts, as `str::split('.')` does.
pub open spec fn spec_split_dots(f: Seq<char>) -> Seq<Seq<char>>
    decreases f.len(),
{
    let m = prefix_free_len(f, '.') as int;
    if m >= f.len() {
        seq![f]
    } else {
        seq![f.take(m)] + spec_split_dots(f.skip(m + 1))
    }
}

/// The first-hit scan of the special-name table over a list of candidate
/// names.
pub open spec fn spec_name_scan(parts: Seq<Seq<char>>) -> Set<Seq<char>>
    decreases parts.len(),
{
    if parts.len() == 0 {
        Set::empty()
    } else if spec_name_tags(parts[0]) != Set::<Seq<char>>::empty() {
        spec_name_tags(parts[0])
    } else {
        spec_name_scan(parts.drop_first())
    }
}

proof fn lemma_name_scan_cons(p: Seq<char>, rest: Seq<Seq<char>>)
    ensures
        spec_name_scan(seq![p] + rest) == (if spec_name_tags(p) != Set::<Seq<char>>::empty() {
            spec_name_tags(p)
        } else {
            spec_name_scan(rest)
        }),
{
    let parts = seq![p] + rest;
    assert(parts[0] == p);
    assert(parts.drop_first() =~= rest);
}

/// The tags a filename draws from the special-name table: the whole
/// filename is tried first, then each of its dot-separated parts in order;
/// the first hit answers.
pub open spec fn spec_name_part_tags(f: Seq<char>) -> Set<Seq<char>> {
    spec_name_scan(seq![f] + spec_split_dots(f))
}

/// How many characters at the end of `f` are neither `.` nor `/`.
pub open spec fn ext_suffix_len(f: Seq<char>) -> nat
    decreases f.len(),
{
    if f.len() == 0 || f.last() == '.' || f.last() == '/' {
        0
    } else {
        (1 + ext_suffix_len(f.drop_last())) as nat
    }
}

proof fn lemma_ext_suffix_value(f: Seq<char>, m: int)
    requires
        0 <= m <= f.len(),
        forall|k: int| f.len() - m <= k < f.len() ==> f[k] != '.' && f[k] != '/',
        m < f.len() ==> (f[f.len() - 1 - m] == '.' || f[f.len() - 1 - m] == '/'),
    ensures
        ext_suffix_len(f) == m,
    decreases m,
{
    if m == 0 {
        if f.len() > 0 {
            assert(f.last() == '.' || f.last() == '/');
        }
    } else {
        assert(f.last() != '.' && f.last() != '/');
        let d = f.drop_last();
        assert forall|k: int| d.len() - (m - 1) <= k < d.len() implies d[k] != '.' && d[k]
            != '/' by {
            assert(f[k] != '.' && f[k] != '/');
        }
        if m - 1 < d.len() {
            assert(d[d.len() - 1 - (m - 1)] == f[f.len() - 1 - m]);
        }
        lemma_ext_suffix_value(d, m - 1);
    }
}

/// The extension of a filename: the part of its last path component after
/// the final dot, absent when the component has no dot past its first
/// character.
pub open spec fn spec_extension_of(f: Seq<char>) -> Option<Seq<char>> {
    let j = f.len() - ext_suffix_len(f);
    if j >= 2 && f[j - 1] == '.' && f[j - 2] != '/' {
        Option::Some(f.skip(j))
    } else {
        Option::None
    }
}

/// The tags a filename draws from its extension: the case-folded extension
/// is tried against the built-in extension table, then, on a miss, against
/// the binary-check extension table.
pub open spec fn spec_ext_step(f: Seq<char>) -> Set<Seq<char>> {
    match spec_extension_of(f) {
        Option::None => Set::empty(),
        Option::Some(e) => {
            let le = spec_lower(e);
            if spec_extension_tags(le) != Set::<Seq<char>>::empty() {
                spec_extension_tags(le)
            } else {
                spec_binary_check_tags(le)
            }
        },
    }
}

/// What a bare filename classifies to: its special-name tags when the
/// special-name scan hits, its extension tags otherwise. A pure function
/// of the filename and the static tables.
pub open spec fn spec_tags_from_filename(f: Seq<char>) -> Set<Seq<char>> {
    if spec_name_part_tags(f) != Set::<Seq<char>>::empty() {
        spec_name_part_tags(f)
    } else {
        spec_ext_step(f)
    }
}

proof fn lemma_name_scan_reserved(parts: Seq<Seq<char>>)
    ensures
        reserved_free(spec_name_scan(parts)),
    decreases parts.len(),
{
    if parts.len() > 0 {
        lemma_table_reserved(parts[0]);
        if spec_name_tags(parts[0]) == Set::<Seq<char>>::empty() {
            lemma_name_scan_reserved(parts.drop_first());
        }
    }
}

/// Filename resolution never yields a type or mode tag: those come only
/// from the classifier itself.
pub proof fn lemma_filename_tags_reserved(f: Seq<char>)
    ensures
        reserved_free(spec_tags_from_filename(f)),
{
    lemma_name_scan_reserved(seq![f] + spec_split_dots(f));
    match spec_extension_of(f) {
        Option::None => {},
        Option::Some(e) => {
            lemma_table_reserved(spec_lower(e));
        },
    }
}

proof fn lemma_name_scan_encoding(parts: Seq<Seq<char>>)
    ensures
        !(spec_name_scan(parts).contains("text"@) && spec_name_scan(parts).contains("binary"@)),
    decreases parts.len(),
{
    if parts.len() > 0 {
        lemma_table_encoding(parts[0]);
        if spec_name_tags(parts[0]) == Set::<Seq<char>>::empty() {
            lemma_name_scan_encoding(parts.drop_first());
        }
    }
}

/// Filename resolution yields at most one of the `text`/`binary` encoding
/// tags: the special-name scan answers with a single table entry, and so
/// does the extension lookup, each carrying at most one encoding tag.
pub proof fn lemma_filename_tags_encoding(f: Seq<char>)
    ensures
        !(spec_tags_from_filename(f).contains("text"@) && spec_tags_from_filename(f).contains(
            "binary"@,
        )),
{
    lemma_name_scan_encoding(seq![f] + spec_split_dots(f));
    match spec_extension_of(f) {
        Option::None => {},
        Option::Some(e) => {
            lemma_table_encoding(spec_lower(e));
        },
    }
}

/// The special-name scan over a filename and its dot-separated parts.
fn name_part_tags(f: &str) -> (r: TagSet)
    ensures
        r@ == spec_name_part_tags(f@),
{
    let whole = get_name_tags(f);
    proof {
        lemma_name_scan_cons(f@, spec_split_dots(f@));
    }
    if !whole.is_empty() {
        return whole;
    }
    let n = f.unicode_len();
    let mut i: usize = 0;
    proof {
        assert(f@.skip(0) =~= f@);
    }
    loop
        invariant
            0 <= i <= n,
            n == f@.len(),
            spec_name_scan(spec_split_dots(f@.skip(i as int))) == spec_name_part_tags(f@),
        decreases n - i,
    {
        let mut j: usize = i;
        while j < n && f.get_char(j) != '.'
            invariant
                i <= j <= n,
                n == f@.len(),
                forall|k: int| i <= k < j ==> f@[k] != '.',
            decreases n - j,
        {
            j += 1;
        }
        let ghost s = f@.skip(i as int);
        proof {
            assert forall|k: int| 0 <= k < j - i implies s[k] != '.' by {
                assert(s[k] == f@[i + k]);
            }
            if j < n {
                assert(s[j - i] == f@[j as int]);
            }
            lemma_prefix_free_value(s, '.', j - i);
        }
        let part = f.substring_char(i, j);
        let pt = get_name_tags(part);
        if j == n {
            proof {
                assert(part@ =~= s);
                assert(spec_split_dots(s) == seq![s]);
                lemma_name_scan_cons(s, Seq::<Seq<char>>::empty());
                assert(seq![s] + Seq::<Seq<char>>::empty() =~= seq![s]);
            }
            return pt;
        }
        proof {
            assert(part@ =~= s.take(j - i));
            assert(s.skip(j - i + 1) =~= f@.skip(j + 1));
            assert(spec_split_dots(s) == seq![s.take(j - i)] + spec_split_dots(f@.skip(j + 1)));
            lemma_name_scan_cons(s.take(j - i), spec_split_dots(f@.skip(j + 1)));
        }
        if !pt.is_empty() {
            return pt;
        }
        i = j + 1;
    }
}

/// The case-folded extension of a filename, when it has one.
pub fn extension_lower_of(f: &str) -> (r: Option<String>)
    ensures
        (match spec_extension_of(f@) {
            Option::None => r is None,
            Option::Some(e) => r is Some && r->0@ == spec_lower(e),
        }),
{
    let n = f.unicode_len();
    let mut m: usize = 0;
    while m < n && f.get_char(n - 1 - m) != '.' && f.get_char(n - 1 - m) != '/'
        invariant
            0 <= m <= n,
            n == f@.len(),
            forall|k: int| n - m <= k < n ==> f@[k] != '.' && f@[k] != '/',
        decreases n - m,
    {
        m += 1;
    }
    proof {
        lemma_ext_suffix_value(f@, m as int);
    }
    let j = n - m;
    if j >= 2 && f.get_char(j - 1) == '.' && f.get_char(j - 2) != '/' {
        let ext = f.substring_char(j, n);
        proof {
            assert(ext@ =~= f@.skip(j as int));
        }
        Some(to_ascii_lower(ext))
    } else {
        None
    }
}

/// The extension lookup over a filename.
fn ext_step_tags(f: &str) -> (r: TagSet)
    ensures
        r@ == spec_ext_step(f@),
{
    match extension_lower_of(f) {
        Some(low) => {
            let et = get_extension_tags(low.as_str());
            if !et.is_empty() {
                et
            } else {
                get_extensions_need_binary_check_tags(low.as_str())
            }
        },
        None => TagSet::new(),
    }
}

/// Classifies a bare filename, without touching the filesystem: the special
/// filename table is scanned over the whole name and its dot-separated
/// parts, first hit winning; only when no name matches is the case-folded
/// extension looked up in the extension tables. An unrecognized filename
/// yields the empty set.
pub fn tags_from_filename(filename: &str) -> (r: TagSet)
    ensures
        r@ == spec_tags_from_filename(filename@),
{
    let tags = name_part_tags(filename);
    if !tags.is_empty() {
        return tags;
    }
    ext_step_tags(filename)
}

} // verus!
