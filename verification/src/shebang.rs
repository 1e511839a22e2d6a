//! The shebang parser: reads the first line of a byte source, validates it,
//! and tokenizes it into the words of the interpreter invocation, unwrapping
//! a `/usr/bin/env` or `/usr/bin/env -S` indirection.

use vstd::prelude::*;

use crate::strutil::{ascii_to_string, chars_of_bytes, str_eq};
use vstd::std_specs::iter::IteratorSpec;

verus! {

/// A token separator inside a shebang line: space or horizontal tab.
pub open spec fn is_sep(b: u8) -> bool {
    b == 0x20 || b == 9
}

/// An ASCII whitespace byte, trimmed from the ends of a shebang line.
pub open spec fn is_ws_byte(b: u8) -> bool {
    b == 0x20 || b == 9 || b == 10 || b == 11 || b == 12 || b == 13
}

/// A byte a shebang line may hold after its marker: printable ASCII or
/// horizontal tab. Anything else voids the whole parse.
pub open spec fn allowed_byte(b: u8) -> bool {
    (0x20 <= b && b <= 0x7e) || b == 9
}

pub open spec fn all_allowed(s: Seq<u8>) -> bool {
    forall|i: int| 0 <= i < s.len() ==> allowed_byte(#[trigger] s[i])
}

fn byte_is_sep(b: u8) -> (r: bool)
    ensures
        r == is_sep(b),
{
    b == 0x20 || b == 9
}

fn byte_is_ws(b: u8) -> (r: bool)
    ensures
        r == is_ws_byte(b),
{
    b == 0x20 || b == 9 || b == 10 || b == 11 || b == 12 || b == 13
}

fn byte_allowed(b: u8) -> (r: bool)
    ensures
        r == allowed_byte(b),
{
    (0x20 <= b && b <= 0x7e) || b == 9
}

/// How many leading bytes of `s` differ from line feed.
pub open spec fn nl_free_len(s: Seq<u8>) -> nat
    decreases s.len(),
{
    if s.len() == 0 || s[0] == 10 {
        0
    } else {
        (1 + nl_free_len(s.skip(1))) as nat
    }
}

proof fn lemma_nl_free_value(s: Seq<u8>, m: int)
    requires
        0 <= m <= s.len(),
        forall|k: int| 0 <= k < m ==> s[k] != 10,
        m < s.len() ==> s[m] == 10,
    ensures
        nl_free_len(s) == m,
    decreases m,
{
    if m == 0 {
        if s.len() > 0 {
            assert(s[0] == 10);
        }
    } else {
        assert(s[0] != 10);
        let d = s.skip(1);
        assert forall|k: int| 0 <= k < m - 1 implies d[k] != 10 by {
            assert(d[k] == s[k + 1]);
        }
        if m - 1 < d.len() {
            assert(d[m - 1] == s[m]);
        }
        lemma_nl_free_value(d, m - 1);
    }
}

/// How many leading bytes of `s` are whitespace.
pub open spec fn ws_prefix_len(s: Seq<u8>) -> nat
    decreases s.len(),
{
    if s.len() == 0 || !is_ws_byte(s[0]) {
        0
    } else {
        (1 + ws_prefix_len(s.skip(1))) as nat
    }
}

proof fn lemma_ws_prefix_value(s: Seq<u8>, m: int)
    requires
        0 <= m <= s.len(),
        forall|k: int| 0 <= k < m ==> is_ws_byte(#[trigger] s[k]),
        m < s.len() ==> !is_ws_byte(s[m]),
    ensures
        ws_prefix_len(s) == m,
    decreases m,
{
    if m == 0 {
        if s.len() > 0 {
            assert(!is_ws_byte(s[0]));
        }
    } else {
        assert(is_ws_byte(s[0]));
        let d = s.skip(1);
        assert forall|k: int| 0 <= k < m - 1 implies is_ws_byte(#[trigger] d[k]) by {
            assert(d[k] == s[k + 1]);
        }
        if m - 1 < d.len() {
            assert(d[m - 1] == s[m]);
        }
        lemma_ws_prefix_value(d, m - 1);
    }
}

/// How many trailing bytes of `s` are whitespace.
pub open spec fn ws_suffix_len(s: Seq<u8>) -> nat
    decreases s.len(),
{
    if s.len() == 0 || !is_ws_byte(s.last()) {
        0
    } else {
        (1 + ws_suffix_len(s.drop_last())) as nat
    }
}

proof fn lemma_ws_suffix_value(s: Seq<u8>, m: int)
    requires
        0 <= m <= s.len(),
        forall|k: int| s.len() - m <= k < s.len() ==> is_ws_byte(#[trigger] s[k]),
        m < s.len() ==> !is_ws_byte(s[s.len() - 1 - m]),
    ensures
        ws_suffix_len(s) == m,
    decreases m,
{
    if m == 0 {
        if s.len() > 0 {
            assert(!is_ws_byte(s.last()));
        }
    } else {
        assert(is_ws_byte(s.last()));
        let d = s.drop_last();
        assert forall|k: int| d.len() - (m - 1) <= k < d.len() implies is_ws_byte(
            #[trigger] d[k],
        ) by {
            assert(d[k] == s[k]);
        }
        if m - 1 < d.len() {
            assert(d[d.len() - 1 - (m - 1)] == s[s.len() - 1 - m]);
        }
        lemma_ws_suffix_value(d, m - 1);
    }
}

/// How many leading bytes of `s` are not token separators.
pub open spec fn sep_free_len(s: Seq<u8>) -> nat
    decreases s.len(),
{
    if s.len() == 0 || is_sep(s[0]) {
        0
    } else {
        (1 + sep_free_len(s.skip(1))) as nat
    }
}

proof fn lemma_sep_free_le(s: Seq<u8>)
    ensures
        sep_free_len(s) <= s.len(),
    decreases s.len(),
{
    if s.len() > 0 && !is_sep(s[0]) {
        lemma_sep_free_le(s.skip(1));
    }
}

proof fn lemma_sep_free_value(s: Seq<u8>, m: int)
    requires
        0 <= m <= s.len(),
        forall|k: int| 0 <= k < m ==> !is_sep(#[trigger] s[k]),
        m < s.len() ==> is_sep(s[m]),
    ensures
        sep_free_len(s) == m,
    decreases m,
{
    if m == 0 {
        if s.len() > 0 {
            assert(is_sep(s[0]));
        }
    } else {
        assert(!is_sep(s[0]));
        let d = s.skip(1);
        assert forall|k: int| 0 <= k < m - 1 implies !is_sep(#[trigger] d[k]) by {
            assert(d[k] == s[k + 1]);
        }
        if m - 1 < d.len() {
            assert(d[m - 1] == s[m]);
        }
        lemma_sep_free_value(d, m - 1);
    }
}

/// The words of a byte sequence, split on runs of separators.
pub open spec fn spec_tokenize(s: Seq<u8>) -> Seq<Seq<u8>>
    decreases s.len(),
    via spec_tokenize_dec
{
    if s.len() == 0 {
        Seq::empty()
    } else if is_sep(s[0]) {
        spec_tokenize(s.skip(1))
    } else {
        seq![s.take(sep_free_len(s) as int)] + spec_tokenize(s.skip(sep_free_len(s) as int))
    }
}

#[via_fn]
proof fn spec_tokenize_dec(s: Seq<u8>) {
    lemma_sep_free_le(s);
}

/// The same words, as character sequences; every byte is ASCII by the time
/// tokenization runs.
pub open spec fn spec_tokens_chars(s: Seq<u8>) -> Seq<Seq<char>> {
    spec_tokenize(s).map_values(|t: Seq<u8>| chars_of_bytes(t))
}

/// How many leading bytes of a source take part in shebang parsing.
pub open spec fn line_limit(data: Seq<u8>) -> int {
    if data.len() <= 1024 {
        data.len() as int
    } else {
        1024
    }
}

/// The first line of a byte source: at most 1024 bytes, cut at the first
/// line feed, with a trailing line feed and then a trailing carriage return
/// stripped.
pub open spec fn spec_first_line(data: Seq<u8>) -> Seq<u8> {
    let cap = data.take(line_limit(data));
    let m = nl_free_len(cap) as int;
    let line0 = if m >= cap.len() {
        cap
    } else {
        cap.take(m)
    };
    if line0.len() > 0 && line0.last() == 13 {
        line0.drop_last()
    } else {
        line0
    }
}

/// A byte sequence with whitespace stripped from both ends.
pub open spec fn spec_trim(s: Seq<u8>) -> Seq<u8> {
    let t = s.skip(ws_prefix_len(s) as int);
    t.take(t.len() - ws_suffix_len(t))
}

/// Unwraps an `env` indirection: a leading `/usr/bin/env`, and a following
/// `-S`, are dropped, since they are not the true interpreter; a command
/// with nothing after them is empty.
pub open spec fn spec_unwrap_env(toks: Seq<Seq<char>>) -> Seq<Seq<char>> {
    if toks.len() == 0 {
        Seq::empty()
    } else if toks[0] == "/usr/bin/env"@ {
        if toks.len() == 1 {
            Seq::empty()
        } else if toks[1] == "-S"@ {
            toks.skip(2)
        } else {
            toks.skip(1)
        }
    } else {
        toks
    }
}

/// What a byte source's shebang line parses to: the words of the
/// interpreter invocation after `env` unwrapping, or the empty command when
/// the first line has no `#!` marker, holds a byte that is neither
/// printable ASCII nor tab, or names no interpreter.
pub open spec fn spec_parse_shebang(data: Seq<u8>) -> Seq<Seq<char>> {
    let line = spec_first_line(data);
    if line.len() < 2 || line[0] != 0x23 || line[1] != 0x21 {
        Seq::empty()
    } else {
        let rest = spec_trim(line.skip(2));
        if !all_allowed(rest) {
            Seq::empty()
        } else {
            spec_unwrap_env(spec_tokens_chars(rest))
        }
    }
}

/// An ordered, immutable sequence of the words of a shebang interpreter
/// invocation. An empty tuple stands for "no usable shebang".
#[derive(Debug)]
pub struct ShebangTuple {
    components: Vec<String>,
}

impl View for ShebangTuple {
    type V = Seq<Seq<char>>;

    closed spec fn view(&self) -> Seq<Seq<char>> {
        self.components@.map_values(|s: String| s@)
    }
}

impl ShebangTuple {
    /// The empty tuple.
    pub fn new() -> (r: ShebangTuple)
        ensures
            r@ == Seq::<Seq<char>>::empty(),
    {
        let r = ShebangTuple { components: Vec::new() };
        proof {
            assert(r@ =~= Seq::<Seq<char>>::empty());
        }
        r
    }

    /// Wraps a list of words.
    pub fn from_vec(vec: Vec<String>) -> (r: ShebangTuple)
        ensures
            r@ == vec@.map_values(|s: String| s@),
    {
        ShebangTuple { components: vec }
    }

    /// How many words the tuple holds.
    pub fn len(&self) -> (n: usize)
        ensures
            n == self@.len(),
    {
        self.components.len()
    }

    /// Whether the tuple holds no words.
    pub fn is_empty(&self) -> (r: bool)
        ensures
            r == (self@.len() == 0),
    {
        self.components.len() == 0
    }

    /// The word at an index, if the index is in range.
    pub fn get(&self, index: usize) -> (r: Option<&str>)
        ensures
            index < self@.len() ==> (r is Some && r->0@ == self@[index as int]),
            index >= self@.len() ==> r is None,
    {
        if index < self.components.len() {
            Some(self.components[index].as_str())
        } else {
            None
        }
    }

    /// The first word, if any.
    pub fn first(&self) -> (r: Option<&str>)
        ensures
            self@.len() > 0 ==> (r is Some && r->0@ == self@[0]),
            self@.len() == 0 ==> r is None,
    {
        self.get(0)
    }

    /// The words as a list of strings, consuming the tuple.
    pub fn into_vec(self) -> (r: Vec<String>)
        ensures
            r@.map_values(|s: String| s@) == self@,
    {
        self.components
    }

    /// An iterator over the words.
    pub fn iter(&self) -> (r: std::slice::Iter<'_, String>)
        ensures
            r.remaining().map_values(|s: &String| s@) == self@,
    {
        broadcast use vstd::std_specs::slice::axiom_spec_slice_iter;

        self.components.as_slice().iter()
    }

    /// The words as a slice.
    pub fn as_slice(&self) -> (r: &[String])
        ensures
            r@.map_values(|s: String| s@) == self@,
    {
        self.components.as_slice()
    }
}

impl PartialEq for ShebangTuple {
    /// Two tuples are equal when they hold the same words in the same order.
    fn eq(&self, other: &ShebangTuple) -> (r: bool) {
        let n = self.components.len();
        if n != other.components.len() {
            proof {
                assert(self@.len() == self.components@.len());
                assert(other@.len() == other.components@.len());
            }
            return false;
        }
        let mut i: usize = 0;
        while i < n
            invariant
                0 <= i <= n,
                n == self@.len(),
                n == other@.len(),
                forall|k: int| 0 <= k < i ==> self@[k] == other@[k],
            decreases n - i,
        {
            if !str_eq(self.components[i].as_str(), other.components[i].as_str()) {
                proof {
                    assert(self@[i as int] != other@[i as int]);
                }
                return false;
            }
            i += 1;
        }
        proof {
            assert(self@ =~= other@);
        }
        true
    }
}

impl vstd::std_specs::cmp::PartialEqSpecImpl for ShebangTuple {
    open spec fn obeys_eq_spec() -> bool {
        true
    }

    open spec fn eq_spec(&self, other: &ShebangTuple) -> bool {
        self@ == other@
    }
}

impl Default for ShebangTuple {
    /// The default tuple is empty.
    fn default() -> (r: ShebangTuple)
        ensures
            r@ == Seq::<Seq<char>>::empty(),
    {
        ShebangTuple::new()
    }
}

/// Copies the words of `v` from `start` on.
fn vec_tail(v: &Vec<String>, start: usize) -> (r: Vec<String>)
    requires
        start <= v@.len(),
    ensures
        r@.map_values(|s: String| s@) == v@.map_values(|s: String| s@).skip(start as int),
{
    let n = v.len();
    let mut r: Vec<String> = Vec::new();
    let mut i: usize = start;
    while i < n
        invariant
            start <= i <= n,
            n == v@.len(),
            r@.len() == i - start,
            forall|k: int| 0 <= k < i - start ==> (#[trigger] r@[k])@ == v@[start + k]@,
        decreases n - i,
    {
        r.push(v[i].clone());
        i += 1;
    }
    proof {
        assert(r@.map_values(|s: String| s@) =~= v@.map_values(|s: String| s@).skip(start as int));
    }
    r
}

/// Parses the shebang line at the start of a byte source into the words of
/// the interpreter invocation.
///
/// The first line, capped at 1024 bytes, must carry the `#!` marker and
/// hold only printable ASCII and tabs after it; otherwise the command is
/// empty. The words are split on runs of whitespace, and a `/usr/bin/env`
/// or `/usr/bin/env -S` prefix is dropped.
pub fn parse_shebang(data: &[u8]) -> (r: ShebangTuple)
    ensures
        r@ == spec_parse_shebang(data@),
{
    let limit: usize = if data.len() <= 1024 {
        data.len()
    } else {
        1024
    };
    let ghost cap = data@.take(line_limit(data@));
    // cut at the first line feed
    let mut e: usize = 0;
    while e < limit && data[e] != 10
        invariant
            0 <= e <= limit,
            limit == line_limit(data@),
            limit <= data@.len(),
            forall|k: int| 0 <= k < e ==> data@[k] != 10,
        decreases limit - e,
    {
        e += 1;
    }
    proof {
        assert(cap.len() == limit);
        assert forall|k: int| 0 <= k < e implies cap[k] != 10 by {
            assert(cap[k] == data@[k]);
        }
        if e < limit {
            assert(cap[e as int] == data@[e as int]);
        }
        lemma_nl_free_value(cap, e as int);
    }
    // strip a trailing carriage return
    let end: usize = if e >= 1 && data[e - 1] == 13 {
        e - 1
    } else {
        e
    };
    let ghost line = spec_first_line(data@);
    proof {
        if e >= 1 && data@[e - 1] == 13 {
            assert(cap.take(e as int).last() == 13);
            assert(line =~= data@.subrange(0, end as int));
        } else {
            assert(line =~= data@.subrange(0, end as int));
        }
    }
    // the marker
    if end < 2 || data[0] != 0x23 || data[1] != 0x21 {
        return ShebangTuple::new();
    }
    proof {
        assert(line[0] == data@[0]);
        assert(line[1] == data@[1]);
    }
    // trim whitespace after the marker
    let ghost after = line.skip(2);
    let mut a: usize = 2;
    while a < end && byte_is_ws(data[a])
        invariant
            2 <= a <= end,
            end <= data@.len(),
            forall|k: int| 2 <= k < a ==> is_ws_byte(#[trigger] data@[k]),
        decreases end - a,
    {
        a += 1;
    }
    proof {
        assert(after.len() == end - 2);
        assert forall|k: int| 0 <= k < a - 2 implies is_ws_byte(#[trigger] after[k]) by {
            assert(after[k] == data@[k + 2]);
        }
        if a < end {
            assert(after[a - 2] == data@[a as int]);
        }
        lemma_ws_prefix_value(after, a - 2);
    }
    let ghost started = after.skip(a - 2);
    let mut b: usize = end;
    while b > a && byte_is_ws(data[b - 1])
        invariant
            a <= b <= end,
            end <= data@.len(),
            forall|k: int| b <= k < end ==> is_ws_byte(#[trigger] data@[k]),
        decreases b - a,
    {
        b -= 1;
    }
    proof {
        assert(started.len() == end - a);
        assert forall|k: int| started.len() - (end - b) <= k < started.len() implies is_ws_byte(
            #[trigger] started[k],
        ) by {
            assert(started[k] == data@[k + a]);
        }
        if b > a {
            assert(started[started.len() - 1 - (end - b)] == data@[b - 1]);
        }
        lemma_ws_suffix_value(started, end - b);
    }
    let ghost rest = spec_trim(after);
    proof {
        assert(rest =~= data@.subrange(a as int, b as int));
    }
    // every remaining byte must be printable ASCII or tab
    let mut c: usize = a;
    while c < b && byte_allowed(data[c])
        invariant
            a <= c <= b,
            b <= data@.len(),
            forall|k: int| a <= k < c ==> allowed_byte(#[trigger] data@[k]),
        decreases b - c,
    {
        c += 1;
    }
    if c < b {
        proof {
            assert(!allowed_byte(rest[c - a]));
        }
        return ShebangTuple::new();
    }
    proof {
        assert forall|k: int| 0 <= k < rest.len() implies allowed_byte(#[trigger] rest[k]) by {
            assert(rest[k] == data@[k + a]);
        }
    }
    // split into words on runs of separators
    let mut toks: Vec<String> = Vec::new();
    let mut i: usize = a;
    while i < b
        invariant
            a <= i <= b,
            b <= data@.len(),
            rest == data@.subrange(a as int, b as int),
            all_allowed(rest),
            toks@.map_values(|s: String| s@) + spec_tokens_chars(data@.subrange(i as int, b as int))
                =~= spec_tokens_chars(rest),
        decreases b - i,
    {
        let ghost remaining = data@.subrange(i as int, b as int);
        if byte_is_sep(data[i]) {
            proof {
                assert(remaining.skip(1) =~= data@.subrange(i + 1, b as int));
                assert(spec_tokenize(remaining) == spec_tokenize(remaining.skip(1)));
            }
            i += 1;
        } else {
            let mut j: usize = i + 1;
            while j < b && !byte_is_sep(data[j])
                invariant
                    i < j <= b,
                    b <= data@.len(),
                    !is_sep(data@[i as int]),
                    forall|k: int| i <= k < j ==> !is_sep(#[trigger] data@[k]),
                decreases b - j,
            {
                j += 1;
            }
            proof {
                assert forall|k: int| 0 <= k < j - i implies !is_sep(#[trigger] remaining[k]) by {
                    assert(remaining[k] == data@[k + i]);
                }
                if j < b {
                    assert(remaining[j - i] == data@[j as int]);
                }
                lemma_sep_free_value(remaining, j - i);
                assert(remaining.take(j - i) =~= data@.subrange(i as int, j as int));
                assert(remaining.skip(j - i) =~= data@.subrange(j as int, b as int));
            }
            proof {
                assert forall|k: int| 0 <= k < j - i implies data@.subrange(i as int, j as int)[k]
                    < 0x80 by {
                    assert(rest[i - a + k] == data@[i + k]);
                    assert(allowed_byte(data@[i + k]));
                }
            }
            let tok = ascii_to_string(&data[i..j]);
            let ghost pre = toks@;
            toks.push(tok);
            proof {
                let f = |s: String| s@;
                assert(toks@ == pre.push(tok));
                assert(tok@ == chars_of_bytes(data@.subrange(i as int, j as int)));
                assert forall|k: int| 0 <= k < toks@.len() implies #[trigger] toks@.map_values(f)[k]
                    == (pre.map_values(f) + seq![chars_of_bytes(data@.subrange(i as int, j as int))])[k] by {
                    if k < pre.len() {
                        assert(toks@.map_values(f)[k] == toks@[k]@);
                        assert(pre.map_values(f)[k] == pre[k]@);
                    } else {
                        assert(toks@.map_values(f)[k] == tok@);
                    }
                }
                assert(toks@.map_values(f) =~= pre.map_values(f) + seq![
                    chars_of_bytes(data@.subrange(i as int, j as int)),
                ]);
                assert(spec_tokenize(remaining) == seq![remaining.take(j - i)] + spec_tokenize(
                    remaining.skip(j - i),
                ));
                assert(spec_tokens_chars(remaining) =~= seq![
                    chars_of_bytes(data@.subrange(i as int, j as int)),
                ] + spec_tokens_chars(data@.subrange(j as int, b as int)));
            }
            i = j;
        }
    }
    proof {
        assert(data@.subrange(i as int, b as int).len() == 0);
        assert(spec_tokenize(data@.subrange(i as int, b as int)) =~= Seq::<Seq<u8>>::empty());
        assert(toks@.map_values(|s: String| s@) =~= spec_tokens_chars(rest));
    }
    // unwrap an env indirection
    let ghost tokens = spec_tokens_chars(rest);
    if toks.len() == 0 {
        return ShebangTuple::new();
    }
    proof {
        assert(toks@.map_values(|s: String| s@)[0] == toks@[0]@);
    }
    if str_eq(toks[0].as_str(), "/usr/bin/env") {
        if toks.len() == 1 {
            return ShebangTuple::new();
        }
        proof {
            assert(toks@.map_values(|s: String| s@)[1] == toks@[1]@);
        }
        if str_eq(toks[1].as_str(), "-S") {
            let cmd = vec_tail(&toks, 2);
            return ShebangTuple::from_vec(cmd);
        }
        let cmd = vec_tail(&toks, 1);
        return ShebangTuple::from_vec(cmd);
    }
    ShebangTuple::from_vec(toks)
}

} // verus!
