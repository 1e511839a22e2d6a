//! The tag set: an unordered, duplicate-free collection of lowercase string
//! identifiers, used as the universal result type of classification.

use vstd::prelude::*;

use crate::strutil::str_eq;

verus! {

/// An unordered, duplicate-free collection of tags.
///
/// Its view is the mathematical set of the tags' character sequences.
#[derive(Debug)]
pub struct TagSet {
    items: Vec<String>,
}

impl View for TagSet {
    type V = Set<Seq<char>>;

    closed spec fn view(&self) -> Set<Seq<char>> {
        self.tag_seq().to_set()
    }
}

proof fn lemma_to_set_push<A>(s: Seq<A>, x: A)
    ensures
        s.push(x).to_set() =~= s.to_set().insert(x),
{
    assert forall|a: A| s.push(x).to_set().contains(a) implies s.to_set().insert(x).contains(
        a,
    ) by {
        let i = choose|i: int| 0 <= i < s.push(x).len() && s.push(x)[i] == a;
        if i < s.len() {
            assert(s[i] == a);
            assert(s.contains(a));
        }
    }
    assert forall|a: A| s.to_set().insert(x).contains(a) implies s.push(x).to_set().contains(
        a,
    ) by {
        if a == x {
            assert(s.push(x)[s.len() as int] == a);
            assert(s.push(x).contains(a));
        } else {
            let i = choose|i: int| 0 <= i < s.len() && s[i] == a;
            assert(s.push(x)[i] == a);
            assert(s.push(x).contains(a));
        }
    }
}

impl TagSet {
    /// The tags as character sequences, in insertion order.
    pub closed spec fn tag_seq(&self) -> Seq<Seq<char>> {
        self.items@.map_values(|s: String| s@)
    }

    /// The empty tag set.
    pub fn new() -> (r: TagSet)
        ensures
            r@ == Set::<Seq<char>>::empty(),
    {
        let r = TagSet { items: Vec::new() };
        proof {
            assert(r@ =~= Set::<Seq<char>>::empty());
        }
        r
    }

    /// Whether a tag is in the set.
    pub fn contains(&self, tag: &str) -> (r: bool)
        ensures
            r == self@.contains(tag@),
    {
        let n = self.items.len();
        let mut i: usize = 0;
        while i < n
            invariant
                0 <= i <= n,
                n == self.items.len(),
                forall|k: int| 0 <= k < i ==> self.tag_seq()[k] != tag@,
            decreases n - i,
        {
            if str_eq(self.items[i].as_str(), tag) {
                proof {
                    assert(self.tag_seq()[i as int] == tag@);
                    assert(self.tag_seq().contains(tag@));
                }
                return true;
            }
            i += 1;
        }
        proof {
            assert(!self.tag_seq().contains(tag@));
        }
        false
    }

    /// Adds a tag; a tag already present is not duplicated.
    pub fn insert(&mut self, tag: &str)
        ensures
            final(self)@ == old(self)@.insert(tag@),
    {
        if self.contains(tag) {
            proof {
                assert(self@ =~= self@.insert(tag@));
            }
        } else {
            let ghost old_tags = self.tag_seq();
            self.items.push(tag.to_owned());
            proof {
                assert(self.tag_seq() =~= old_tags.push(tag@));
                lemma_to_set_push(old_tags, tag@);
                assert(!old_tags.contains(tag@));
            }
        }
    }

    /// Whether the set has no tags.
    pub fn is_empty(&self) -> (r: bool)
        ensures
            r == (self@ == Set::<Seq<char>>::empty()),
    {
        if self.items.len() == 0 {
            proof {
                assert(self@ =~= Set::<Seq<char>>::empty());
            }
            true
        } else {
            proof {
                assert(self.tag_seq().contains(self.tag_seq()[0]));
                assert(self@.contains(self.tag_seq()[0]));
            }
            false
        }
    }

    /// Adds every tag of `other` to this set.
    pub fn union_with(&mut self, other: &TagSet)
        ensures
            final(self)@ == old(self)@.union(other@),
    {
        let n = other.items.len();
        let mut i: usize = 0;
        while i < n
            invariant
                0 <= i <= n,
                n == other.items.len(),
                self@ == old(self)@.union(other.tag_seq().take(i as int).to_set()),
            decreases n - i,
        {
            proof {
                assert(other.tag_seq().take(i + 1) =~= other.tag_seq().take(i as int).push(
                    other.tag_seq()[i as int],
                ));
                lemma_to_set_push(other.tag_seq().take(i as int), other.tag_seq()[i as int]);
            }
            self.insert(other.items[i].as_str());
            proof {
                assert(self@ =~= old(self)@.union(other.tag_seq().take(i + 1).to_set()));
            }
            i += 1;
        }
        proof {
            assert(other.tag_seq().take(n as int) =~= other.tag_seq());
            assert(other.tag_seq().to_set() == other@);
        }
    }

    /// The tags as a list of strings, in insertion order.
    pub fn to_vec(&self) -> (r: Vec<String>)
        ensures
            r@.map_values(|s: String| s@) == self.tag_seq(),
            r@.map_values(|s: String| s@).to_set() == self@,
    {
        let n = self.items.len();
        let mut r: Vec<String> = Vec::new();
        let mut i: usize = 0;
        while i < n
            invariant
                0 <= i <= n,
                n == self.items.len(),
                r@.len() == i,
                r@.map_values(|s: String| s@) =~= self.tag_seq().take(i as int),
            decreases n - i,
        {
            let cloned = self.items[i].clone();
            proof {
                assert(cloned@ == self.tag_seq()[i as int]);
            }
            let ghost pre = r@;
            r.push(cloned);
            proof {
                assert(r@ == pre.push(cloned));
                assert forall|k: int| 0 <= k < i + 1 implies (#[trigger] r@[k])@ == self.tag_seq().take(
                    i + 1,
                )[k] by {
                    if k < i {
                        assert(pre.map_values(|s: String| s@)[k] == pre[k]@);
                        assert(pre.map_values(|s: String| s@)[k] == self.tag_seq().take(i as int)[k]);
                    }
                }
                assert(r@.map_values(|s: String| s@) =~= self.tag_seq().take(i + 1));
            }
            i += 1;
        }
        proof {
            assert(self.tag_seq().take(n as int) =~= self.tag_seq());
        }
        r
    }

    /// Whether every tag of this set is in `other`.
    pub fn subset_of(&self, other: &TagSet) -> (r: bool)
        ensures
            r == self@.subset_of(other@),
    {
        let n = self.items.len();
        let mut i: usize = 0;
        while i < n
            invariant
                0 <= i <= n,
                n == self.items.len(),
                forall|k: int| 0 <= k < i ==> other@.contains(#[trigger] self.tag_seq()[k]),
            decreases n - i,
        {
            if !other.contains(self.items[i].as_str()) {
                proof {
                    assert(self.tag_seq().contains(self.tag_seq()[i as int]));
                    assert(self@.contains(self.tag_seq()[i as int]));
                }
                return false;
            }
            i += 1;
        }
        proof {
            assert forall|t: Seq<char>| self@.contains(t) implies other@.contains(t) by {
                let k = choose|k: int| 0 <= k < self.tag_seq().len() && self.tag_seq()[k] == t;
                assert(other@.contains(self.tag_seq()[k]));
            }
        }
        true
    }

    /// Whether the two sets share no tag.
    pub fn is_disjoint(&self, other: &TagSet) -> (r: bool)
        ensures
            r == self@.disjoint(other@),
    {
        let n = self.items.len();
        let mut i: usize = 0;
        while i < n
            invariant
                0 <= i <= n,
                n == self.items.len(),
                forall|k: int| 0 <= k < i ==> !other@.contains(#[trigger] self.tag_seq()[k]),
            decreases n - i,
        {
            if other.contains(self.items[i].as_str()) {
                proof {
                    assert(self.tag_seq().contains(self.tag_seq()[i as int]));
                    assert(self@.contains(self.tag_seq()[i as int]));
                }
                return false;
            }
            i += 1;
        }
        proof {
            assert forall|t: Seq<char>| self@.contains(t) implies !other@.contains(t) by {
                let k = choose|k: int| 0 <= k < self.tag_seq().len() && self.tag_seq()[k] == t;
                assert(!other@.contains(self.tag_seq()[k]));
            }
        }
        true
    }
}

impl PartialEq for TagSet {
    /// Two tag sets are equal when they hold the same tags, in any order.
    fn eq(&self, other: &TagSet) -> (r: bool) {
        let r = self.subset_of(other) && other.subset_of(self);
        proof {
            if r {
                assert(self@ =~= other@);
            }
        }
        r
    }
}

impl vstd::std_specs::cmp::PartialEqSpecImpl for TagSet {
    open spec fn obeys_eq_spec() -> bool {
        true
    }

    open spec fn eq_spec(&self, other: &TagSet) -> bool {
        self@ == other@
    }
}

/// Whether a tag names the kind of a filesystem entry.
pub fn is_type_tag(tag: &str) -> (r: bool)
    ensures
        r == (tag@ == "directory"@ || tag@ == "file"@ || tag@ == "symlink"@ || tag@ == "socket"@),
{
    str_eq(tag, "directory") || str_eq(tag, "file") || str_eq(tag, "symlink") || str_eq(
        tag,
        "socket",
    )
}

/// Whether a tag names the mode of a regular file.
pub fn is_mode_tag(tag: &str) -> (r: bool)
    ensures
        r == (tag@ == "executable"@ || tag@ == "non-executable"@),
{
    str_eq(tag, "executable") || str_eq(tag, "non-executable")
}

/// Whether a tag names the encoding of a regular file's content.
pub fn is_encoding_tag(tag: &str) -> (r: bool)
    ensures
        r == (tag@ == "binary"@ || tag@ == "text"@),
{
    str_eq(tag, "binary") || str_eq(tag, "text")
}

/// The tags that name the kind of a filesystem entry.
pub fn type_tags() -> (r: TagSet)
    ensures
        r@ == set!["directory"@, "file"@, "symlink"@, "socket"@],
{
    let mut r = TagSet::new();
    r.insert("directory");
    r.insert("file");
    r.insert("symlink");
    r.insert("socket");
    proof {
        assert(r@ =~= set!["directory"@, "file"@, "symlink"@, "socket"@]);
    }
    r
}

/// The tags that name the mode of a regular file.
pub fn mode_tags() -> (r: TagSet)
    ensures
        r@ == set!["executable"@, "non-executable"@],
{
    let mut r = TagSet::new();
    r.insert("executable");
    r.insert("non-executable");
    proof {
        assert(r@ =~= set!["executable"@, "non-executable"@]);
    }
    r
}

/// The tags that name the encoding of a regular file's content.
pub fn encoding_tags() -> (r: TagSet)
    ensures
        r@ == set!["binary"@, "text"@],
{
    let mut r = TagSet::new();
    r.insert("binary");
    r.insert("text");
    proof {
        assert(r@ =~= set!["binary"@, "text"@]);
    }
    r
}

/// Builds a tag set from a list of tags.
pub fn tags_from_array(tags: &[&str]) -> (r: TagSet)
    ensures
        r@ == tags@.map_values(|t: &str| t@).to_set(),
{
    let n = tags.len();
    let mut r = TagSet::new();
    let mut i: usize = 0;
    while i < n
        invariant
            0 <= i <= n,
            n == tags@.len(),
            r@ == tags@.map_values(|t: &str| t@).take(i as int).to_set(),
        decreases n - i,
    {
        proof {
            let m = tags@.map_values(|t: &str| t@);
            assert(m.take(i + 1) =~= m.take(i as int).push(m[i as int]));
            lemma_to_set_push(m.take(i as int), m[i as int]);
        }
        r.insert(tags[i]);
        proof {
            let m = tags@.map_values(|t: &str| t@);
            assert(r@ =~= m.take(i + 1).to_set());
        }
        i += 1;
    }
    proof {
        let m = tags@.map_values(|t: &str| t@);
        assert(m.take(n as int) =~= m);
    }
    r
}

} // verus!
