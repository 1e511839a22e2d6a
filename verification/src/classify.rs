//! The file classifier: the ordered decision procedure that turns an
//! entry's kind, its executable bit, its filename, and a bounded prefix of
//! its content into a tag set, together with the configuration that can
//! skip steps or supply a custom extension table.

use vstd::prelude::*;

use crate::filename::{
    extension_lower_of, lemma_filename_tags_encoding, lemma_filename_tags_reserved,
    spec_extension_of, spec_tags_from_filename, tags_from_filename,
};
use crate::resolve::{
    lemma_resolve_encoding, lemma_resolve_reserved, spec_tags_from_interpreter,
    tags_from_interpreter,
};
use crate::tables::reserved_free;
use crate::shebang::{parse_shebang, spec_parse_shebang};
use crate::strutil::spec_lower;
use crate::tags::TagSet;
use crate::{is_text, spec_is_text};

verus! {

/// The kind of a filesystem entry, as link-aware metadata reports it.
#[derive(Clone, Copy, Debug, PartialEq, Eq, Structural)]
pub enum EntryKind {
    Directory,
    Symlink,
    Socket,
    Regular,
}

/// Configuration of a classification: which optional steps to run, and an
/// optional extension table consulted before the built-in ones.
#[derive(Debug)]
pub struct FileIdentifier {
    /// Skip text/binary content sniffing.
    pub skip_content_analysis: bool,
    /// Skip shebang parsing for executable files.
    pub skip_shebang_analysis: bool,
    /// Extension-to-tags pairs consulted before the built-in tables; the
    /// first pair whose key matches answers.
    pub custom_extensions: Option<Vec<(String, TagSet)>>,
}

/// First-match lookup of a key in a list of extension-to-tags pairs.
pub open spec fn spec_custom_lookup(list: Seq<(String, TagSet)>, key: Seq<char>) -> Option<
    Set<Seq<char>>,
>
    decreases list.len(),
{
    if list.len() == 0 {
        Option::None
    } else if list[0].0@ == key {
        Option::Some(list[0].1@)
    } else {
        spec_custom_lookup(list.skip(1), key)
    }
}

/// The answer of a configured custom extension table for a filename, if
/// the configuration has one and the filename's case-folded extension is a
/// key of it.
pub open spec fn spec_custom_step(cfg: FileIdentifier, f: Seq<char>) -> Option<Set<Seq<char>>> {
    match cfg.custom_extensions {
        Option::None => Option::None,
        Option::Some(list) => match spec_extension_of(f) {
            Option::None => Option::None,
            Option::Some(e) => spec_custom_lookup(list@, spec_lower(e)),
        },
    }
}

/// The filename-and-shebang step of classification: a custom extension
/// match answers exclusively; otherwise the filename tables answer; on an
/// empty answer for an executable file, the shebang's interpreter answers,
/// unless shebang analysis is skipped.
pub open spec fn spec_filename_shebang_step(
    cfg: FileIdentifier,
    f: Seq<char>,
    executable: bool,
    prefix: Seq<u8>,
) -> Set<Seq<char>> {
    match spec_custom_step(cfg, f) {
        Option::Some(t) => t,
        Option::None => {
            let ft = spec_tags_from_filename(f);
            if ft != Set::<Seq<char>>::empty() {
                ft
            } else if executable && !cfg.skip_shebang_analysis {
                let cmd = spec_parse_shebang(prefix);
                if cmd.len() > 0 {
                    spec_tags_from_interpreter(cmd[0])
                } else {
                    Set::empty()
                }
            } else {
                Set::empty()
            }
        },
    }
}

/// The whole classification: a non-regular entry answers with its kind tag
/// alone; a regular file starts from `file` and its mode tag, adds the
/// filename-and-shebang step, and, unless content sniffing is skipped or an
/// encoding tag is already present, adds `text` or `binary` from its
/// content prefix.
pub open spec fn spec_classify(
    cfg: FileIdentifier,
    kind: EntryKind,
    executable: bool,
    f: Seq<char>,
    prefix: Seq<u8>,
) -> Set<Seq<char>> {
    match kind {
        EntryKind::Directory => set!["directory"@],
        EntryKind::Symlink => set!["symlink"@],
        EntryKind::Socket => set!["socket"@],
        EntryKind::Regular => {
            let base = set!["file"@].insert(
                if executable {
                    "executable"@
                } else {
                    "non-executable"@
                },
            );
            let t = base.union(spec_filename_shebang_step(cfg, f, executable, prefix));
            if !cfg.skip_content_analysis && !t.contains("text"@) && !t.contains("binary"@) {
                t.insert(
                    if spec_is_text(prefix) {
                        "text"@
                    } else {
                        "binary"@
                    },
                )
            } else {
                t
            }
        },
    }
}

/// A configuration whose custom tag sets stay clear of the reserved type
/// and mode tags, as table curation demands.
pub open spec fn spec_custom_clear(cfg: FileIdentifier) -> bool {
    match cfg.custom_extensions {
        Option::None => true,
        Option::Some(list) => forall|i: int|
            0 <= i < list@.len() ==> reserved_free((#[trigger] list@[i]).1@),
    }
}

proof fn lemma_custom_lookup_reserved(list: Seq<(String, TagSet)>, key: Seq<char>)
    requires
        forall|i: int| 0 <= i < list.len() ==> reserved_free((#[trigger] list[i]).1@),
    ensures
        (match spec_custom_lookup(list, key) {
            Option::Some(t) => reserved_free(t),
            Option::None => true,
        }),
    decreases list.len(),
{
    if list.len() > 0 && list[0].0@ != key {
        assert forall|i: int| 0 <= i < list.skip(1).len() implies reserved_free(
            (#[trigger] list.skip(1)[i]).1@,
        ) by {
            assert(list.skip(1)[i] == list[i + 1]);
        }
        lemma_custom_lookup_reserved(list.skip(1), key);
    }
}

/// Tag-group discipline of classification, for every configuration whose
/// custom tag sets respect table curation: a non-regular entry carries
/// exactly its kind tag; a regular file carries `file` and no other type
/// tag, and exactly the mode tag that its executable bit dictates.
pub proof fn lemma_classify_tag_groups(
    cfg: FileIdentifier,
    kind: EntryKind,
    executable: bool,
    f: Seq<char>,
    prefix: Seq<u8>,
)
    requires
        spec_custom_clear(cfg),
    ensures
        kind == EntryKind::Directory ==> spec_classify(cfg, kind, executable, f, prefix)
            == set!["directory"@],
        kind == EntryKind::Symlink ==> spec_classify(cfg, kind, executable, f, prefix)
            == set!["symlink"@],
        kind == EntryKind::Socket ==> spec_classify(cfg, kind, executable, f, prefix)
            == set!["socket"@],
        kind == EntryKind::Regular ==> spec_classify(cfg, kind, executable, f, prefix).contains(
            "file"@,
        ),
        kind == EntryKind::Regular ==> !spec_classify(cfg, kind, executable, f, prefix).contains(
            "directory"@,
        ) && !spec_classify(cfg, kind, executable, f, prefix).contains("symlink"@)
            && !spec_classify(cfg, kind, executable, f, prefix).contains("socket"@),
        kind == EntryKind::Regular ==> (spec_classify(cfg, kind, executable, f, prefix).contains(
            "executable"@,
        ) <==> executable),
        kind == EntryKind::Regular ==> (spec_classify(cfg, kind, executable, f, prefix).contains(
            "non-executable"@,
        ) <==> !executable),
{
    broadcast use vstd::string::group_string_axioms;

    reveal_strlit("file");
    reveal_strlit("directory");
    reveal_strlit("symlink");
    reveal_strlit("socket");
    reveal_strlit("executable");
    reveal_strlit("non-executable");
    reveal_strlit("text");
    reveal_strlit("binary");
    assert("file"@.len() == 4);
    assert("directory"@.len() == 9);
    assert("symlink"@.len() == 7);
    assert("socket"@.len() == 6);
    assert("executable"@.len() == 10);
    assert("non-executable"@.len() == 14);
    assert("text"@.len() == 4);
    assert("binary"@.len() == 6);
    assert("file"@[0] == 'f');
    assert("text"@[0] == 't');
    assert("socket"@[0] == 's');
    assert("binary"@[0] == 'b');
    if kind == EntryKind::Regular {
        let step = spec_filename_shebang_step(cfg, f, executable, prefix);
        assert(reserved_free(step)) by {
            match spec_custom_step(cfg, f) {
                Option::Some(t) => {
                    match cfg.custom_extensions {
                        Option::None => {},
                        Option::Some(list) => {
                            match spec_extension_of(f) {
                                Option::None => {},
                                Option::Some(e) => {
                                    lemma_custom_lookup_reserved(
                                        list@,
                                        crate::strutil::spec_lower(e),
                                    );
                                },
                            }
                        },
                    }
                },
                Option::None => {
                    lemma_filename_tags_reserved(f);
                    let cmd = spec_parse_shebang(prefix);
                    if cmd.len() > 0 {
                        lemma_resolve_reserved(crate::resolve::spec_basename(cmd[0]));
                    }
                },
            }
        }
    }
}

/// A configuration whose custom tag sets carry at most one of the
/// `text`/`binary` encoding tags, as table curation demands.
pub open spec fn spec_custom_encoding_clear(cfg: FileIdentifier) -> bool {
    match cfg.custom_extensions {
        Option::None => true,
        Option::Some(list) => forall|i: int|
            0 <= i < list@.len() ==> !((#[trigger] list@[i]).1@.contains("text"@)
                && list@[i].1@.contains("binary"@)),
    }
}

proof fn lemma_custom_lookup_encoding(list: Seq<(String, TagSet)>, key: Seq<char>)
    requires
        forall|i: int|
            0 <= i < list.len() ==> !((#[trigger] list[i]).1@.contains("text"@)
                && list[i].1@.contains("binary"@)),
    ensures
        (match spec_custom_lookup(list, key) {
            Option::Some(t) => !(t.contains("text"@) && t.contains("binary"@)),
            Option::None => true,
        }),
    decreases list.len(),
{
    if list.len() > 0 && list[0].0@ != key {
        assert forall|i: int| 0 <= i < list.skip(1).len() implies !((#[trigger] list.skip(
            1,
        )[i]).1@.contains("text"@) && list.skip(1)[i].1@.contains("binary"@)) by {
            assert(list.skip(1)[i] == list[i + 1]);
        }
        lemma_custom_lookup_encoding(list.skip(1), key);
    }
}

/// Encoding discipline of classification, for every configuration whose
/// custom tag sets respect table curation: a result carries at most one of
/// the `text`/`binary` encoding tags.
pub proof fn lemma_classify_encoding(
    cfg: FileIdentifier,
    kind: EntryKind,
    executable: bool,
    f: Seq<char>,
    prefix: Seq<u8>,
)
    requires
        spec_custom_encoding_clear(cfg),
    ensures
        !(spec_classify(cfg, kind, executable, f, prefix).contains("text"@) && spec_classify(
            cfg,
            kind,
            executable,
            f,
            prefix,
        ).contains("binary"@)),
{
    broadcast use vstd::string::group_string_axioms;

    reveal_strlit("text");
    reveal_strlit("binary");
    reveal_strlit("file");
    reveal_strlit("executable");
    reveal_strlit("non-executable");
    reveal_strlit("directory");
    reveal_strlit("symlink");
    reveal_strlit("socket");
    assert("text"@.len() == 4);
    assert("binary"@.len() == 6);
    assert("file"@.len() == 4);
    assert("executable"@.len() == 10);
    assert("non-executable"@.len() == 14);
    assert("directory"@.len() == 9);
    assert("symlink"@.len() == 7);
    assert("socket"@.len() == 6);
    assert("text"@[0] == 't');
    assert("file"@[0] == 'f');
    assert("binary"@[0] == 'b');
    assert("socket"@[0] == 's');
    if kind == EntryKind::Regular {
        let step = spec_filename_shebang_step(cfg, f, executable, prefix);
        assert(!(step.contains("text"@) && step.contains("binary"@))) by {
            match spec_custom_step(cfg, f) {
                Option::Some(t) => {
                    match cfg.custom_extensions {
                        Option::None => {},
                        Option::Some(list) => {
                            match spec_extension_of(f) {
                                Option::None => {},
                                Option::Some(e) => {
                                    lemma_custom_lookup_encoding(
                                        list@,
                                        crate::strutil::spec_lower(e),
                                    );
                                },
                            }
                        },
                    }
                },
                Option::None => {
                    lemma_filename_tags_encoding(f);
                    let cmd = spec_parse_shebang(prefix);
                    if cmd.len() > 0 {
                        lemma_resolve_encoding(crate::resolve::spec_basename(cmd[0]));
                    }
                },
            }
        }
    }
}

/// First-match lookup in the custom extension list.
fn lookup_custom<'a>(list: &'a Vec<(String, TagSet)>, key: &str) -> (r: Option<&'a TagSet>)
    ensures
        (match r {
            Option::Some(t) => spec_custom_lookup(list@, key@) == Option::Some(t@),
            Option::None => spec_custom_lookup(list@, key@) is None,
        }),
{
    let n = list.len();
    let mut i: usize = 0;
    proof {
        assert(list@.skip(0) =~= list@);
    }
    while i < n
        invariant
            0 <= i <= n,
            n == list@.len(),
            spec_custom_lookup(list@.skip(i as int), key@) == spec_custom_lookup(list@, key@),
        decreases n - i,
    {
        proof {
            assert(list@.skip(i as int)[0] == list@[i as int]);
            assert(list@.skip(i as int).skip(1) =~= list@.skip(i + 1));
        }
        if crate::strutil::str_eq(list[i].0.as_str(), key) {
            return Some(&list[i].1);
        }
        i += 1;
    }
    proof {
        assert(list@.skip(n as int).len() == 0);
    }
    None
}

impl FileIdentifier {
    /// A configuration with every analysis step enabled and no custom
    /// extension table.
    pub fn new() -> (r: FileIdentifier)
        ensures
            !r.skip_content_analysis,
            !r.skip_shebang_analysis,
            r.custom_extensions is None,
    {
        FileIdentifier {
            skip_content_analysis: false,
            skip_shebang_analysis: false,
            custom_extensions: None,
        }
    }

    /// Disables text/binary content sniffing.
    pub fn skip_content_analysis(self) -> (r: FileIdentifier)
        ensures
            r.skip_content_analysis,
            r.skip_shebang_analysis == self.skip_shebang_analysis,
            r.custom_extensions == self.custom_extensions,
    {
        FileIdentifier { skip_content_analysis: true, ..self }
    }

    /// Disables shebang parsing for executable files.
    pub fn skip_shebang_analysis(self) -> (r: FileIdentifier)
        ensures
            r.skip_shebang_analysis,
            r.skip_content_analysis == self.skip_content_analysis,
            r.custom_extensions == self.custom_extensions,
    {
        FileIdentifier { skip_shebang_analysis: true, ..self }
    }

    /// Supplies extension-to-tags pairs checked before the built-in
    /// tables; the first pair whose key matches the file's case-folded
    /// extension answers exclusively.
    pub fn with_custom_extensions(self, extensions: Vec<(String, TagSet)>) -> (r: FileIdentifier)
        ensures
            r.custom_extensions == Option::Some(extensions),
            r.skip_content_analysis == self.skip_content_analysis,
            r.skip_shebang_analysis == self.skip_shebang_analysis,
    {
        FileIdentifier { custom_extensions: Some(extensions), ..self }
    }

    /// The filename-and-shebang step over plain values.
    fn filename_shebang_step(&self, filename: &str, executable: bool, content_prefix: &[u8]) -> (r:
        TagSet)
        ensures
            r@ == spec_filename_shebang_step(*self, filename@, executable, content_prefix@),
    {
        if let Some(list) = &self.custom_extensions {
            if let Some(low) = extension_lower_of(filename) {
                if let Some(t) = lookup_custom(list, low.as_str()) {
                    let mut r = TagSet::new();
                    r.union_with(t);
                    proof {
                        assert(r@ =~= t@);
                    }
                    return r;
                }
            }
        }
        let ft = tags_from_filename(filename);
        if !ft.is_empty() {
            return ft;
        }
        if executable && !self.skip_shebang_analysis {
            let cmd = parse_shebang(content_prefix);
            if let Some(interp) = cmd.first() {
                return tags_from_interpreter(interp);
            }
        }
        TagSet::new()
    }

    /// Classifies a filesystem entry from plain values: its kind, its
    /// executable bit, its filename, and a prefix of its content (the
    /// first bytes of the file; at most the first 1024 take part).
    ///
    /// A directory, symlink or socket answers with exactly its kind tag. A
    /// regular file carries `file`, exactly one of
    /// `executable`/`non-executable`, the filename-and-shebang tags, and,
    /// unless skipped or already determined, exactly one of `text`/`binary`
    /// from its content.
    pub fn classify(
        &self,
        kind: EntryKind,
        executable: bool,
        filename: &str,
        content_prefix: &[u8],
    ) -> (r: TagSet)
        ensures
            r@ == spec_classify(*self, kind, executable, filename@, content_prefix@),
    {
        match kind {
            EntryKind::Directory => {
                let mut t = TagSet::new();
                t.insert("directory");
                proof {
                    assert(t@ =~= set!["directory"@]);
                }
                return t;
            },
            EntryKind::Symlink => {
                let mut t = TagSet::new();
                t.insert("symlink");
                proof {
                    assert(t@ =~= set!["symlink"@]);
                }
                return t;
            },
            EntryKind::Socket => {
                let mut t = TagSet::new();
                t.insert("socket");
                proof {
                    assert(t@ =~= set!["socket"@]);
                }
                return t;
            },
            EntryKind::Regular => {},
        }
        let mut tags = TagSet::new();
        tags.insert("file");
        if executable {
            tags.insert("executable");
        } else {
            tags.insert("non-executable");
        }
        let step = self.filename_shebang_step(filename, executable, content_prefix);
        tags.union_with(&step);
        if !self.skip_content_analysis && !tags.contains("text") && !tags.contains("binary") {
            if is_text(content_prefix) {
                tags.insert("text");
            } else {
                tags.insert("binary");
            }
        }
        tags
    }
}

/// Classifies a filesystem entry from plain values with the default
/// configuration: every analysis step enabled.
pub fn tags_from_entry(kind: EntryKind, executable: bool, filename: &str, content_prefix: &[u8]) -> (r:
    TagSet)
    ensures
        r@ == spec_classify(FileIdentifier::spec_default(), kind, executable, filename@, content_prefix@),
{
    let identifier = FileIdentifier::new();
    proof {
        assert(identifier == FileIdentifier::spec_default());
    }
    identifier.classify(kind, executable, filename, content_prefix)
}

impl FileIdentifier {
    /// The default configuration as a value: every step enabled, no custom
    /// table.
    pub open spec fn spec_default() -> FileIdentifier {
        FileIdentifier {
            skip_content_analysis: false,
            skip_shebang_analysis: false,
            custom_extensions: Option::None,
        }
    }
}

} // verus!
